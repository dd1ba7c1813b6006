//! The records the fusion engine takes and gives, and their conversion to and from the
//! caller's records.
//!
//! A bounding box, head pose, gaze and detected object are the same values on both sides.
//! A face differs: the engine holds its landmarks as five named keypoints or none, the caller
//! as a list.

use vstd::prelude::*;
use crate::signals::{F32Bits, PyBBox, PyFaceDetection, PyGaze, PyHeadPose, PyObjectDetection, PySignals};

verus! {

/// A bounding box as the engine holds it.
pub type BBox = PyBBox;

/// A head pose as the engine holds it.
pub type HeadPose = PyHeadPose;

/// A gaze as the engine holds it.
pub type Gaze = PyGaze;

/// A detected object as the engine holds it.
pub type ObjectDetection = PyObjectDetection;

/// A point `(x, y)` in frame pixel coordinates.
pub type Point = (F32Bits, F32Bits);

/// The five facial keypoints the face model gives.
#[derive(Clone, Copy, Debug)]
pub struct FaceKeypoints {
    pub right_eye: Point,
    pub left_eye: Point,
    pub nose: Point,
    pub right_mouth: Point,
    pub left_mouth: Point,
}

/// A detected face as the engine holds it.
#[derive(Clone, Copy, Debug)]
pub struct FaceDetection {
    pub bbox: BBox,
    pub score: F32Bits,
    pub keypoints: Option<FaceKeypoints>,
}

/// One frame of signals as the engine holds it.
pub struct Signals {
    pub seq: u64,
    pub t_ms: u64,
    pub faces: Vec<FaceDetection>,
    pub head_pose: Option<HeadPose>,
    pub gaze: Option<Gaze>,
    pub objects: Vec<ObjectDetection>,
    pub identity_match: Option<F32Bits>,
}

/// The keypoints a list of landmarks stands for: the five of them, in order, where the list
/// has exactly five, and none otherwise.
pub open spec fn keypoints_of(landmarks: Seq<Point>) -> Option<FaceKeypoints> {
    if landmarks.len() == 5 {
        Some(
            FaceKeypoints {
                right_eye: landmarks[0],
                left_eye: landmarks[1],
                nose: landmarks[2],
                right_mouth: landmarks[3],
                left_mouth: landmarks[4],
            },
        )
    } else {
        None
    }
}

/// The landmark list of some keypoints: the five in order, or the empty list for none.
pub open spec fn landmarks_of(keypoints: Option<FaceKeypoints>) -> Seq<Point> {
    match keypoints {
        Some(k) => seq![k.right_eye, k.left_eye, k.nose, k.right_mouth, k.left_mouth],
        None => Seq::empty(),
    }
}

/// The engine's record of the caller's face `f`.
pub open spec fn engine_face(f: PyFaceDetection) -> FaceDetection {
    FaceDetection { bbox: f.bbox, score: f.score, keypoints: keypoints_of(f.landmarks@) }
}

/// Whether the caller's face `p` shows the engine's face `e`.
pub open spec fn shows_face(p: PyFaceDetection, e: FaceDetection) -> bool {
    &&& p.bbox == e.bbox
    &&& p.score == e.score
    &&& p.landmarks@ == landmarks_of(e.keypoints)
}

/// Whether the objects `a` and `b` hold the same values.
pub open spec fn same_object(a: PyObjectDetection, b: PyObjectDetection) -> bool {
    &&& a.class_id == b.class_id
    &&& a.label@ == b.label@
    &&& a.score == b.score
    &&& a.bbox == b.bbox
}

/// Whether the lists of objects `a` and `b` hold the same values, in the same order.
pub open spec fn same_objects(a: Seq<PyObjectDetection>, b: Seq<PyObjectDetection>) -> bool {
    &&& a.len() == b.len()
    &&& forall|i: int| 0 <= i < a.len() ==> same_object(#[trigger] a[i], b[i])
}

/// The timestamp of a step: the one given, or else the signals' own.
pub open spec fn step_time(signals: PySignals, t_ms: Option<u64>) -> u64 {
    match t_ms {
        Some(t) => t,
        None => signals.t_ms,
    }
}

/// Whether `e` is the engine's record of the caller's signals `p` at timestamp `t_ms`.
pub open spec fn engine_signals(p: PySignals, t_ms: u64, e: Signals) -> bool {
    &&& e.seq == p.seq
    &&& e.t_ms == t_ms
    &&& e.faces@ == p.faces@.map_values(|f: PyFaceDetection| engine_face(f))
    &&& e.head_pose == p.head_pose
    &&& e.gaze == p.gaze
    &&& same_objects(e.objects@, p.objects@)
    &&& e.identity_match == p.identity_match
}

/// Whether the caller's signals `p` show the engine's signals `e`.
pub open spec fn shows_signals(p: PySignals, e: Signals) -> bool {
    &&& p.seq == e.seq
    &&& p.t_ms == e.t_ms
    &&& p.faces@.len() == e.faces@.len()
    &&& forall|i: int| 0 <= i < p.faces@.len() ==> shows_face(#[trigger] p.faces@[i], e.faces@[i])
    &&& p.head_pose == e.head_pose
    &&& p.gaze == e.gaze
    &&& same_objects(p.objects@, e.objects@)
    &&& p.identity_match == e.identity_match
}

/// The keypoints a list of landmarks stands for.
pub fn keypoints_from_landmarks(landmarks: &Vec<Point>) -> (k: Option<FaceKeypoints>)
    ensures
        k == keypoints_of(landmarks@),
{
    if landmarks.len() == 5 {
        Some(
            FaceKeypoints {
                right_eye: landmarks[0],
                left_eye: landmarks[1],
                nose: landmarks[2],
                right_mouth: landmarks[3],
                left_mouth: landmarks[4],
            },
        )
    } else {
        None
    }
}

/// The landmark list of some keypoints.
pub fn landmarks_from_keypoints(keypoints: Option<FaceKeypoints>) -> (l: Vec<Point>)
    ensures
        l@ == landmarks_of(keypoints),
{
    match keypoints {
        Some(k) => {
            let l = vec![k.right_eye, k.left_eye, k.nose, k.right_mouth, k.left_mouth];
            assert(l@ =~= landmarks_of(keypoints));
            l
        },
        None => {
            let l: Vec<Point> = Vec::new();
            assert(l@ =~= landmarks_of(keypoints));
            l
        },
    }
}

/// A copy of the object `o`.
pub fn copy_object(o: &PyObjectDetection) -> (c: PyObjectDetection)
    ensures
        same_object(c, *o),
{
    PyObjectDetection { class_id: o.class_id, label: o.label.clone(), score: o.score, bbox: o.bbox }
}

/// Copies of the objects `objects`, in order.
pub fn copy_objects(objects: &Vec<PyObjectDetection>) -> (c: Vec<PyObjectDetection>)
    ensures
        same_objects(c@, objects@),
{
    let mut c: Vec<PyObjectDetection> = Vec::new();
    for i in 0..objects.len()
        invariant
            c@.len() == i,
            forall|j: int| 0 <= j < i ==> same_object(#[trigger] c@[j], objects@[j]),
    {
        c.push(copy_object(&objects[i]));
    }
    c
}

impl PyFaceDetection {
    /// The caller's record of the engine's face `f`: its landmarks are its five keypoints in
    /// order, or none.
    pub fn from_engine(f: &FaceDetection) -> (p: PyFaceDetection)
        ensures
            shows_face(p, *f),
    {
        PyFaceDetection { bbox: f.bbox, score: f.score, landmarks: landmarks_from_keypoints(f.keypoints) }
    }

    /// The engine's record of this face: it has keypoints exactly when it has five landmarks.
    pub fn to_engine(&self) -> (e: FaceDetection)
        ensures
            e == engine_face(*self),
    {
        FaceDetection { bbox: self.bbox, score: self.score, keypoints: keypoints_from_landmarks(&self.landmarks) }
    }
}

impl PySignals {
    /// The caller's record of the engine's signals `s`.
    pub fn from_engine(s: &Signals) -> (p: PySignals)
        ensures
            shows_signals(p, *s),
    {
        let mut faces: Vec<PyFaceDetection> = Vec::new();
        for i in 0..s.faces.len()
            invariant
                faces@.len() == i,
                forall|j: int| 0 <= j < i ==> shows_face(#[trigger] faces@[j], s.faces@[j]),
        {
            faces.push(PyFaceDetection::from_engine(&s.faces[i]));
        }
        PySignals {
            seq: s.seq,
            t_ms: s.t_ms,
            faces,
            head_pose: s.head_pose,
            gaze: s.gaze,
            objects: copy_objects(&s.objects),
            identity_match: s.identity_match,
        }
    }
}

/// The signals one step of the engine is fed: the caller's `signals`, at the timestamp
/// `t_ms` where one is given and at the signals' own otherwise.
pub fn step_signals(signals: &PySignals, t_ms: Option<u64>) -> (e: Signals)
    ensures
        engine_signals(*signals, step_time(*signals, t_ms), e),
{
    let timestamp = match t_ms {
        Some(t) => t,
        None => signals.t_ms,
    };
    let mut faces: Vec<FaceDetection> = Vec::new();
    for i in 0..signals.faces.len()
        invariant
            faces@ == signals.faces@.take(i as int).map_values(|f: PyFaceDetection| engine_face(f)),
    {
        faces.push(signals.faces[i].to_engine());
        assert(signals.faces@.take(i + 1) =~= signals.faces@.take(i as int).push(signals.faces@[i as int]));
        assert(faces@ =~= signals.faces@.take(i + 1).map_values(|f: PyFaceDetection| engine_face(f)));
    }
    assert(signals.faces@.take(signals.faces@.len() as int) =~= signals.faces@);
    Signals {
        seq: signals.seq,
        t_ms: timestamp,
        faces,
        head_pose: signals.head_pose,
        gaze: signals.gaze,
        objects: copy_objects(&signals.objects),
        identity_match: signals.identity_match,
    }
}

/// A step given a timestamp `t` runs at `t`, whatever timestamp the signals carry, earlier
/// or later; a step given none runs at the signals' own timestamp. The engine's record of a
/// step carries that timestamp.
pub proof fn law_step_time(signals: PySignals, t: u64, e: Signals, f: Signals)
    requires
        engine_signals(signals, step_time(signals, Some(t)), e),
        engine_signals(signals, step_time(signals, None), f),
    ensures
        step_time(signals, Some(t)) == t,
        step_time(signals, None) == signals.t_ms,
        e.t_ms == t,
        f.t_ms == signals.t_ms,
        e.seq == signals.seq,
{
}

/// Landmark `i` is the `i`-th keypoint in the documented order: right eye, left eye, nose
/// tip, right mouth corner, left mouth corner, both from keypoints to landmarks and back.
pub proof fn law_landmark_order(k: FaceKeypoints, l: Seq<Point>)
    requires
        l.len() == 5,
    ensures
        landmarks_of(Some(k)).len() == 5,
        landmarks_of(Some(k))[0] == k.right_eye,
        landmarks_of(Some(k))[1] == k.left_eye,
        landmarks_of(Some(k))[2] == k.nose,
        landmarks_of(Some(k))[3] == k.right_mouth,
        landmarks_of(Some(k))[4] == k.left_mouth,
        keypoints_of(l) matches Some(kl) && kl.right_eye == l[0] && kl.left_eye == l[1] && kl.nose
            == l[2] && kl.right_mouth == l[3] && kl.left_mouth == l[4],
{
}

/// A face fed to the engine keeps its box and score, and its keypoints are its landmarks,
/// named in order, when it has five; a face read from the engine lists its keypoints in that
/// order.
pub proof fn law_face_landmarks(p: PyFaceDetection, e: FaceDetection)
    requires
        shows_face(p, e),
    ensures
        engine_face(p).bbox == p.bbox,
        engine_face(p).score == p.score,
        e.keypoints matches Some(k) ==> p.landmarks@ == seq![k.right_eye, k.left_eye, k.nose, k.right_mouth, k.left_mouth],
        e.keypoints is None ==> p.landmarks@.len() == 0,
{
}

/// Keypoints survive the trip to a landmark list and back unchanged.
pub proof fn law_keypoints_round_trip(k: Option<FaceKeypoints>)
    ensures
        keypoints_of(landmarks_of(k)) == k,
{
}

/// A landmark list survives the trip to keypoints and back exactly when it holds no
/// landmark or five: any other number is dropped on the way to the engine.
pub proof fn law_landmarks_round_trip(landmarks: Seq<Point>)
    ensures
        landmarks_of(keypoints_of(landmarks)) == landmarks <==> (landmarks.len() == 0
            || landmarks.len() == 5),
{
    if landmarks.len() == 5 {
        assert(landmarks_of(keypoints_of(landmarks)) =~= landmarks);
    } else if landmarks.len() == 0 {
        assert(landmarks_of(keypoints_of(landmarks)) =~= landmarks);
    }
}

/// A face as the caller reads it from the engine goes back to the engine as the same face.
pub proof fn law_shown_face_returns(p: PyFaceDetection, e: FaceDetection)
    requires
        shows_face(p, e),
    ensures
        engine_face(p) == e,
{
    law_keypoints_round_trip(e.keypoints);
}

/// Signals as the caller reads them from the engine, stepped at their own timestamp, feed the
/// engine the same signals again.
pub proof fn law_shown_signals_return(p: PySignals, e: Signals, fed: Signals)
    requires
        shows_signals(p, e),
        engine_signals(p, step_time(p, None), fed),
    ensures
        fed.seq == e.seq,
        fed.t_ms == e.t_ms,
        fed.faces@ == e.faces@,
        fed.head_pose == e.head_pose,
        fed.gaze == e.gaze,
        same_objects(fed.objects@, e.objects@),
        fed.identity_match == e.identity_match,
{
    assert forall|i: int| 0 <= i < fed.faces@.len() implies fed.faces@[i] == e.faces@[i] by {
        law_shown_face_returns(p.faces@[i], e.faces@[i]);
    }
    assert(fed.faces@ =~= e.faces@);
}

} // verus!
