//! Per-frame detection signals as the caller builds and reads them.
//!
//! Angles, coordinates and scores are single-precision floats in the detection models. The
//! library only carries them from one record to another, so it holds each as its IEEE-754
//! bit pattern (`F32Bits`): a record keeps every float exactly as it was given.

use vstd::prelude::*;
use crate::text::{bool_text, decimal, push_bool, push_decimal};

verus! {

/// The IEEE-754 bit pattern of a single-precision float.
pub type F32Bits = u32;

/// Axis-aligned 2D bounding box in source frame pixel coordinates.
#[derive(Clone, Copy, Debug, PartialEq, Eq, Structural)]
pub struct PyBBox {
    pub x: F32Bits,
    pub y: F32Bits,
    pub w: F32Bits,
    pub h: F32Bits,
}

impl PyBBox {
    pub fn new(x: F32Bits, y: F32Bits, w: F32Bits, h: F32Bits) -> (b: PyBBox)
        ensures
            b == (PyBBox { x, y, w, h }),
    {
        PyBBox { x, y, w, h }
    }
}

/// A detected face: its box, its confidence score and its facial landmarks, `(x, y)` each,
/// in the order right eye, left eye, nose tip, right mouth corner, left mouth corner.
#[derive(Debug)]
pub struct PyFaceDetection {
    pub bbox: PyBBox,
    pub score: F32Bits,
    pub landmarks: Vec<(F32Bits, F32Bits)>,
}

impl PyFaceDetection {
    /// A face; `landmarks` is empty where the caller gives none.
    pub fn new(bbox: PyBBox, score: F32Bits, landmarks: Option<Vec<(F32Bits, F32Bits)>>) -> (f: PyFaceDetection)
        ensures
            f.bbox == bbox,
            f.score == score,
            f.landmarks@ == (match landmarks {
                Some(l) => l@,
                None => Seq::<(F32Bits, F32Bits)>::empty(),
            }),
    {
        let landmarks = match landmarks {
            Some(l) => l,
            None => Vec::new(),
        };
        PyFaceDetection { bbox, score, landmarks }
    }
}

/// Head pose Euler angles in degrees (aerospace yaw-pitch-roll convention).
#[derive(Clone, Copy, Debug, PartialEq, Eq, Structural)]
pub struct PyHeadPose {
    pub yaw_deg: F32Bits,
    pub pitch_deg: F32Bits,
    pub roll_deg: F32Bits,
}

impl PyHeadPose {
    pub fn new(yaw_deg: F32Bits, pitch_deg: F32Bits, roll_deg: F32Bits) -> (p: PyHeadPose)
        ensures
            p == (PyHeadPose { yaw_deg, pitch_deg, roll_deg }),
    {
        PyHeadPose { yaw_deg, pitch_deg, roll_deg }
    }
}

/// Gaze direction in radians, and the eye-in-head deflection where the model gives it.
#[derive(Clone, Copy, Debug, PartialEq, Eq, Structural)]
pub struct PyGaze {
    pub yaw_rad: F32Bits,
    pub pitch_rad: F32Bits,
    pub eye_yaw_rad: Option<F32Bits>,
    pub eye_pitch_rad: Option<F32Bits>,
}

impl PyGaze {
    pub fn new(
        yaw_rad: F32Bits,
        pitch_rad: F32Bits,
        eye_yaw_rad: Option<F32Bits>,
        eye_pitch_rad: Option<F32Bits>,
    ) -> (g: PyGaze)
        ensures
            g == (PyGaze { yaw_rad, pitch_rad, eye_yaw_rad, eye_pitch_rad }),
    {
        PyGaze { yaw_rad, pitch_rad, eye_yaw_rad, eye_pitch_rad }
    }
}

/// A detected object (phone, book, laptop): its COCO class, label, score and box.
#[derive(Debug)]
pub struct PyObjectDetection {
    pub class_id: u32,
    pub label: String,
    pub score: F32Bits,
    pub bbox: PyBBox,
}

impl PyObjectDetection {
    pub fn new(label: String, score: F32Bits, bbox: PyBBox, class_id: u32) -> (o: PyObjectDetection)
        ensures
            o.label@ == label@,
            o.score == score,
            o.bbox == bbox,
            o.class_id == class_id,
    {
        PyObjectDetection { class_id, label, score, bbox }
    }
}

/// What every model said of one frame.
#[derive(Debug)]
pub struct PySignals {
    pub seq: u64,
    pub t_ms: u64,
    pub faces: Vec<PyFaceDetection>,
    pub head_pose: Option<PyHeadPose>,
    pub gaze: Option<PyGaze>,
    pub objects: Vec<PyObjectDetection>,
    pub identity_match: Option<F32Bits>,
}

impl PySignals {
    /// A snapshot; `faces` and `objects` are empty where the caller gives none.
    pub fn new(
        seq: u64,
        t_ms: u64,
        faces: Option<Vec<PyFaceDetection>>,
        head_pose: Option<PyHeadPose>,
        gaze: Option<PyGaze>,
        objects: Option<Vec<PyObjectDetection>>,
        identity_match: Option<F32Bits>,
    ) -> (s: PySignals)
        ensures
            s.seq == seq,
            s.t_ms == t_ms,
            s.faces@ == (match faces {
                Some(v) => v@,
                None => Seq::<PyFaceDetection>::empty(),
            }),
            s.head_pose == head_pose,
            s.gaze == gaze,
            s.objects@ == (match objects {
                Some(v) => v@,
                None => Seq::<PyObjectDetection>::empty(),
            }),
            s.identity_match == identity_match,
    {
        let faces = match faces {
            Some(v) => v,
            None => Vec::new(),
        };
        let objects = match objects {
            Some(v) => v,
            None => Vec::new(),
        };
        PySignals { seq, t_ms, faces, head_pose, gaze, objects, identity_match }
    }

    /// A description of the snapshot: its sequence number and time, how many faces and
    /// objects it holds, and whether it has a head pose and a gaze.
    pub fn repr(&self) -> (s: String)
        ensures
            s@ == signals_repr(*self),
    {
        let mut s = String::from_str("Signals(seq=");
        push_decimal(&mut s, self.seq);
        s.append(", t_ms=");
        push_decimal(&mut s, self.t_ms);
        s.append(", faces=");
        push_decimal(&mut s, self.faces.len() as u64);
        s.append(", pose=");
        push_bool(&mut s, self.head_pose.is_some());
        s.append(", gaze=");
        push_bool(&mut s, self.gaze.is_some());
        s.append(", objects=");
        push_decimal(&mut s, self.objects.len() as u64);
        s.append(")");
        s
    }

    /// The number of faces detected.
    pub fn face_count(&self) -> (n: usize)
        ensures
            n == self.faces@.len(),
    {
        self.faces.len()
    }
}

/// The text that describes a snapshot.
pub open spec fn signals_repr(s: PySignals) -> Seq<char> {
    "Signals(seq="@ + decimal(s.seq as nat) + ", t_ms="@ + decimal(s.t_ms as nat) + ", faces="@ + decimal(
        s.faces@.len(),
    ) + ", pose="@ + bool_text(s.head_pose is Some) + ", gaze="@ + bool_text(s.gaze is Some) + ", objects="@
        + decimal(s.objects@.len()) + ")"@
}

/// The description of a snapshot names, in order, its sequence number, its timestamp, its
/// number of faces, `pose=true` exactly when it has a head pose, `gaze=true` exactly when it
/// has a gaze, and its number of objects.
pub proof fn law_signals_repr(s: PySignals)
    ensures
        signals_repr(s) == "Signals(seq="@ + decimal(s.seq as nat) + ", t_ms="@ + decimal(s.t_ms as nat)
            + ", faces="@ + decimal(s.faces@.len()) + ", pose="@ + (if s.head_pose is Some {
            "true"@
        } else {
            "false"@
        }) + ", gaze="@ + (if s.gaze is Some {
            "true"@
        } else {
            "false"@
        }) + ", objects="@ + decimal(s.objects@.len()) + ")"@,
{
}

} // verus!
