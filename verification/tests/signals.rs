use rustream::engine::{
    keypoints_from_landmarks, landmarks_from_keypoints, step_signals, FaceDetection, FaceKeypoints, Signals,
};
use rustream::signals::{PyBBox, PyFaceDetection, PyGaze, PyHeadPose, PyObjectDetection, PySignals};

fn b(x: f32) -> u32 {
    x.to_bits()
}

fn bbox() -> PyBBox {
    PyBBox::new(b(10.0), b(20.0), b(30.5), b(40.25))
}

fn five() -> Vec<(u32, u32)> {
    vec![(b(1.0), b(2.0)), (b(3.0), b(4.0)), (b(5.0), b(6.0)), (b(7.0), b(8.0)), (b(9.0), b(10.0))]
}

#[test]
fn signals_defaults_and_face_count() {
    let s = PySignals::new(1, 33, None, None, None, None, None);
    assert_eq!(s.seq, 1);
    assert_eq!(s.t_ms, 33);
    assert_eq!(s.face_count(), 0);
    assert!(s.objects.is_empty());
    let face = PyFaceDetection::new(bbox(), b(0.9), None);
    let s = PySignals::new(2, 66, Some(vec![face, PyFaceDetection::new(bbox(), b(1.0), Some(five()))]), None, None, None, Some(b(0.5)));
    assert_eq!(s.face_count(), 2);
    assert_eq!(s.identity_match, Some(b(0.5)));
}

#[test]
fn constructors_keep_their_values() {
    let f = PyFaceDetection::new(bbox(), b(1.0), None);
    assert!(f.landmarks.is_empty());
    assert_eq!(f.score, b(1.0));
    assert_eq!(f.bbox, bbox());
    let g = PyGaze::new(b(0.0), b(0.0), None, Some(b(0.1)));
    assert_eq!(g.eye_pitch_rad, Some(b(0.1)));
    assert_eq!(g.eye_yaw_rad, None);
    let o = PyObjectDetection::new("cell phone".to_string(), b(0.8), bbox(), 0);
    assert_eq!(o.label, "cell phone");
    assert_eq!(o.class_id, 0);
    let p = PyHeadPose::new(b(30.0), b(-10.0), b(2.0));
    assert_eq!(f32::from_bits(p.pitch_deg), -10.0);
}

#[test]
fn keypoints_only_from_exactly_five_landmarks() {
    let k = keypoints_from_landmarks(&five()).unwrap();
    assert_eq!(k.right_eye, (b(1.0), b(2.0)));
    assert_eq!(k.left_mouth, (b(9.0), b(10.0)));
    assert!(keypoints_from_landmarks(&vec![]).is_none());
    assert!(keypoints_from_landmarks(&five()[..3].to_vec()).is_none());
    let mut six = five();
    six.push((b(0.0), b(0.0)));
    assert!(keypoints_from_landmarks(&six).is_none());
    assert_eq!(landmarks_from_keypoints(Some(k)), five());
    assert!(landmarks_from_keypoints(None).is_empty());
}

#[test]
fn landmark_round_trip_keeps_zero_or_five() {
    let f = PyFaceDetection::new(bbox(), b(0.7), Some(five()));
    let back = PyFaceDetection::from_engine(&f.to_engine());
    assert_eq!(back.landmarks, five());
    let three = PyFaceDetection::new(bbox(), b(0.7), Some(five()[..3].to_vec()));
    let back = PyFaceDetection::from_engine(&three.to_engine());
    assert!(back.landmarks.is_empty());
}

#[test]
fn step_uses_given_time_or_the_signals_time() {
    let objects = vec![PyObjectDetection::new("book".to_string(), b(0.6), bbox(), 73)];
    let face = PyFaceDetection::new(bbox(), b(0.95), Some(five()));
    let s = PySignals::new(4, 133, Some(vec![face]), Some(PyHeadPose::new(b(1.0), b(2.0), b(3.0))), None, Some(objects), None);
    let e = step_signals(&s, None);
    assert_eq!(e.t_ms, 133);
    assert_eq!(e.seq, 4);
    assert_eq!(e.faces.len(), 1);
    assert_eq!(e.faces[0].score, b(0.95));
    assert!(e.faces[0].keypoints.is_some());
    assert_eq!(e.objects[0].label, "book");
    assert_eq!(e.objects[0].class_id, 73);
    assert_eq!(e.head_pose, s.head_pose);
    let e = step_signals(&s, Some(500));
    assert_eq!(e.t_ms, 500);
}

#[test]
fn snapshot_of_engine_signals() {
    let k = FaceKeypoints {
        right_eye: (b(1.0), b(1.0)),
        left_eye: (b(2.0), b(1.0)),
        nose: (b(1.5), b(2.0)),
        right_mouth: (b(1.0), b(3.0)),
        left_mouth: (b(2.0), b(3.0)),
    };
    let e = Signals {
        seq: 9,
        t_ms: 300,
        faces: vec![FaceDetection { bbox: bbox(), score: b(0.8), keypoints: Some(k) }, FaceDetection {
            bbox: bbox(),
            score: b(0.4),
            keypoints: None,
        }],
        head_pose: None,
        gaze: Some(PyGaze::new(b(0.2), b(-0.1), None, None)),
        objects: vec![],
        identity_match: Some(b(0.9)),
    };
    let p = PySignals::from_engine(&e);
    assert_eq!(p.face_count(), 2);
    assert_eq!(p.faces[0].landmarks.len(), 5);
    assert_eq!(p.faces[0].landmarks[2], (b(1.5), b(2.0)));
    assert!(p.faces[1].landmarks.is_empty());
    assert_eq!(p.gaze, e.gaze);
    assert_eq!(p.identity_match, Some(b(0.9)));
    let fed = step_signals(&p, None);
    assert_eq!(fed.t_ms, 300);
    assert!(fed.faces[0].keypoints.is_some());
    assert!(fed.faces[1].keypoints.is_none());
}

#[test]
fn signals_repr_counts_what_it_holds() {
    let s = PySignals::new(3, 99, None, None, None, None, None);
    assert_eq!(s.repr(), "Signals(seq=3, t_ms=99, faces=0, pose=false, gaze=false, objects=0)");
    let face = PyFaceDetection::new(bbox(), b(1.0), None);
    let obj = PyObjectDetection::new("laptop".to_string(), b(0.5), bbox(), 63);
    let s = PySignals::new(
        12,
        400,
        Some(vec![face]),
        Some(PyHeadPose::new(b(0.0), b(0.0), b(0.0))),
        Some(PyGaze::new(b(0.0), b(0.0), None, None)),
        Some(vec![obj]),
        None,
    );
    assert_eq!(s.repr(), "Signals(seq=12, t_ms=400, faces=1, pose=true, gaze=true, objects=1)");
}
