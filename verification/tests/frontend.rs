use stereo_camera::camera::actor::CameraActorMessage;
use stereo_camera::frontend::{gallery, has_suffix, is_recording, record_request};

#[test]
fn recordings_are_told_by_their_endings() {
    assert!(is_recording("2024-05-01 12-00-00 left.mkv"));
    assert!(is_recording("2024-05-01 12-00-00 right.mov"));
    assert!(is_recording("clip.mp4"));
    assert!(is_recording(".mkv"));
    assert!(!is_recording("clip.MKV"));
    assert!(!is_recording("clip.mkv.part"));
    assert!(!is_recording("mkv"));
    assert!(!is_recording(""));
    assert!(!is_recording("notes.txt"));
}

#[test]
fn suffixes_of_texts() {
    assert!(has_suffix("abc", ""));
    assert!(has_suffix("abc", "c"));
    assert!(has_suffix("abc", "abc"));
    assert!(!has_suffix("abc", "xabc"));
    assert!(!has_suffix("abc", "ab"));
    assert!(has_suffix("süß.mov", ".mov"));
    assert!(has_suffix("film.möv", "öv"));
    assert!(!has_suffix("", "a"));
}

#[test]
fn suffixes_agree_with_the_standard_test() {
    let texts = ["", "a", ".mkv", "x.mkv", "x.mov", "x.mp4", "ümlaut.mp4", "mp4", "a.mp4 "];
    let endings = ["", ".mkv", ".mov", ".mp4", "4", "v"];
    for text in texts {
        for ending in endings {
            assert_eq!(has_suffix(text, ending), text.ends_with(ending));
        }
    }
}

#[test]
fn the_gallery_keeps_recordings_in_their_order() {
    let entries = vec![
        "b right.mkv".to_string(),
        "readme.md".to_string(),
        "a left.mov".to_string(),
        "old.mp4".to_string(),
        "broken.mkv.tmp".to_string(),
        "b left.mkv".to_string(),
    ];
    assert_eq!(
        gallery(&entries),
        vec![
            "b right.mkv".to_string(),
            "a left.mov".to_string(),
            "old.mp4".to_string(),
            "b left.mkv".to_string(),
        ]
    );
    assert_eq!(gallery(&Vec::new()), Vec::<String>::new());
    assert_eq!(gallery(&vec!["x.txt".to_string()]), Vec::<String>::new());
}

#[test]
fn the_record_switch_picks_the_mode() {
    assert_eq!(record_request(true), CameraActorMessage::StartCapture);
    assert_eq!(record_request(false), CameraActorMessage::StartLivefeed);
}
