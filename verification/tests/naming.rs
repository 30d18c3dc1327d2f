use audio_recorder::naming::{
    output_path, recording_file_name, recording_file_name_now, trim_trailing_slashes,
};

#[test]
fn the_file_name_wraps_the_stamp() {
    assert_eq!(recording_file_name("20240131_235959"), "recording_20240131_235959.ogg");
    assert_eq!(recording_file_name(""), "recording_.ogg");
}

#[test]
fn the_file_name_of_now_carries_the_local_time() {
    let name = recording_file_name_now();
    assert!(name.starts_with("recording_"));
    assert!(name.ends_with(".ogg"));
    let stamp = &name["recording_".len()..name.len() - ".ogg".len()];
    assert!(!stamp.contains('%'));
    assert_eq!(stamp.len(), 15);
    for (i, c) in stamp.chars().enumerate() {
        if i == 8 {
            assert_eq!(c, '_');
        } else {
            assert!(c.is_ascii_digit());
        }
    }
    let recent = recording_file_name_now();
    assert!(recent >= name);
    let year: u32 = stamp[0..4].parse().unwrap();
    assert!(year >= 2024);
    let month: u32 = stamp[4..6].parse().unwrap();
    let hour: u32 = stamp[9..11].parse().unwrap();
    assert!(1 <= month && month <= 12);
    assert!(hour < 24);
}

#[test]
fn trailing_slashes_are_taken_off() {
    assert_eq!(trim_trailing_slashes("/tmp/out///"), "/tmp/out");
    assert_eq!(trim_trailing_slashes("/tmp/out"), "/tmp/out");
    assert_eq!(trim_trailing_slashes("///"), "");
    assert_eq!(trim_trailing_slashes(""), "");
    assert_eq!(trim_trailing_slashes("/é/"), "/é");
}

#[test]
fn the_path_lies_below_a_ready_save_directory() {
    assert_eq!(output_path(Some("/tmp/out"), true, "a.ogg"), "/tmp/out/a.ogg");
    assert_eq!(output_path(Some("/tmp/out/"), true, "a.ogg"), "/tmp/out/a.ogg");
    assert_eq!(output_path(Some("/"), true, "a.ogg"), "/a.ogg");
    assert_eq!(output_path(Some("enregistrements/été//"), true, "a.ogg"), "enregistrements/été/a.ogg");
}

#[test]
fn the_path_falls_back_to_the_working_directory() {
    assert_eq!(output_path(Some("/tmp/out"), false, "a.ogg"), "a.ogg");
    assert_eq!(output_path(None, true, "a.ogg"), "a.ogg");
    assert_eq!(output_path(None, false, "a.ogg"), "a.ogg");
}
