use transcriber::paths::file_name_of;

#[test]
fn final_segment_is_the_file_name() {
    assert_eq!(file_name_of("a/b/clip.wav"), Some("clip.wav".to_string()));
    assert_eq!(file_name_of("/clip.wav"), Some("clip.wav".to_string()));
    assert_eq!(file_name_of("clip.wav"), Some("clip.wav".to_string()));
}

#[test]
fn paths_without_a_final_segment_have_no_file_name() {
    assert_eq!(file_name_of(""), None);
    assert_eq!(file_name_of("a/b/"), None);
    assert_eq!(file_name_of("/"), None);
}
