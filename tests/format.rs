use firefly::format::{
    is_audio_format, is_rodio_format, is_rodio_supported, plan_load, same_text, FormatError,
    CONVERTED_TRACK,
};

#[test]
fn supported_formats_are_played_as_they_are() {
    assert_eq!(is_rodio_supported("/music/song.mp3", true), Ok(true));
    assert_eq!(is_rodio_supported("song.flac", true), Ok(true));
    assert_eq!(is_rodio_supported("a/b/c.ogg", true), Ok(true));
    assert_eq!(is_rodio_supported("c.wav", true), Ok(true));
}

#[test]
fn other_formats_are_not_supported() {
    assert_eq!(is_rodio_supported("/music/song.opus", true), Ok(false));
    assert_eq!(is_rodio_supported("song.m4a", true), Ok(false));
    assert_eq!(is_rodio_supported("song.MP3", true), Ok(false));
}

#[test]
fn a_path_that_is_no_file_is_an_error() {
    assert_eq!(is_rodio_supported("/music/song.mp3", false), Err(FormatError::NotAFile));
}

#[test]
fn a_name_without_extension_is_an_error() {
    assert_eq!(is_rodio_supported("/music/song", true), Err(FormatError::NoExtension));
    assert_eq!(is_rodio_supported("/music/.mp3", true), Err(FormatError::NoExtension));
}

#[test]
fn format_sets() {
    assert!(is_rodio_format("mp3"));
    assert!(!is_rodio_format("opus"));
    assert!(is_audio_format("opus"));
    assert!(is_audio_format("alac"));
    assert!(is_audio_format("flac"));
    assert!(!is_audio_format("txt"));
    assert!(!is_audio_format(""));
}

#[test]
fn same_text_compares_whole_texts() {
    assert!(same_text("mp3", "mp3"));
    assert!(!same_text("mp3", "mp4"));
    assert!(!same_text("mp3", "mp"));
    assert!(same_text("", ""));
}

#[test]
fn unsupported_track_is_converted_before_it_is_opened() {
    let plan = plan_load("/music/song.opus", true);
    assert!(plan.convert);
    assert_eq!(plan.playable, CONVERTED_TRACK);
    assert_eq!(plan.track, "/music/song.opus");
}

#[test]
fn unknown_tracks_are_converted_too() {
    let plan = plan_load("/music/song", true);
    assert!(plan.convert);
    assert_eq!(plan.playable, CONVERTED_TRACK);
    let plan = plan_load("/music/song.mp3", false);
    assert!(plan.convert);
}

#[test]
fn supported_track_is_played_from_its_own_path() {
    let plan = plan_load("/music/song.flac", true);
    assert!(!plan.convert);
    assert_eq!(plan.playable, "/music/song.flac");
}
