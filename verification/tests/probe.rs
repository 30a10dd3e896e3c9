use blue_music::error::DecodeCause;
use blue_music::probe::diagnose;

#[test]
fn a_file_that_cannot_be_read_is_missing() {
    assert_eq!(diagnose(None), DecodeCause::MissingFile);
}

#[test]
fn a_flac_stream_that_was_refused_is_corrupt() {
    assert_eq!(diagnose(Some(&b"fLaC".to_vec())), DecodeCause::CorruptStream);
    assert_eq!(diagnose(Some(&b"fLaC\x00\x00\x00\x22garbage".to_vec())), DecodeCause::CorruptStream);
}

#[test]
fn anything_else_has_the_wrong_format() {
    assert_eq!(diagnose(Some(&b"RIFF\x24\x08\x00\x00WAVE".to_vec())), DecodeCause::WrongFormat);
    assert_eq!(diagnose(Some(&b"ID3\x04".to_vec())), DecodeCause::WrongFormat);
    assert_eq!(diagnose(Some(&b"flac".to_vec())), DecodeCause::WrongFormat);
    assert_eq!(diagnose(Some(&b"FLAC".to_vec())), DecodeCause::WrongFormat);
    assert_eq!(diagnose(Some(&b"xfLaC".to_vec())), DecodeCause::WrongFormat);
}

#[test]
fn fewer_than_four_bytes_are_no_flac_stream() {
    assert_eq!(diagnose(Some(&Vec::new())), DecodeCause::WrongFormat);
    assert_eq!(diagnose(Some(&b"f".to_vec())), DecodeCause::WrongFormat);
    assert_eq!(diagnose(Some(&b"fLa".to_vec())), DecodeCause::WrongFormat);
}
