use blue_music::m3u::{from_text, to_text};

fn strings(paths: &[&str]) -> Vec<String> {
    paths.iter().map(|p| p.to_string()).collect()
}

#[test]
fn every_path_gets_a_line() {
    assert_eq!(to_text(&strings(&["/m/a.flac", "/m/b.flac"])), "/m/a.flac\n/m/b.flac\n");
}

#[test]
fn the_empty_playlist_is_the_empty_file() {
    assert_eq!(to_text(&Vec::new()), "");
    assert!(from_text("").is_empty());
}

#[test]
fn every_line_is_a_path() {
    assert_eq!(from_text("/m/a.flac\n/m/b.flac\n"), strings(&["/m/a.flac", "/m/b.flac"]));
}

#[test]
fn the_last_line_needs_no_line_feed() {
    assert_eq!(from_text("a\nb"), strings(&["a", "b"]));
    assert_eq!(from_text("a"), strings(&["a"]));
}

#[test]
fn nothing_is_trimmed_and_nothing_skipped() {
    assert_eq!(from_text(" a \n\n#b\r\n"), strings(&[" a ", "", "#b\r"]));
    assert_eq!(from_text("\n"), strings(&[""]));
    assert_eq!(from_text("\n\n"), strings(&["", ""]));
}

#[test]
fn round_trip_keeps_number_and_order() {
    let paths = strings(&["/m/c.flac", "/m/a.flac", "/m/b.flac", "/m/a.flac", "", "ü ñ.flac"]);
    assert_eq!(from_text(&to_text(&paths)), paths);
}

#[test]
fn round_trip_of_many_paths() {
    let mut paths: Vec<String> = Vec::new();
    let mut i = 0;
    while i < 200 {
        paths.push(format!("/music/{}/{}.flac", i % 7, i));
        i += 1;
    }
    assert_eq!(from_text(&to_text(&paths)), paths);
}

#[test]
fn a_line_feed_in_a_path_breaks_the_round_trip() {
    let paths = strings(&["a\nb"]);
    assert_eq!(from_text(&to_text(&paths)), strings(&["a", "b"]));
}
