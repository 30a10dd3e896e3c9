use blue_music::engine::Status;
use blue_music::error::DecodeCause;
use blue_music::playlist::{Command, Policy};
use blue_music::win::{Action, Icon, Model, Msg, Win, TICK_MS};

/// Whether the window shows that nothing plays. The cover that it keeps
/// out of sight is not looked at.
fn at_rest(model: &Model) -> bool {
    model.stopped
        && !model.paused
        && model.current_time == 0
        && model.current_duration == 0
        && !model.cover_visible
        && model.play_image == Icon::Play
        && model.adjustment.value == 0
        && model.adjustment.upper == 0
}

fn filled(paths: &[&str]) -> Win {
    let mut win = Win::new();
    let files: Vec<String> = paths.iter().map(|p| p.to_string()).collect();
    assert!(win.open(files).is_empty());
    win
}

/// Answers the request that is out: the stream is open, with this cover.
fn started(win: &mut Win, cover: Option<Vec<u8>>) -> Vec<Action> {
    let stream = win.playlist().stream();
    win.update(Msg::Started(stream, cover))
}

/// Reports the length of the stream that is open.
fn duration(win: &mut Win, total: u128) -> Vec<Action> {
    let stream = win.playlist().stream();
    win.update(Msg::Duration(stream, total))
}

fn playing_window(paths: &[&str]) -> Win {
    let mut win = filled(paths);
    win.update(Msg::PlayPause);
    started(&mut win, None);
    assert!(!win.model().stopped);
    win
}

fn opens(actions: &[Action], wanted: &str) -> bool {
    matches!(actions, [Action::Run(Command::Open { path, .. })] if path == wanted)
}

fn stops_and_opens(actions: &[Action], wanted: &str) -> bool {
    matches!(
        actions,
        [Action::Run(Command::Stop), Action::Run(Command::Open { path, .. })] if path == wanted
    )
}

#[test]
fn a_new_window_is_at_rest() {
    let win = Win::new();
    assert!(at_rest(&win.model()));
    assert_eq!(win.model().cover_pixbuf, None);
    assert_eq!(win.selection(), None);
    assert!(win.playlist().is_empty());
}

#[test]
fn the_icons_have_their_theme_names() {
    assert_eq!(Icon::Play.name(), "gtk-media-play");
    assert_eq!(Icon::Pause.name(), "gtk-media-pause");
}

#[test]
fn the_timer_ticks_every_second() {
    assert_eq!(TICK_MS, 1_000);
}

#[test]
fn the_open_button_asks_for_a_folder() {
    let mut win = Win::new();
    assert!(matches!(&win.update(Msg::Open)[..], [Action::ChooseFolder]));
    assert!(at_rest(&win.model()));
}

#[test]
fn the_save_button_asks_for_a_destination() {
    let mut win = filled(&["a.flac"]);
    assert!(matches!(&win.update(Msg::Save)[..], [Action::ChooseDestination]));
}

#[test]
fn the_quit_button_quits() {
    let mut win = playing_window(&["a.flac"]);
    assert!(matches!(&win.update(Msg::Quit)[..], [Action::Quit]));
    assert!(!win.model().stopped);
}

#[test]
fn opening_flac_files_queues_them() {
    let win = filled(&["/m/a.flac", "/m/b.flac"]);
    assert_eq!(win.playlist().paths(), vec!["/m/a.flac", "/m/b.flac"]);
}

#[test]
fn opening_a_wav_file_tells_the_user_and_queues_nothing() {
    let mut win = Win::new();
    let actions = win.open(vec!["song.wav".to_string()]);
    assert!(matches!(
        &actions[..],
        [Action::ShowError(text)] if text == "Cannot open file with extension .wav"
    ));
    assert_eq!(win.playlist().len(), 0);
}

#[test]
fn opening_a_mixed_lot_tells_of_each_refusal_in_order() {
    let mut win = Win::new();
    let actions = win.open(vec![
        "a.flac".to_string(),
        "b.wav".to_string(),
        "c.mp3".to_string(),
        "d.flac".to_string(),
        "e.ogg".to_string(),
        "f".to_string(),
    ]);
    assert!(matches!(
        &actions[..],
        [Action::ShowError(first), Action::ShowError(second)]
            if first == "Cannot open file with extension .wav"
                && second == "Cannot open file with extension .ogg"
    ));
    assert_eq!(win.playlist().paths(), vec!["a.flac", "d.flac"]);
}

#[test]
fn play_on_an_empty_playlist_is_ignored_in_silence() {
    let mut win = Win::new();
    assert!(win.update(Msg::PlayPause).is_empty());
    assert!(at_rest(&win.model()));
    assert_eq!(win.playlist().status(), Status::Stopped);
}

#[test]
fn the_play_button_asks_for_the_first_track() {
    let mut win = filled(&["a.flac", "b.flac"]);
    let actions = win.update(Msg::PlayPause);
    assert!(opens(&actions, "a.flac"));
    // Nothing sounds yet.
    assert!(at_rest(&win.model()));
}

#[test]
fn a_started_track_shows_its_cover_and_the_pause_picture() {
    let mut win = filled(&["a.flac"]);
    win.update(Msg::PlayPause);
    let actions = started(&mut win, Some(vec![1, 2, 3]));
    assert!(matches!(&actions[..], [Action::Run(Command::Play(_))]));
    let model = win.model();
    assert!(!model.stopped);
    assert!(!model.paused);
    assert!(model.cover_visible);
    assert_eq!(model.cover_pixbuf, Some(vec![1, 2, 3]));
    assert_eq!(model.play_image, Icon::Pause);
    assert_eq!(model.current_time, 0);
    assert_eq!(model.current_duration, 0);
}

#[test]
fn the_duration_sets_the_total_and_the_range_of_the_slider() {
    let mut win = playing_window(&["a.flac"]);
    assert!(duration(&mut win, 200_000).is_empty());
    let model = win.model();
    assert_eq!(model.current_duration, 200_000);
    assert_eq!(model.adjustment.upper, 200_000);
    assert_eq!(model.adjustment.value, 0);
}

#[test]
fn a_tick_moves_the_time_by_a_second() {
    let mut win = playing_window(&["a.flac"]);
    duration(&mut win, 200_000);
    assert!(win.update(Msg::Tick).is_empty());
    assert!(win.update(Msg::Tick).is_empty());
    let model = win.model();
    assert_eq!(model.current_time, 2_000);
    assert_eq!(model.adjustment.value, 2_000);
    assert_eq!(model.adjustment.upper, 200_000);
}

#[test]
fn ticks_move_nothing_while_stopped_or_paused() {
    let mut win = filled(&["a.flac"]);
    win.update(Msg::Tick);
    assert!(at_rest(&win.model()));
    win.update(Msg::PlayPause);
    started(&mut win, None);
    win.update(Msg::Tick);
    win.update(Msg::PlayPause);
    win.update(Msg::Tick);
    win.update(Msg::Tick);
    assert_eq!(win.model().current_time, 1_000);
}

#[test]
fn the_play_button_pauses_what_plays() {
    let mut win = playing_window(&["a.flac"]);
    win.update(Msg::Tick);
    let actions = win.update(Msg::PlayPause);
    assert!(matches!(&actions[..], [Action::Run(Command::Pause)]));
    let model = win.model();
    assert!(model.stopped);
    assert!(model.paused);
    assert!(model.cover_visible);
    assert_eq!(model.play_image, Icon::Play);
    assert_eq!(model.current_time, 1_000);
    let actions = win.update(Msg::PlayPause);
    assert!(matches!(&actions[..], [Action::Run(Command::Play(_))]));
    let model = win.model();
    assert!(!model.stopped);
    assert!(!model.paused);
    assert_eq!(model.play_image, Icon::Pause);
    assert_eq!(model.current_time, 1_000);
}

#[test]
fn stop_puts_the_window_at_rest() {
    let mut win = playing_window(&["a.flac"]);
    duration(&mut win, 10_000);
    win.update(Msg::Tick);
    let actions = win.stop();
    assert!(matches!(&actions[..], [Action::Run(Command::Stop)]));
    assert!(at_rest(&win.model()));
    assert_eq!(win.playlist().current_index(), Some(0));
}

#[test]
fn the_stop_button_stops() {
    let mut win = playing_window(&["a.flac"]);
    let actions = win.update(Msg::Stop);
    assert!(matches!(&actions[..], [Action::Run(Command::Stop)]));
    assert!(at_rest(&win.model()));
    // And again, from rest.
    let actions = win.update(Msg::Stop);
    assert!(matches!(&actions[..], [Action::Run(Command::Stop)]));
    assert!(at_rest(&win.model()));
}

#[test]
fn a_stream_that_arrives_after_the_stop_is_dropped() {
    let mut win = filled(&["a.flac"]);
    win.update(Msg::PlayPause);
    win.update(Msg::Stop);
    assert!(started(&mut win, Some(vec![1])).is_empty());
    assert!(duration(&mut win, 1_000).is_empty());
    assert!(at_rest(&win.model()));
}

#[test]
fn ticks_past_the_end_go_on_to_the_next_track() {
    let mut win = playing_window(&["a.flac", "b.flac"]);
    duration(&mut win, 1_500);
    assert!(win.update(Msg::Tick).is_empty());
    let actions = win.update(Msg::Tick);
    assert!(stops_and_opens(&actions, "b.flac"));
    assert!(at_rest(&win.model()));
    started(&mut win, None);
    assert!(!win.model().stopped);
    assert_eq!(win.playlist().current_index(), Some(1));
}

#[test]
fn ticks_past_the_end_of_the_last_track_put_the_window_at_rest() {
    let mut win = playing_window(&["a.flac"]);
    duration(&mut win, 500);
    let actions = win.update(Msg::Tick);
    assert!(matches!(&actions[..], [Action::Run(Command::Stop)]));
    assert!(at_rest(&win.model()));
    assert!(win.update(Msg::Tick).is_empty());
}

#[test]
fn next_and_previous_move_through_the_queue() {
    let mut win = playing_window(&["a.flac", "b.flac", "c.flac"]);
    let actions = win.update(Msg::Next);
    assert!(stops_and_opens(&actions, "b.flac"));
    let actions = win.update(Msg::Previous);
    assert!(stops_and_opens(&actions, "a.flac"));
    let actions = win.update(Msg::Previous);
    assert!(stops_and_opens(&actions, "c.flac"));
}

#[test]
fn remove_takes_the_selected_row() {
    let mut win = playing_window(&["a.flac", "b.flac", "c.flac"]);
    assert!(win.update(Msg::Remove).is_empty());
    assert_eq!(win.playlist().len(), 3);
    win.select(Some(1));
    assert_eq!(win.selection(), Some(1));
    assert!(win.update(Msg::Remove).is_empty());
    assert_eq!(win.playlist().paths(), vec!["a.flac", "c.flac"]);
    assert_eq!(win.selection(), None);
    assert!(!win.model().stopped);
}

#[test]
fn removing_the_playing_track_stops_it() {
    let mut win = playing_window(&["a.flac", "b.flac"]);
    win.select(Some(0));
    let actions = win.update(Msg::Remove);
    assert!(matches!(&actions[..], [Action::Run(Command::Stop)]));
    assert!(at_rest(&win.model()));
    assert_eq!(win.playlist().paths(), vec!["b.flac"]);
    assert_eq!(win.playlist().current_index(), None);
}

#[test]
fn a_stale_selection_removes_nothing() {
    let mut win = filled(&["a.flac"]);
    win.select(Some(5));
    assert!(win.update(Msg::Remove).is_empty());
    assert_eq!(win.playlist().len(), 1);
    assert_eq!(win.selection(), None);
}

#[test]
fn save_with_a_destination_asks_for_the_file() {
    let win = filled(&["/m/a.flac", "/m/b.flac"]);
    let actions = win.save(Some("/home/me/list.m3u".to_string()));
    assert!(matches!(
        &actions[..],
        [Action::Run(Command::Write { destination, contents })]
            if destination == "/home/me/list.m3u" && contents == "/m/a.flac\n/m/b.flac\n"
    ));
}

#[test]
fn save_without_a_destination_does_nothing() {
    let win = filled(&["/m/a.flac"]);
    assert!(win.save(None).is_empty());
}

#[test]
fn a_failed_write_is_told() {
    let win = filled(&["a.flac"]);
    assert!(win.saved(true).is_empty());
    assert!(matches!(
        &win.saved(false)[..],
        [Action::ShowError(text)] if text == "Cannot write the playlist file"
    ));
    assert_eq!(win.playlist().len(), 1);
}

#[test]
fn a_corrupt_file_is_told_and_passed_over() {
    let mut win = filled(&["bad.flac", "good.flac"]);
    win.update(Msg::PlayPause);
    let stream = win.playlist().stream();
    let actions = win.failed(stream, DecodeCause::CorruptStream);
    assert!(matches!(
        &actions[..],
        [Action::Run(Command::Open { path, .. }), Action::ShowError(text)]
            if path == "good.flac" && text == "Cannot play the file: the stream is corrupt"
    ));
    assert!(at_rest(&win.model()));
    assert_eq!(win.playlist().current_index(), Some(1));
}

#[test]
fn a_corrupt_file_stalls_a_window_whose_policy_says_so() {
    let mut win = Win::with_policy(Policy { wrap_around: true, skip_on_decode_error: false });
    win.open(vec!["bad.flac".to_string(), "good.flac".to_string()]);
    win.update(Msg::PlayPause);
    let stream = win.playlist().stream();
    let actions = win.failed(stream, DecodeCause::WrongFormat);
    assert!(matches!(
        &actions[..],
        [Action::ShowError(text)] if text == "Cannot play the file: it is not a FLAC stream"
    ));
    assert!(at_rest(&win.model()));
    assert_eq!(win.playlist().current_index(), Some(0));
    assert!(!win.playlist().is_opening());
}

#[test]
fn the_window_goes_on_when_the_stream_has_run_out() {
    let mut win = playing_window(&["a.flac", "b.flac"]);
    let stream = win.playlist().stream();
    let actions = win.finished(stream);
    assert!(stops_and_opens(&actions, "b.flac"));
    assert!(win.finished(stream).is_empty());
}

#[test]
fn reports_on_a_stream_that_was_given_up_are_dropped() {
    let mut win = filled(&["a.flac", "b.flac"]);
    win.update(Msg::PlayPause);
    let first = win.playlist().stream();
    win.update(Msg::Next);
    assert!(win.update(Msg::Started(first, Some(vec![1]))).is_empty());
    assert!(win.failed(first, DecodeCause::CorruptStream).is_empty());
    assert!(at_rest(&win.model()));
    started(&mut win, Some(vec![2]));
    assert_eq!(win.model().cover_pixbuf, Some(vec![2]));
    assert!(win.update(Msg::Duration(first, 1)).is_empty());
    assert!(win.finished(first).is_empty());
    assert!(!win.model().stopped);
    assert_eq!(win.model().current_duration, 0);
}

#[test]
fn a_tick_fits_for_longer_than_anyone_listens() {
    let mut win = playing_window(&["a.flac"]);
    assert!(win.tick_fits());
    assert!(win.playlist().tick_fits(TICK_MS));
    assert!(win.playlist().tick_fits(u128::MAX));
    win.update(Msg::Tick);
    assert!(win.tick_fits());
    assert!(!win.playlist().tick_fits(u128::MAX));
}

#[test]
fn a_stop_hides_the_cover_and_keeps_it() {
    let mut win = filled(&["a.flac", "b.flac"]);
    win.update(Msg::PlayPause);
    started(&mut win, Some(vec![7]));
    duration(&mut win, 9_000);
    win.update(Msg::Tick);
    assert!(win.model().cover_visible);
    assert_eq!(win.model().cover_pixbuf, Some(vec![7]));
    win.stop();
    let model = win.model();
    assert!(at_rest(&model));
    assert!(!model.cover_visible);
    assert_eq!(model.cover_pixbuf, Some(vec![7]));
    assert_eq!(win.playlist().paths(), vec!["a.flac", "b.flac"]);
    assert_eq!(win.playlist().current_index(), Some(0));
    // The stop button does the same, and a second stop changes nothing.
    win.update(Msg::Stop);
    assert!(at_rest(&win.model()));
    assert_eq!(win.model().cover_pixbuf, Some(vec![7]));
}

#[test]
fn the_cover_stays_until_the_next_track_starts() {
    let mut win = filled(&["a.flac", "b.flac", "c.flac"]);
    win.update(Msg::PlayPause);
    started(&mut win, Some(vec![1]));
    // Going on asks for the next stream; until it is open the old cover is
    // what the model holds.
    win.update(Msg::Next);
    assert!(!win.model().cover_visible);
    assert_eq!(win.model().cover_pixbuf, Some(vec![1]));
    started(&mut win, Some(vec![2]));
    assert!(win.model().cover_visible);
    assert_eq!(win.model().cover_pixbuf, Some(vec![2]));
    // A track without cover takes the cover away.
    win.update(Msg::Next);
    started(&mut win, None);
    assert!(win.model().cover_visible);
    assert_eq!(win.model().cover_pixbuf, None);
}

#[test]
fn pausing_and_removing_leave_the_cover() {
    let mut win = filled(&["a.flac", "b.flac"]);
    win.update(Msg::PlayPause);
    started(&mut win, Some(vec![3, 4]));
    win.update(Msg::PlayPause);
    assert!(win.model().paused);
    assert_eq!(win.model().cover_pixbuf, Some(vec![3, 4]));
    win.select(Some(0));
    win.update(Msg::Remove);
    assert!(at_rest(&win.model()));
    assert_eq!(win.model().cover_pixbuf, Some(vec![3, 4]));
    assert_eq!(win.playlist().current_index(), None);
}

#[test]
fn a_report_that_is_dropped_leaves_the_cover() {
    let mut win = filled(&["a.flac", "b.flac"]);
    win.update(Msg::PlayPause);
    let first = win.playlist().stream();
    started(&mut win, Some(vec![5]));
    // The same stream reported open again, and a stream never asked for.
    assert!(win.update(Msg::Started(first, Some(vec![6]))).is_empty());
    assert!(win.update(Msg::Started(first + 10, None)).is_empty());
    assert_eq!(win.model().cover_pixbuf, Some(vec![5]));
    win.stop();
    assert!(win.update(Msg::Started(first, Some(vec![6]))).is_empty());
    assert_eq!(win.model().cover_pixbuf, Some(vec![5]));
    assert!(at_rest(&win.model()));
}
