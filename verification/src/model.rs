//! The playlist as plain mathematics: its states, its steps, and what
//! holds of every run of them.

use crate::engine::{EngineState, EventView};
use crate::error::{DecodeCause, ErrorView};
use crate::files::{admission, extension_of, Admission};
use crate::m3u::{fits_on_a_line, law_round_trip, parse, serialize};
use crate::playlist::Policy;
use crate::track::{paths_of, TrackView};
use vstd::prelude::*;

verus! {

/// A [`crate::playlist::Command`] as plain mathematics.
pub enum CommandView {
    Open { stream: u64, path: Seq<char> },
    Play(u64),
    Pause,
    Stop,
    Write { destination: Seq<char>, contents: Seq<char> },
}

/// A [`crate::playlist::Reaction`] as plain mathematics.
pub struct ReactionView {
    pub commands: Seq<CommandView>,
    pub events: Seq<EventView>,
    pub error: Option<ErrorView>,
}

impl ReactionView {
    /// Nothing to do, nothing to tell.
    pub open spec fn none() -> ReactionView {
        ReactionView { commands: Seq::empty(), events: Seq::empty(), error: None }
    }

    /// Only commands.
    pub open spec fn commands(commands: Seq<CommandView>) -> ReactionView {
        ReactionView { commands, events: Seq::empty(), error: None }
    }

    /// Only a failure.
    pub open spec fn failure(error: ErrorView) -> ReactionView {
        ReactionView { commands: Seq::empty(), events: Seq::empty(), error: Some(error) }
    }
}

/// The playlist after a step, and what the step asks for.
pub struct Step {
    pub state: PlaylistState,
    pub reaction: ReactionView,
}

impl Step {
    /// `step`, with `events` told before its own.
    pub open spec fn after(events: Seq<EventView>, step: Step) -> Step {
        Step {
            state: step.state,
            reaction: ReactionView { events: events + step.reaction.events, ..step.reaction },
        }
    }
}

/// The playlist as plain mathematics, with its transitions.
pub struct PlaylistState {
    /// The queue, in play order. A path may occur more than once.
    pub tracks: Seq<TrackView>,
    /// The index of the current track, if one is selected.
    pub current: Option<int>,
    pub engine: EngineState,
    pub policy: Policy,
}

impl PlaylistState {
    /// An empty playlist with a stopped engine.
    pub open spec fn empty(policy: Policy) -> PlaylistState {
        PlaylistState { tracks: Seq::empty(), current: None, engine: EngineState::fresh(), policy }
    }

    /// What holds of every state the playlist can be in: the engine is
    /// well-formed, the current index points into the queue, and a stream is
    /// open or asked for only while a track is current.
    pub open spec fn wf(self) -> bool {
        &&& self.engine.wf()
        &&& self.current matches Some(index) ==> 0 <= index < self.tracks.len()
        &&& self.engine.active() ==> self.current is Some
    }

    /// The step that changes nothing and asks for nothing.
    pub open spec fn quiet(self) -> Step {
        Step { state: self, reaction: ReactionView::none() }
    }

    /// The queue with tracks for `paths` put behind it.
    pub open spec fn queue(self, paths: Seq<Seq<char>>) -> PlaylistState {
        PlaylistState { tracks: self.tracks + queued_tracks(paths), ..self }
    }

    pub open spec fn add(self, path: Seq<char>) -> PlaylistState {
        PlaylistState { tracks: self.tracks.push(TrackView::queued(path)), ..self }
    }

    /// Removing the current track stops the engine and leaves no track
    /// current. Removing a track before the current one moves the index
    /// down with its track. An index outside the queue removes nothing.
    pub open spec fn remove(self, index: int) -> Step {
        if !(0 <= index < self.tracks.len()) {
            self.quiet()
        } else if self.current == Some(index) {
            Step {
                state: PlaylistState {
                    tracks: self.tracks.remove(index),
                    current: None,
                    engine: self.engine.stop(),
                    ..self
                },
                reaction: ReactionView::commands(seq![CommandView::Stop]),
            }
        } else {
            Step {
                state: PlaylistState {
                    tracks: self.tracks.remove(index),
                    current: match self.current {
                        Some(current) => if index < current {
                            Some(current - 1)
                        } else {
                            Some(current)
                        },
                        None => None,
                    },
                    ..self
                },
                reaction: ReactionView::none(),
            }
        }
    }

    /// Makes the track at `index` the current one and asks for its stream,
    /// after stopping whatever was playing.
    pub open spec fn select(self, index: int) -> Step {
        Step {
            state: PlaylistState {
                current: Some(index),
                engine: self.engine.stop().start(),
                ..self
            },
            reaction: ReactionView::commands(
                seq![
                    CommandView::Stop,
                    CommandView::Open {
                        stream: self.engine.stop().start().stream,
                        path: self.tracks[index].path,
                    },
                ],
            ),
        }
    }

    /// With an empty queue: the benign failure `EmptyPlaylist`. Paused: the
    /// stream goes on. Stopped: the current track, or the first if none is
    /// current, is asked for. Playing, or waiting for a stream: nothing.
    pub open spec fn play(self) -> Step {
        if self.tracks.len() == 0 {
            Step { state: self, reaction: ReactionView::failure(ErrorView::EmptyPlaylist) }
        } else if self.engine.status is Paused {
            Step {
                state: PlaylistState { engine: self.engine.resume(), ..self },
                reaction: ReactionView::commands(seq![CommandView::Play(self.engine.stream)]),
            }
        } else if self.engine.starts() {
            let index = match self.current {
                Some(current) => current,
                None => 0,
            };
            Step {
                state: PlaylistState {
                    current: Some(index),
                    engine: self.engine.start(),
                    ..self
                },
                reaction: ReactionView::commands(
                    seq![
                        CommandView::Open {
                            stream: self.engine.start().stream,
                            path: self.tracks[index].path,
                        },
                    ],
                ),
            }
        } else {
            self.quiet()
        }
    }

    pub open spec fn pause(self) -> Step {
        if self.engine.status is Playing {
            Step {
                state: PlaylistState { engine: self.engine.pause(), ..self },
                reaction: ReactionView::commands(seq![CommandView::Pause]),
            }
        } else {
            self.quiet()
        }
    }

    pub open spec fn stop(self) -> Step {
        Step {
            state: PlaylistState { engine: self.engine.stop(), ..self },
            reaction: ReactionView::commands(seq![CommandView::Stop]),
        }
    }

    /// The one button for both: pause what plays, play otherwise.
    pub open spec fn play_pause(self) -> Step {
        if self.engine.status is Playing {
            self.pause()
        } else {
            self.play()
        }
    }

    /// The track that `next` goes to: the one after the current, the first
    /// if none is current, and at the end of the queue the first again if
    /// the policy wraps around. `None` where `next` stays put.
    pub open spec fn next_index(self) -> Option<int> {
        if self.tracks.len() == 0 {
            None
        } else {
            match self.current {
                None => Some(0),
                Some(current) => if current + 1 < self.tracks.len() {
                    Some(current + 1)
                } else if self.policy.wrap_around {
                    Some(0)
                } else {
                    None
                },
            }
        }
    }

    /// The track that `previous` goes to, as [`Self::next_index`] in the
    /// other direction.
    pub open spec fn previous_index(self) -> Option<int> {
        if self.tracks.len() == 0 {
            None
        } else {
            match self.current {
                None => if self.policy.wrap_around {
                    Some(self.tracks.len() - 1)
                } else {
                    Some(0)
                },
                Some(current) => if current > 0 {
                    Some(current - 1)
                } else if self.policy.wrap_around {
                    Some(self.tracks.len() - 1)
                } else {
                    None
                },
            }
        }
    }

    pub open spec fn next(self) -> Step {
        match self.next_index() {
            Some(index) => self.select(index),
            None => self.quiet(),
        }
    }

    pub open spec fn previous(self) -> Step {
        match self.previous_index() {
            Some(index) => self.select(index),
            None => self.quiet(),
        }
    }

    /// After the end of a track: on to the one after it; after the last
    /// track, or with none current, a stop. The end of the queue is never
    /// wrapped around, whatever the policy says of `next`.
    pub open spec fn on_finished(self) -> Step {
        match self.current {
            Some(current) => if current + 1 < self.tracks.len() {
                self.select(current + 1)
            } else {
                self.stop()
            },
            None => self.stop(),
        }
    }

    /// The queue with `cover` noted for the track at `index`.
    pub open spec fn with_cover(self, index: int, cover: Option<Seq<u8>>) -> Seq<TrackView> {
        self.tracks.update(index, TrackView { cover, ..self.tracks[index] })
    }

    /// The queue with a length of `total` noted for the track at `index`.
    pub open spec fn with_duration(self, index: int, total: nat) -> Seq<TrackView> {
        self.tracks.update(index, TrackView { duration: Some(total), ..self.tracks[index] })
    }

    /// The shell's answer to `Open`. It counts only while the engine waits
    /// for that very stream. A stream that is open plays: its cover is
    /// noted with the current track and told to the window. A stream that
    /// could not be opened is a `DecodeError`; if the policy says so and a
    /// track follows, that one becomes current and is asked for.
    pub open spec fn opened(
        self,
        stream: u64,
        outcome: Result<Option<Seq<u8>>, DecodeCause>,
    ) -> Step {
        match self.current {
            Some(current) => if !self.engine.awaits(stream) {
                self.quiet()
            } else {
                match outcome {
                    Ok(cover) => Step {
                        state: PlaylistState {
                            tracks: self.with_cover(current, cover),
                            engine: self.engine.opened(stream, true),
                            ..self
                        },
                        reaction: ReactionView {
                            commands: seq![CommandView::Play(stream)],
                            events: seq![EventView::Started(cover)],
                            error: None,
                        },
                    },
                    Err(cause) => if self.policy.skip_on_decode_error && current + 1
                        < self.tracks.len() {
                        Step {
                            state: PlaylistState {
                                current: Some(current + 1),
                                engine: self.engine.opened(stream, false).start(),
                                ..self
                            },
                            reaction: ReactionView {
                                commands: seq![
                                    CommandView::Open {
                                        stream: self.engine.opened(stream, false).start().stream,
                                        path: self.tracks[current + 1].path,
                                    },
                                ],
                                events: Seq::empty(),
                                error: Some(ErrorView::DecodeError(cause)),
                            },
                        }
                    } else {
                        Step {
                            state: PlaylistState {
                                engine: self.engine.opened(stream, false),
                                ..self
                            },
                            reaction: ReactionView::failure(ErrorView::DecodeError(cause)),
                        }
                    },
                }
            },
            None => self.quiet(),
        }
    }

    /// The shell's report of the length of a stream. The engine takes it
    /// once, for the stream that is open; then it is noted with the current
    /// track and told to the window. If more than that has been played
    /// already, the track has ended: `Finished` follows, and what follows
    /// the end of a track.
    pub open spec fn duration_known(self, stream: u64, total: nat) -> Step {
        match self.current {
            Some(current) => if !self.engine.takes_duration(stream) {
                self.quiet()
            } else {
                let noted = PlaylistState {
                    tracks: self.with_duration(current, total),
                    engine: self.engine.duration_known(stream, total),
                    ..self
                };
                if self.engine.outlasts(stream, total) {
                    Step::after(
                        seq![EventView::DurationKnown(total), EventView::Finished],
                        noted.on_finished(),
                    )
                } else {
                    Step {
                        state: noted,
                        reaction: ReactionView {
                            commands: Seq::empty(),
                            events: seq![EventView::DurationKnown(total)],
                            error: None,
                        },
                    }
                }
            },
            None => self.quiet(),
        }
    }

    /// `delta` milliseconds pass. If that ends the track, `Finished` is
    /// told, and what follows the end of a track happens.
    pub open spec fn tick(self, delta: nat) -> Step {
        if self.engine.tick_finishes(delta) {
            Step::after(seq![EventView::Finished], self.on_finished())
        } else {
            Step {
                state: PlaylistState { engine: self.engine.tick(delta), ..self },
                reaction: ReactionView::none(),
            }
        }
    }

    /// The shell's report that a stream has run out: if it is the stream
    /// that is open, `Finished` is told, and what follows the end of a track
    /// happens.
    pub open spec fn completed(self, stream: u64) -> Step {
        if self.engine.holds(stream) {
            Step::after(seq![EventView::Finished], self.on_finished())
        } else {
            self.quiet()
        }
    }

    /// A file opened by name: a FLAC file is queued, a file that the player
    /// passes over changes nothing, and any other is refused with its
    /// extension, the queue unchanged.
    pub open spec fn open(self, path: Seq<char>) -> Step {
        match admission(path) {
            Admission::Queue => Step { state: self.add(path), reaction: ReactionView::none() },
            Admission::Skip => self.quiet(),
            Admission::Refuse => Step {
                state: self,
                reaction: ReactionView::failure(
                    ErrorView::UnsupportedExtension(extension_of(path)->0),
                ),
            },
        }
    }

    /// The text of the playlist file for this queue.
    pub open spec fn file_text(self) -> Seq<char> {
        serialize(paths_of(self.tracks))
    }

    /// The request to write the playlist file to `destination`. The queue
    /// is not touched.
    pub open spec fn save(self, destination: Seq<char>) -> Step {
        Step {
            state: self,
            reaction: ReactionView::commands(
                seq![CommandView::Write { destination, contents: self.file_text() }],
            ),
        }
    }

    /// The shell's report on a `Write`: a file that could not be written is
    /// an `IoError`. The queue is not touched either way.
    pub open spec fn saved(self, written: bool) -> Step {
        if written {
            self.quiet()
        } else {
            Step { state: self, reaction: ReactionView::failure(ErrorView::IoError) }
        }
    }
}

/// Tracks for `paths` as they are when queued, in order.
pub open spec fn queued_tracks(paths: Seq<Seq<char>>) -> Seq<TrackView> {
    Seq::new(paths.len(), |i: int| TrackView::queued(paths[i]))
}

/// Anything that can be done to a playlist or reported to it.
pub enum Input {
    Add(Seq<char>),
    Open(Seq<char>),
    Queue(Seq<Seq<char>>),
    Remove(int),
    Play,
    Pause,
    Stop,
    PlayPause,
    Next,
    Previous,
    OnFinished,
    Opened(u64, Result<Option<Seq<u8>>, DecodeCause>),
    DurationKnown(u64, nat),
    Tick(nat),
    Completed(u64),
}

impl PlaylistState {
    /// The playlist after `input`.
    pub open spec fn apply(self, input: Input) -> PlaylistState {
        match input {
            Input::Add(path) => self.add(path),
            Input::Open(path) => self.open(path).state,
            Input::Queue(paths) => self.queue(paths),
            Input::Remove(index) => self.remove(index).state,
            Input::Play => self.play().state,
            Input::Pause => self.pause().state,
            Input::Stop => self.stop().state,
            Input::PlayPause => self.play_pause().state,
            Input::Next => self.next().state,
            Input::Previous => self.previous().state,
            Input::OnFinished => self.on_finished().state,
            Input::Opened(stream, outcome) => self.opened(stream, outcome).state,
            Input::DurationKnown(stream, total) => self.duration_known(stream, total).state,
            Input::Tick(delta) => self.tick(delta).state,
            Input::Completed(stream) => self.completed(stream).state,
        }
    }

    /// The playlist after all of `inputs`, in order.
    pub open spec fn run(self, inputs: Seq<Input>) -> PlaylistState
        decreases inputs.len(),
    {
        if inputs.len() == 0 {
            self
        } else {
            self.run(inputs.drop_last()).apply(inputs.last())
        }
    }
}

/// No single step takes a well-formed playlist out of the well-formed ones.
pub proof fn lemma_apply_wf(state: PlaylistState, input: Input)
    requires
        state.wf(),
    ensures
        state.apply(input).wf(),
{
}

/// The current index is always absent or valid.
///
/// Whatever is done to a playlist and in whatever order (tracks added and
/// removed, next and previous, playing and stopping, reports from the
/// shell), the current index is either absent or points into the queue,
/// and the playlist stays well-formed. This holds of every playlist that
/// starts out well-formed, so of every one that starts out empty.
pub proof fn law_current_index_valid(state: PlaylistState, policy: Policy, inputs: Seq<Input>)
    ensures
        state.wf() ==> state.run(inputs).wf(),
        state.wf() ==> (state.run(inputs).current matches Some(index) ==> 0 <= index
            < state.run(inputs).tracks.len()),
        PlaylistState::empty(policy).run(inputs).wf(),
    decreases inputs.len(),
{
    if inputs.len() > 0 {
        law_current_index_valid(state, policy, inputs.drop_last());
        if state.wf() {
            lemma_apply_wf(state.run(inputs.drop_last()), inputs.last());
        }
        lemma_apply_wf(PlaylistState::empty(policy).run(inputs.drop_last()), inputs.last());
    }
}

/// Adding and removing keep the queue in order.
///
/// A track that is added comes last, with nothing known but its path, and
/// those before it are untouched; a path may be queued twice. Removing a
/// track closes the gap and moves nothing else, and the track that was
/// current is still the current one unless it is the one that went.
pub proof fn law_queue_order(state: PlaylistState, path: Seq<char>, index: int)
    requires
        state.wf(),
    ensures
        state.add(path).tracks.len() == state.tracks.len() + 1,
        state.add(path).tracks.last() == TrackView::queued(path),
        state.add(path).tracks.drop_last() == state.tracks,
        state.add(path).current == state.current,
        0 <= index < state.tracks.len() ==> state.remove(index).state.tracks
            == state.tracks.remove(index),
        0 <= index < state.tracks.len() ==> match state.current {
            Some(current) => if current == index {
                state.remove(index).state.current is None && state.remove(
                    index,
                ).state.engine.status is Stopped
            } else {
                state.remove(index).state.current matches Some(moved)
                    && state.remove(index).state.tracks[moved] == state.tracks[current]
            },
            None => state.remove(index).state.current is None,
        },
        !(0 <= index < state.tracks.len()) ==> state.remove(index).state == state,
{
    assert(state.add(path).tracks.drop_last() =~= state.tracks);
}

/// A saved playlist loads as it was.
///
/// If no path of the queue holds a line feed, loading the file that `save`
/// asks for into an empty playlist queues tracks with the same paths, as
/// many and in the same order.
pub proof fn law_save_then_load(state: PlaylistState, policy: Policy)
    requires
        forall|i: int| 0 <= i < state.tracks.len() ==> fits_on_a_line(#[trigger] state.tracks[i].path),
    ensures
        paths_of(PlaylistState::empty(policy).queue(parse(state.file_text())).tracks) == paths_of(
            state.tracks,
        ),
{
    let paths = paths_of(state.tracks);
    assert forall|i: int| 0 <= i < paths.len() implies fits_on_a_line(#[trigger] paths[i]) by {
        assert(paths[i] == state.tracks[i].path);
    }
    law_round_trip(paths);
    assert(paths_of(PlaylistState::empty(policy).queue(paths).tracks) =~= paths);
}

/// The path of a track never changes.
///
/// Whatever is done to a playlist other than removing a track, the tracks
/// that are queued keep their places and their paths, and new tracks come
/// behind them. Removing a track takes out its path and no other.
pub proof fn law_paths_stay(state: PlaylistState, input: Input)
    requires
        state.wf(),
    ensures
        !(input is Remove) ==> state.tracks.len() <= state.apply(input).tracks.len(),
        !(input is Remove) ==> paths_of(state.apply(input).tracks).take(
            state.tracks.len() as int,
        ) == paths_of(state.tracks),
        input matches Input::Remove(index) ==> paths_of(state.apply(input).tracks) == if 0
            <= index < state.tracks.len() {
            paths_of(state.tracks).remove(index)
        } else {
            paths_of(state.tracks)
        },
{
    let after = state.apply(input);
    match input {
        Input::Remove(index) => {
            if 0 <= index < state.tracks.len() {
                assert(paths_of(after.tracks) =~= paths_of(state.tracks).remove(index));
            }
        },
        _ => {
            assert(state.tracks.len() <= after.tracks.len());
            assert(paths_of(after.tracks).take(state.tracks.len() as int) =~= paths_of(
                state.tracks,
            ));
        },
    }
}

} // verus!
