//! The playlist: the queue of tracks, which of them is current, and the
//! engine that plays it.
//!
//! Every intent and every report from the shell goes through the playlist.
//! It answers with a [`Reaction`]: what the shell has to do now, what the
//! window has to be told, and the failure, if there was one. What each
//! step does is defined on [`PlaylistState`].

use crate::engine::{events_view, Event, EventView, PlaybackEngine, Status};
use crate::error::{DecodeCause, PlayerError};
use crate::files::{classify, extension, flac_only, select_flac, strings_view, Admission};
use crate::m3u::{from_text, parse, to_text};
use crate::model::{queued_tracks, CommandView, PlaylistState, ReactionView};
use crate::track::{bytes_view, copy_cover, paths_of, tracks_view, Track, TrackView};
use vstd::prelude::*;

verus! {

/// The two choices that the playlist leaves to its owner.
#[derive(Clone, Copy, Debug, PartialEq, Eq, Structural)]
pub struct Policy {
    /// Whether `next` at the last track goes to the first, and `previous` at
    /// the first to the last. Without it both stay where they are.
    pub wrap_around: bool,
    /// Whether a track that cannot be decoded is passed over for the one
    /// after it. Without it the playlist stays stopped on the failing track.
    pub skip_on_decode_error: bool,
}

impl Policy {
    /// The policy of a playlist that was given none: `next` and `previous`
    /// wrap around, and a track that cannot be decoded is passed over.
    pub open spec fn standard() -> Policy {
        Policy { wrap_around: true, skip_on_decode_error: true }
    }
}

impl Default for Policy {
    fn default() -> (policy: Policy)
        ensures
            policy == Policy::standard(),
    {
        Policy { wrap_around: true, skip_on_decode_error: true }
    }
}

/// Something that the shell has to do for the playlist.
#[derive(Debug)]
pub enum Command {
    /// Open the file at `path` as the stream with this number, and report
    /// what came of it under that number.
    Open { stream: u64, path: String },
    /// Let the stream with this number sound: from its start if it has not
    /// sounded yet, on from where it was suspended otherwise.
    Play(u64),
    /// Suspend the open stream.
    Pause,
    /// Release the stream, and give up on one that is being opened.
    Stop,
    /// Write a playlist file, and report whether that worked.
    Write { destination: String, contents: String },
}

impl View for Command {
    type V = CommandView;

    open spec fn view(&self) -> CommandView {
        match self {
            Command::Open { stream, path } => CommandView::Open { stream: *stream, path: path@ },
            Command::Play(stream) => CommandView::Play(*stream),
            Command::Pause => CommandView::Pause,
            Command::Stop => CommandView::Stop,
            Command::Write { destination, contents } => CommandView::Write {
                destination: destination@,
                contents: contents@,
            },
        }
    }
}

/// The views of `commands`, in order.
pub open spec fn commands_view(commands: Seq<Command>) -> Seq<CommandView> {
    Seq::new(commands.len(), |i: int| commands[i]@)
}

/// What one step of the playlist asks of the world around it.
#[derive(Debug)]
pub struct Reaction {
    /// What the shell has to do, in this order.
    pub commands: Vec<Command>,
    /// What the window has to be told, in this order.
    pub events: Vec<Event>,
    /// The failure that this step met, if any. The step is complete all the
    /// same: the state is consistent and the commands stand.
    pub error: Option<PlayerError>,
}

impl View for Reaction {
    type V = ReactionView;

    open spec fn view(&self) -> ReactionView {
        ReactionView {
            commands: commands_view(self.commands@),
            events: events_view(self.events@),
            error: match self.error {
                Some(error) => Some(error@),
                None => None,
            },
        }
    }
}

/// What the decoder found when it opened a stream: the cover image, if the
/// stream holds one, or why the stream could not be opened.
pub open spec fn outcome_view(outcome: Result<Option<Vec<u8>>, DecodeCause>) -> Result<
    Option<Seq<u8>>,
    DecodeCause,
> {
    match outcome {
        Ok(cover) => Ok(bytes_view(cover)),
        Err(cause) => Err(cause),
    }
}

fn no_reaction() -> (reaction: Reaction)
    ensures
        reaction@ == ReactionView::none(),
{
    let reaction = Reaction { commands: Vec::new(), events: Vec::new(), error: None };
    assert(reaction@.commands =~= Seq::empty());
    assert(reaction@.events =~= Seq::empty());
    reaction
}

fn failure(error: PlayerError) -> (reaction: Reaction)
    ensures
        reaction@ == ReactionView::failure(error@),
{
    let reaction = Reaction { commands: Vec::new(), events: Vec::new(), error: Some(error) };
    assert(reaction@.commands =~= Seq::empty());
    assert(reaction@.events =~= Seq::empty());
    reaction
}

fn command(first: Command) -> (reaction: Reaction)
    ensures
        reaction@ == ReactionView::commands(seq![first@]),
{
    let mut commands: Vec<Command> = Vec::new();
    commands.push(first);
    let reaction = Reaction { commands, events: Vec::new(), error: None };
    assert(reaction@.commands =~= seq![first@]);
    assert(reaction@.events =~= Seq::empty());
    reaction
}

/// Puts `event` before the events of `reaction`.
fn tell_first(event: Event, reaction: Reaction) -> (told: Reaction)
    ensures
        told@ == (ReactionView { events: seq![event@] + reaction@.events, ..reaction@ }),
{
    let Reaction { commands, events, error } = reaction;
    let mut events = events;
    events.insert(0, event);
    let told = Reaction { commands, events, error };
    assert(told@.events =~= seq![event@] + reaction@.events);
    told
}

/// Puts `events` before the events of `reaction`.
fn tell_before(events: Vec<Event>, reaction: Reaction) -> (told: Reaction)
    ensures
        told@ == (ReactionView { events: events_view(events@) + reaction@.events, ..reaction@ }),
{
    let ghost first = events_view(events@);
    let Reaction { commands, events: later, error } = reaction;
    let mut events = events;
    let mut later = later;
    events.append(&mut later);
    let told = Reaction { commands, events, error };
    assert(told@.events =~= first + reaction@.events);
    told
}

/// The queue, the current index and the engine, held to their invariant by
/// [`Playlist`] around them.
struct Parts {
    tracks: Vec<Track>,
    current: Option<usize>,
    engine: PlaybackEngine,
    policy: Policy,
}

impl Parts {
    spec fn view(&self) -> PlaylistState {
        PlaylistState {
            tracks: tracks_view(self.tracks@),
            current: match self.current {
                Some(index) => Some(index as int),
                None => None,
            },
            engine: self.engine@,
            policy: self.policy,
        }
    }

    fn new(policy: Policy) -> (parts: Parts)
        ensures
            parts@ == PlaylistState::empty(policy),
            parts@.wf(),
    {
        let parts = Parts {
            tracks: Vec::new(),
            current: None,
            engine: PlaybackEngine::new(),
            policy,
        };
        assert(parts@.tracks =~= Seq::empty());
        parts
    }

    fn add(&mut self, path: String)
        requires
            old(self)@.wf(),
        ensures
            final(self)@ == old(self)@.add(path@),
            final(self)@.wf(),
    {
        self.tracks.push(Track::new(path));
        assert(self@.tracks =~= old(self)@.tracks.push(TrackView::queued(path@)));
    }

    fn remove(&mut self, index: usize) -> (reaction: Reaction)
        requires
            old(self)@.wf(),
        ensures
            final(self)@ == old(self)@.remove(index as int).state,
            reaction@ == old(self)@.remove(index as int).reaction,
            final(self)@.wf(),
    {
        if index >= self.tracks.len() {
            return no_reaction();
        }
        self.tracks.remove(index);
        assert(self@.tracks =~= old(self)@.tracks.remove(index as int));
        match self.current {
            Some(current) => {
                if current == index {
                    self.engine.stop();
                    self.current = None;
                    command(Command::Stop)
                } else {
                    if index < current {
                        self.current = Some(current - 1);
                    }
                    no_reaction()
                }
            },
            None => no_reaction(),
        }
    }

    fn select(&mut self, index: usize) -> (reaction: Reaction)
        requires
            old(self)@.wf(),
            index < old(self)@.tracks.len(),
        ensures
            final(self)@ == old(self)@.select(index as int).state,
            reaction@ == old(self)@.select(index as int).reaction,
            final(self)@.wf(),
    {
        self.engine.stop();
        self.engine.start();
        self.current = Some(index);
        let mut commands: Vec<Command> = Vec::new();
        commands.push(Command::Stop);
        commands.push(
            Command::Open { stream: self.engine.stream(), path: self.tracks[index].path.clone() },
        );
        let reaction = Reaction { commands, events: Vec::new(), error: None };
        assert(reaction@.commands =~= seq![
            CommandView::Stop,
            CommandView::Open {
                stream: old(self)@.engine.stop().start().stream,
                path: old(self)@.tracks[index as int].path,
            },
        ]);
        assert(reaction@.events =~= Seq::empty());
        reaction
    }

    fn play(&mut self) -> (reaction: Reaction)
        requires
            old(self)@.wf(),
        ensures
            final(self)@ == old(self)@.play().state,
            reaction@ == old(self)@.play().reaction,
            final(self)@.wf(),
    {
        if self.tracks.len() == 0 {
            return failure(PlayerError::EmptyPlaylist);
        }
        if self.engine.resume() {
            return command(Command::Play(self.engine.stream()));
        }
        match self.engine.start() {
            Some(stream) => {
                let index: usize = match self.current {
                    Some(current) => current,
                    None => 0,
                };
                self.current = Some(index);
                command(Command::Open { stream, path: self.tracks[index].path.clone() })
            },
            None => no_reaction(),
        }
    }

    fn pause(&mut self) -> (reaction: Reaction)
        requires
            old(self)@.wf(),
        ensures
            final(self)@ == old(self)@.pause().state,
            reaction@ == old(self)@.pause().reaction,
            final(self)@.wf(),
    {
        if self.engine.pause() {
            command(Command::Pause)
        } else {
            no_reaction()
        }
    }

    fn stop(&mut self) -> (reaction: Reaction)
        requires
            old(self)@.wf(),
        ensures
            final(self)@ == old(self)@.stop().state,
            reaction@ == old(self)@.stop().reaction,
            final(self)@.wf(),
    {
        self.engine.stop();
        command(Command::Stop)
    }

    fn next_index(&self) -> (index: Option<usize>)
        requires
            self@.wf(),
        ensures
            match index {
                Some(i) => self@.next_index() == Some(i as int) && i < self@.tracks.len(),
                None => self@.next_index() is None,
            },
    {
        if self.tracks.len() == 0 {
            return None;
        }
        match self.current {
            None => Some(0),
            Some(current) => {
                if current + 1 < self.tracks.len() {
                    Some(current + 1)
                } else if self.policy.wrap_around {
                    Some(0)
                } else {
                    None
                }
            },
        }
    }

    fn previous_index(&self) -> (index: Option<usize>)
        requires
            self@.wf(),
        ensures
            match index {
                Some(i) => self@.previous_index() == Some(i as int) && i < self@.tracks.len(),
                None => self@.previous_index() is None,
            },
    {
        if self.tracks.len() == 0 {
            return None;
        }
        match self.current {
            None => {
                if self.policy.wrap_around {
                    Some(self.tracks.len() - 1)
                } else {
                    Some(0)
                }
            },
            Some(current) => {
                if current > 0 {
                    Some(current - 1)
                } else if self.policy.wrap_around {
                    Some(self.tracks.len() - 1)
                } else {
                    None
                }
            },
        }
    }

    fn on_finished(&mut self) -> (reaction: Reaction)
        requires
            old(self)@.wf(),
        ensures
            final(self)@ == old(self)@.on_finished().state,
            reaction@ == old(self)@.on_finished().reaction,
            final(self)@.wf(),
    {
        match self.current {
            Some(current) => {
                let len = self.tracks.len();
                assert(current < self@.tracks.len() == len);
                if current + 1 < len {
                    self.select(current + 1)
                } else {
                    self.stop()
                }
            },
            None => self.stop(),
        }
    }

    fn opened(&mut self, stream: u64, outcome: Result<Option<Vec<u8>>, DecodeCause>) -> (reaction:
        Reaction)
        requires
            old(self)@.wf(),
        ensures
            final(self)@ == old(self)@.opened(stream, outcome_view(outcome)).state,
            reaction@ == old(self)@.opened(stream, outcome_view(outcome)).reaction,
            final(self)@.wf(),
    {
        let current: usize = match self.current {
            Some(current) => current,
            None => {
                return no_reaction();
            },
        };
        if !self.engine.is_opening() || self.engine.stream() != stream {
            return no_reaction();
        }
        let len = self.tracks.len();
        assert(current < self@.tracks.len() == len);
        match outcome {
            Ok(cover) => {
                let kept = copy_cover(&cover);
                let started = self.engine.opened(stream, Ok(cover));
                note_cover(&mut self.tracks, current, kept);
                let mut commands: Vec<Command> = Vec::new();
                commands.push(Command::Play(stream));
                let mut events: Vec<Event> = Vec::new();
                match started {
                    Ok(Some(event)) => {
                        events.push(event);
                    },
                    _ => {},
                }
                let reaction = Reaction { commands, events, error: None };
                assert(reaction@.commands =~= seq![CommandView::Play(stream)]);
                assert(reaction@.events =~= seq![EventView::Started(bytes_view(cover))]);
                reaction
            },
            Err(cause) => {
                let _ = self.engine.opened(stream, Err(cause));
                let error = PlayerError::DecodeError(cause);
                if self.policy.skip_on_decode_error && current + 1 < len {
                    self.engine.start();
                    self.current = Some(current + 1);
                    let mut commands: Vec<Command> = Vec::new();
                    commands.push(
                        Command::Open {
                            stream: self.engine.stream(),
                            path: self.tracks[current + 1].path.clone(),
                        },
                    );
                    let reaction = Reaction { commands, events: Vec::new(), error: Some(error) };
                    assert(reaction@.commands =~= seq![
                        CommandView::Open {
                            stream: old(self)@.engine.opened(stream, false).start().stream,
                            path: old(self)@.tracks[current + 1].path,
                        },
                    ]);
                    assert(reaction@.events =~= Seq::empty());
                    reaction
                } else {
                    failure(error)
                }
            },
        }
    }

    fn duration_known(&mut self, stream: u64, total: u128) -> (reaction: Reaction)
        requires
            old(self)@.wf(),
        ensures
            final(self)@ == old(self)@.duration_known(stream, total as nat).state,
            reaction@ == old(self)@.duration_known(stream, total as nat).reaction,
            final(self)@.wf(),
    {
        let current: usize = match self.current {
            Some(current) => current,
            None => {
                return no_reaction();
            },
        };
        if self.engine.status() == Status::Stopped || self.engine.stream() != stream
            || self.engine.total().is_some() {
            return no_reaction();
        }
        assert(current < self@.tracks.len() == self.tracks@.len());
        let outlasted = self.engine.elapsed() > total;
        let events = self.engine.duration_known(stream, total);
        note_duration(&mut self.tracks, current, total);
        if outlasted {
            let reaction = self.on_finished();
            tell_before(events, reaction)
        } else {
            let reaction = Reaction { commands: Vec::new(), events, error: None };
            assert(reaction@.commands =~= Seq::empty());
            reaction
        }
    }

    fn tick(&mut self, delta_ms: u128) -> (reaction: Reaction)
        requires
            old(self)@.wf(),
            old(self)@.engine.tick_fits(delta_ms as nat),
        ensures
            final(self)@ == old(self)@.tick(delta_ms as nat).state,
            reaction@ == old(self)@.tick(delta_ms as nat).reaction,
            final(self)@.wf(),
    {
        match self.engine.tick(delta_ms) {
            Some(finished) => {
                let reaction = self.on_finished();
                tell_first(finished, reaction)
            },
            None => no_reaction(),
        }
    }

    fn completed(&mut self, stream: u64) -> (reaction: Reaction)
        requires
            old(self)@.wf(),
        ensures
            final(self)@ == old(self)@.completed(stream).state,
            reaction@ == old(self)@.completed(stream).reaction,
            final(self)@.wf(),
    {
        match self.engine.completed(stream) {
            Some(finished) => {
                let reaction = self.on_finished();
                tell_first(finished, reaction)
            },
            None => no_reaction(),
        }
    }

    fn play_pause(&mut self) -> (reaction: Reaction)
        requires
            old(self)@.wf(),
        ensures
            final(self)@ == old(self)@.play_pause().state,
            reaction@ == old(self)@.play_pause().reaction,
            final(self)@.wf(),
    {
        if self.engine.status() == Status::Playing {
            self.pause()
        } else {
            self.play()
        }
    }

    fn next(&mut self) -> (reaction: Reaction)
        requires
            old(self)@.wf(),
        ensures
            final(self)@ == old(self)@.next().state,
            reaction@ == old(self)@.next().reaction,
            final(self)@.wf(),
    {
        match self.next_index() {
            Some(index) => self.select(index),
            None => no_reaction(),
        }
    }

    fn previous(&mut self) -> (reaction: Reaction)
        requires
            old(self)@.wf(),
        ensures
            final(self)@ == old(self)@.previous().state,
            reaction@ == old(self)@.previous().reaction,
            final(self)@.wf(),
    {
        match self.previous_index() {
            Some(index) => self.select(index),
            None => no_reaction(),
        }
    }

    fn open(&mut self, path: String) -> (reaction: Reaction)
        requires
            old(self)@.wf(),
        ensures
            final(self)@ == old(self)@.open(path@).state,
            reaction@ == old(self)@.open(path@).reaction,
            final(self)@.wf(),
    {
        match classify(path.as_str()) {
            Admission::Queue => {
                self.add(path);
                no_reaction()
            },
            Admission::Skip => no_reaction(),
            Admission::Refuse => {
                match extension(path.as_str()) {
                    Some(found) => failure(PlayerError::UnsupportedExtension(found)),
                    None => no_reaction(),
                }
            },
        }
    }

    fn queue(&mut self, paths: Vec<String>)
        requires
            old(self)@.wf(),
        ensures
            final(self)@ == old(self)@.queue(strings_view(paths@)),
            final(self)@.wf(),
    {
        let ghost all = strings_view(paths@);
        assert(self@.tracks =~= old(self)@.tracks + queued_tracks(all.take(0)));
        for path in it: paths
            invariant
                all == strings_view(it.seq()),
                self@ == old(self)@.queue(all.take(it.index())),
                self@.wf(),
        {
            self.add(path);
            assert(self@.tracks =~= old(self)@.tracks + queued_tracks(all.take(it.index() + 1)));
        }
        assert(all.take(all.len() as int) == all);
    }

    fn paths(&self) -> (paths: Vec<String>)
        ensures
            strings_view(paths@) == paths_of(self@.tracks),
    {
        let mut paths: Vec<String> = Vec::new();
        let mut i: usize = 0;
        while i < self.tracks.len()
            invariant
                i <= self.tracks.len(),
                strings_view(paths@) == paths_of(self@.tracks).take(i as int),
            decreases self.tracks.len() - i,
        {
            let ghost before = strings_view(paths@);
            paths.push(self.tracks[i].path.clone());
            assert(strings_view(paths@) =~= before.push(self.tracks@[i as int].path@));
            assert(paths_of(self@.tracks)[i as int] == self.tracks@[i as int].path@);
            assert(strings_view(paths@) =~= paths_of(self@.tracks).take(i + 1));
            i += 1;
        }
        assert(paths_of(self@.tracks).take(i as int) == paths_of(self@.tracks));
        paths
    }

    fn save(&self, destination: String) -> (reaction: Reaction)
        ensures
            reaction@ == self@.save(destination@).reaction,
    {
        let contents = to_text(&self.paths());
        command(Command::Write { destination, contents })
    }
}

/// Notes `cover` with the track at `index`.
fn note_cover(tracks: &mut Vec<Track>, index: usize, cover: Option<Vec<u8>>)
    requires
        index < old(tracks).len(),
    ensures
        tracks_view(final(tracks)@) == tracks_view(old(tracks)@).update(
            index as int,
            TrackView { cover: bytes_view(cover), ..old(tracks)@[index as int]@ },
        ),
{
    tracks[index].cover = cover;
    assert(tracks_view(final(tracks)@) =~= tracks_view(old(tracks)@).update(
        index as int,
        TrackView { cover: bytes_view(cover), ..old(tracks)@[index as int]@ },
    ));
}

/// Notes a length of `total` milliseconds with the track at `index`.
fn note_duration(tracks: &mut Vec<Track>, index: usize, total: u128)
    requires
        index < old(tracks).len(),
    ensures
        tracks_view(final(tracks)@) == tracks_view(old(tracks)@).update(
            index as int,
            TrackView { duration: Some(total as nat), ..old(tracks)@[index as int]@ },
        ),
{
    tracks[index].duration = Some(total);
    assert(tracks_view(final(tracks)@) =~= tracks_view(old(tracks)@).update(
        index as int,
        TrackView { duration: Some(total as nat), ..old(tracks)@[index as int]@ },
    ));
}

/// The playlist of the player: the queue, the current track, the engine.
///
/// Whatever is done to it, the current index is absent or points into the
/// queue, and the engine is in a state that it can be in.
pub struct Playlist {
    parts: Parts,
}

impl View for Playlist {
    type V = PlaylistState;

    closed spec fn view(&self) -> PlaylistState {
        self.parts@
    }
}

impl Playlist {
    /// The playlist is always in a state that it can be in.
    #[verifier::type_invariant]
    pub open spec fn well_formed(self) -> bool {
        self@.wf()
    }

    /// An empty playlist with the standard policy and a stopped engine.
    pub fn new() -> (playlist: Playlist)
        ensures
            playlist@ == PlaylistState::empty(Policy::standard()),
            playlist@.wf(),
    {
        Playlist { parts: Parts::new(Policy::default()) }
    }

    /// An empty playlist with the given policy and a stopped engine.
    pub fn with_policy(policy: Policy) -> (playlist: Playlist)
        ensures
            playlist@ == PlaylistState::empty(policy),
            playlist@.wf(),
    {
        Playlist { parts: Parts::new(policy) }
    }

    /// Takes the parts out, leaving an empty playlist in their place until
    /// they are put back.
    fn take(&mut self) -> (parts: Parts)
        ensures
            parts@ == old(self)@,
            parts@.wf(),
    {
        proof {
            use_type_invariant(&*self);
        }
        let mut parts = Parts::new(self.parts.policy);
        std::mem::swap(&mut parts, &mut self.parts);
        parts
    }

    /// The number of tracks in the queue.
    pub fn len(&self) -> (len: usize)
        ensures
            len == self@.tracks.len(),
            self@.wf(),
    {
        proof {
            use_type_invariant(self);
        }
        self.parts.tracks.len()
    }

    /// Whether the queue holds no track.
    pub fn is_empty(&self) -> (empty: bool)
        ensures
            empty == (self@.tracks.len() == 0),
            self@.wf(),
    {
        proof {
            use_type_invariant(self);
        }
        self.parts.tracks.len() == 0
    }

    /// The index of the current track, if one is selected. It always points
    /// into the queue.
    pub fn current_index(&self) -> (current: Option<usize>)
        ensures
            match current {
                Some(index) => self@.current == Some(index as int) && index < self@.tracks.len(),
                None => self@.current is None,
            },
            self@.wf(),
    {
        proof {
            use_type_invariant(self);
        }
        self.parts.current
    }

    /// The policy that the playlist was made with.
    pub fn policy(&self) -> (policy: Policy)
        ensures
            policy == self@.policy,
    {
        self.parts.policy
    }

    /// Whether the engine is stopped, playing or paused.
    pub fn status(&self) -> (status: Status)
        ensures
            status == self@.engine.status,
            self@.wf(),
    {
        proof {
            use_type_invariant(self);
        }
        self.parts.engine.status()
    }

    /// Milliseconds played of the current track; 0 when stopped.
    pub fn elapsed(&self) -> (elapsed: u128)
        ensures
            elapsed == self@.engine.elapsed,
            self@.wf(),
    {
        proof {
            use_type_invariant(self);
        }
        self.parts.engine.elapsed()
    }

    /// Length of the playing track in milliseconds, once it is known.
    pub fn total(&self) -> (total: Option<u128>)
        ensures
            total is Some <==> self@.engine.total is Some,
            total matches Some(t) ==> self@.engine.total == Some(t as nat),
            self@.wf(),
    {
        proof {
            use_type_invariant(self);
        }
        self.parts.engine.total()
    }

    /// Whether a stream has been asked for and the answer is still out.
    pub fn is_opening(&self) -> (opening: bool)
        ensures
            opening == self@.engine.opening,
            self@.wf(),
    {
        proof {
            use_type_invariant(self);
        }
        self.parts.engine.is_opening()
    }

    /// The number of the stream that was asked for last.
    pub fn stream(&self) -> (stream: u64)
        ensures
            stream == self@.engine.stream,
            self@.wf(),
    {
        proof {
            use_type_invariant(self);
        }
        self.parts.engine.stream()
    }

    /// The track at `index`, if the queue is that long.
    pub fn track(&self, index: usize) -> (track: Option<&Track>)
        ensures
            match track {
                Some(found) => index < self@.tracks.len() && found@ == self@.tracks[index as int],
                None => index >= self@.tracks.len(),
            },
    {
        if index < self.parts.tracks.len() {
            Some(&self.parts.tracks[index])
        } else {
            None
        }
    }

    /// The paths of the queue, in play order.
    pub fn paths(&self) -> (paths: Vec<String>)
        ensures
            strings_view(paths@) == paths_of(self@.tracks),
    {
        self.parts.paths()
    }

    /// Puts a track for `path` at the end of the queue. The file is not
    /// looked at: a path that leads nowhere shows when the track is played.
    pub fn add(&mut self, path: String)
        ensures
            final(self)@ == old(self)@.add(path@),
            final(self)@.wf(),
    {
        proof {
            use_type_invariant(&*self);
        }
        let mut parts = self.take();
        parts.add(path);
        self.parts = parts;
    }

    /// Queues the FLAC files among the entries that a scan of a folder
    /// found, in the order of the scan. All other entries are passed over.
    pub fn scan(&mut self, entries: &Vec<String>)
        ensures
            final(self)@ == old(self)@.queue(flac_only(strings_view(entries@))),
            final(self)@.wf(),
    {
        proof {
            use_type_invariant(&*self);
        }
        let kept = select_flac(entries);
        let mut parts = self.take();
        parts.queue(kept);
        self.parts = parts;
    }

    /// Queues the tracks that a playlist file with the contents `text`
    /// lists, in the order of its lines.
    pub fn load(&mut self, text: &str)
        ensures
            final(self)@ == old(self)@.queue(parse(text@)),
            final(self)@.wf(),
    {
        proof {
            use_type_invariant(&*self);
        }
        let listed = from_text(text);
        let mut parts = self.take();
        parts.queue(listed);
        self.parts = parts;
    }

    /// Asks the shell to write the playlist file to `destination`: one
    /// `Write` with the paths of the queue, one per line, in play order.
    pub fn save(&self, destination: String) -> (reaction: Reaction)
        ensures
            reaction@ == self@.save(destination@).reaction,
    {
        self.parts.save(destination)
    }

    /// Takes the shell's report on a `Write`: a file that could not be
    /// written is an `IoError`. The queue is as it was either way.
    pub fn saved(&self, written: bool) -> (reaction: Reaction)
        ensures
            reaction@ == self@.saved(written).reaction,
    {
        if written {
            no_reaction()
        } else {
            failure(PlayerError::IoError)
        }
    }

    /// Takes a file that the user opened by name. A FLAC file is queued. A
    /// file without extension, an MP3 file and a playlist file are passed
    /// over. Any other file is refused: `UnsupportedExtension` with its
    /// extension, and the queue is as it was.
    pub fn open(&mut self, path: String) -> (reaction: Reaction)
        ensures
            final(self)@ == old(self)@.open(path@).state,
            reaction@ == old(self)@.open(path@).reaction,
            final(self)@.wf(),
    {
        proof {
            use_type_invariant(&*self);
        }
        let mut parts = self.take();
        let reaction = parts.open(path);
        self.parts = parts;
        reaction
    }

    /// Removes the track at `index`. If it is the current one, the engine
    /// is stopped first and no track is current afterwards. An index past
    /// the end removes nothing.
    pub fn remove(&mut self, index: usize) -> (reaction: Reaction)
        ensures
            final(self)@ == old(self)@.remove(index as int).state,
            reaction@ == old(self)@.remove(index as int).reaction,
            final(self)@.wf(),
    {
        proof {
            use_type_invariant(&*self);
        }
        let mut parts = self.take();
        let reaction = parts.remove(index);
        self.parts = parts;
        reaction
    }

    /// Plays: resumes a paused track, or asks for the stream of the
    /// current track, which is the first one if none was current. With an
    /// empty queue nothing happens but the benign `EmptyPlaylist`.
    pub fn play(&mut self) -> (reaction: Reaction)
        ensures
            final(self)@ == old(self)@.play().state,
            reaction@ == old(self)@.play().reaction,
            final(self)@.wf(),
    {
        proof {
            use_type_invariant(&*self);
        }
        let mut parts = self.take();
        let reaction = parts.play();
        self.parts = parts;
        reaction
    }

    /// Pauses a playing track. Otherwise nothing happens.
    pub fn pause(&mut self) -> (reaction: Reaction)
        ensures
            final(self)@ == old(self)@.pause().state,
            reaction@ == old(self)@.pause().reaction,
            final(self)@.wf(),
    {
        proof {
            use_type_invariant(&*self);
        }
        let mut parts = self.take();
        let reaction = parts.pause();
        self.parts = parts;
        reaction
    }

    /// Stops the engine and has the shell release its stream. The current
    /// track stays current.
    pub fn stop(&mut self) -> (reaction: Reaction)
        ensures
            final(self)@ == old(self)@.stop().state,
            reaction@ == old(self)@.stop().reaction,
            final(self)@.wf(),
    {
        proof {
            use_type_invariant(&*self);
        }
        let mut parts = self.take();
        let reaction = parts.stop();
        self.parts = parts;
        reaction
    }

    /// The toolbar's one button for both: pauses what plays, plays
    /// otherwise.
    pub fn play_pause(&mut self) -> (reaction: Reaction)
        ensures
            final(self)@ == old(self)@.play_pause().state,
            reaction@ == old(self)@.play_pause().reaction,
            final(self)@.wf(),
    {
        proof {
            use_type_invariant(&*self);
        }
        let mut parts = self.take();
        let reaction = parts.play_pause();
        self.parts = parts;
        reaction
    }

    /// Goes to the track after the current one and asks for its stream,
    /// stopping what plays. At the end of the queue it goes to the first
    /// track if the policy wraps around, and nowhere otherwise.
    pub fn next(&mut self) -> (reaction: Reaction)
        ensures
            final(self)@ == old(self)@.next().state,
            reaction@ == old(self)@.next().reaction,
            final(self)@.wf(),
    {
        proof {
            use_type_invariant(&*self);
        }
        let mut parts = self.take();
        let reaction = parts.next();
        self.parts = parts;
        reaction
    }

    /// Goes to the track before the current one and asks for its stream,
    /// stopping what plays. At the start of the queue it goes to the last
    /// track if the policy wraps around, and nowhere otherwise.
    pub fn previous(&mut self) -> (reaction: Reaction)
        ensures
            final(self)@ == old(self)@.previous().state,
            reaction@ == old(self)@.previous().reaction,
            final(self)@.wf(),
    {
        proof {
            use_type_invariant(&*self);
        }
        let mut parts = self.take();
        let reaction = parts.previous();
        self.parts = parts;
        reaction
    }

    /// What follows the end of a track: the next track is asked for; after
    /// the last one the engine stops. The queue is never wrapped around
    /// here.
    pub fn on_finished(&mut self) -> (reaction: Reaction)
        ensures
            final(self)@ == old(self)@.on_finished().state,
            reaction@ == old(self)@.on_finished().reaction,
            final(self)@.wf(),
    {
        proof {
            use_type_invariant(&*self);
        }
        let mut parts = self.take();
        let reaction = parts.on_finished();
        self.parts = parts;
        reaction
    }

    /// Takes the shell's answer to an `Open`, under the number of the
    /// stream: the cover of the stream that is now open, or why it could
    /// not be opened. See [`PlaylistState::opened`].
    pub fn opened(&mut self, stream: u64, outcome: Result<Option<Vec<u8>>, DecodeCause>) -> (reaction:
        Reaction)
        ensures
            final(self)@ == old(self)@.opened(stream, outcome_view(outcome)).state,
            reaction@ == old(self)@.opened(stream, outcome_view(outcome)).reaction,
            final(self)@.wf(),
    {
        proof {
            use_type_invariant(&*self);
        }
        let mut parts = self.take();
        let reaction = parts.opened(stream, outcome);
        self.parts = parts;
        reaction
    }

    /// Takes the shell's report of the length of a stream, in
    /// milliseconds. See [`PlaylistState::duration_known`].
    pub fn duration_known(&mut self, stream: u64, total: u128) -> (reaction: Reaction)
        ensures
            final(self)@ == old(self)@.duration_known(stream, total as nat).state,
            reaction@ == old(self)@.duration_known(stream, total as nat).reaction,
            final(self)@.wf(),
    {
        proof {
            use_type_invariant(&*self);
        }
        let mut parts = self.take();
        let reaction = parts.duration_known(stream, total);
        self.parts = parts;
        reaction
    }

    /// Whether `tick` can take `delta_ms`: the elapsed time after it can
    /// still be written down.
    pub fn tick_fits(&self, delta_ms: u128) -> (fits: bool)
        ensures
            fits == self@.engine.tick_fits(delta_ms as nat),
    {
        self.parts.engine.tick_fits(delta_ms)
    }

    /// Lets `delta_ms` milliseconds pass. If that carries the playing
    /// track past its known length, the track has ended: `Finished` is
    /// told and the next track is asked for, or the engine stops after the
    /// last one.
    pub fn tick(&mut self, delta_ms: u128) -> (reaction: Reaction)
        requires
            old(self)@.engine.tick_fits(delta_ms as nat),
        ensures
            final(self)@ == old(self)@.tick(delta_ms as nat).state,
            reaction@ == old(self)@.tick(delta_ms as nat).reaction,
            final(self)@.wf(),
    {
        proof {
            use_type_invariant(&*self);
        }
        let mut parts = self.take();
        let reaction = parts.tick(delta_ms);
        self.parts = parts;
        reaction
    }

    /// Takes the shell's report that a stream has run out. If it is the
    /// stream that is open, `Finished` is told and the next track is asked
    /// for, or the engine stops after the last one.
    pub fn completed(&mut self, stream: u64) -> (reaction: Reaction)
        ensures
            final(self)@ == old(self)@.completed(stream).state,
            reaction@ == old(self)@.completed(stream).reaction,
            final(self)@.wf(),
    {
        proof {
            use_type_invariant(&*self);
        }
        let mut parts = self.take();
        let reaction = parts.completed(stream);
        self.parts = parts;
        reaction
    }
}

} // verus!
