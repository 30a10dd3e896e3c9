//! The window: what its toolbar, its labels and its cover show, and what
//! each message to it sets in motion.
//!
//! The window owns the playlist. A message comes in, from a button, from
//! the timer or from the shell; the playlist takes its step; what the shell
//! has to do comes back as a list of [`Action`]s. What the window shows is
//! read off the playlist afterwards, as a [`Model`].

use crate::engine::Status;
use crate::error::{DecodeCause, ErrorView, PlayerError};
use crate::files::strings_view;
use crate::model::{CommandView, PlaylistState, ReactionView, Step};
use crate::playlist::{commands_view, Command, Playlist, Policy, Reaction};
use crate::track::{bytes_view, copy_cover};
use vstd::prelude::*;

verus! {

/// Milliseconds between two `Tick` messages.
pub const TICK_MS: u128 = 1000;

/// The picture on the play button.
#[derive(Clone, Copy, Debug, PartialEq, Eq, Structural)]
pub enum Icon {
    /// Shown while nothing plays: a press will play.
    Play,
    /// Shown while a track plays: a press will pause.
    Pause,
}

impl Icon {
    /// The name of the icon in the icon theme.
    pub fn name(self) -> (name: &'static str)
        ensures
            name@ == match self {
                Icon::Play => "gtk-media-play"@,
                Icon::Pause => "gtk-media-pause"@,
            },
    {
        match self {
            Icon::Play => "gtk-media-play",
            Icon::Pause => "gtk-media-pause",
        }
    }
}

/// A message to the window.
#[derive(Debug)]
pub enum Msg {
    /// The open button: the user wants to add files.
    Open,
    /// The play button, which is also the pause button.
    PlayPause,
    /// The previous button.
    Previous,
    /// The stop button.
    Stop,
    /// The next button.
    Next,
    /// The remove button: the selected track is to go.
    Remove,
    /// The save button: the user wants a playlist file.
    Save,
    /// From the shell: the stream with this number is open; with its cover
    /// image, if it has one.
    Started(u64, Option<Vec<u8>>),
    /// The quit button, or the window was closed.
    Quit,
    /// From the shell: the length of the stream with this number, in
    /// milliseconds.
    Duration(u64, u128),
    /// From the timer: [`TICK_MS`] milliseconds have passed.
    Tick,
}

/// The position and the range of the progress slider, in milliseconds.
#[derive(Clone, Copy, Debug, PartialEq, Eq, Structural)]
pub struct Adjustment {
    pub value: u128,
    pub upper: u128,
}

/// What the window shows.
#[derive(Debug)]
pub struct Model {
    /// The progress slider: at the elapsed time, of the total time.
    pub adjustment: Adjustment,
    /// The cover of the track that was started last, if it has one. A stop
    /// hides it and does not take it away.
    pub cover_pixbuf: Option<Vec<u8>>,
    /// Whether the cover area is shown.
    pub cover_visible: bool,
    /// The total time of the track that plays, in milliseconds; 0 while it
    /// is not known.
    pub current_duration: u128,
    /// The elapsed time of the track that plays, in milliseconds.
    pub current_time: u128,
    /// The picture on the play button.
    pub play_image: Icon,
    /// Whether no track sounds: nothing is open, or the track is paused.
    pub stopped: bool,
    /// Whether a track is paused.
    pub paused: bool,
}

/// An [`Adjustment`] as plain mathematics.
pub struct AdjustmentView {
    pub value: nat,
    pub upper: nat,
}

/// A [`Model`] as plain mathematics.
pub struct ModelView {
    pub adjustment: AdjustmentView,
    pub cover_pixbuf: Option<Seq<u8>>,
    pub cover_visible: bool,
    pub current_duration: nat,
    pub current_time: nat,
    pub play_image: Icon,
    pub stopped: bool,
    pub paused: bool,
}

impl View for Model {
    type V = ModelView;

    open spec fn view(&self) -> ModelView {
        ModelView {
            adjustment: AdjustmentView {
                value: self.adjustment.value as nat,
                upper: self.adjustment.upper as nat,
            },
            cover_pixbuf: bytes_view(self.cover_pixbuf),
            cover_visible: self.cover_visible,
            current_duration: self.current_duration as nat,
            current_time: self.current_time as nat,
            play_image: self.play_image,
            stopped: self.stopped,
            paused: self.paused,
        }
    }
}

impl ModelView {
    /// What the window shows while nothing plays: no time, no length, the
    /// cover area hidden, and the play picture on the button. The cover
    /// that was shown last is kept, out of sight: `cover`.
    pub open spec fn at_rest(cover: Option<Seq<u8>>) -> ModelView {
        ModelView {
            adjustment: AdjustmentView { value: 0, upper: 0 },
            cover_pixbuf: cover,
            cover_visible: false,
            current_duration: 0,
            current_time: 0,
            play_image: Icon::Play,
            stopped: true,
            paused: false,
        }
    }
}

/// Something that the shell has to do for the window.
#[derive(Debug)]
pub enum Action {
    /// Carry out a command of the playlist.
    Run(Command),
    /// Tell the user of a failure, with this sentence.
    ShowError(String),
    /// Let the user choose a folder, scan it, and hand the files to `open`.
    ChooseFolder,
    /// Let the user choose where the playlist file goes, and hand the
    /// choice to `save`.
    ChooseDestination,
    /// Leave the main loop.
    Quit,
}

/// An [`Action`] as plain mathematics.
pub enum ActionView {
    Run(CommandView),
    ShowError(Seq<char>),
    ChooseFolder,
    ChooseDestination,
    Quit,
}

impl View for Action {
    type V = ActionView;

    open spec fn view(&self) -> ActionView {
        match self {
            Action::Run(command) => ActionView::Run(command@),
            Action::ShowError(text) => ActionView::ShowError(text@),
            Action::ChooseFolder => ActionView::ChooseFolder,
            Action::ChooseDestination => ActionView::ChooseDestination,
            Action::Quit => ActionView::Quit,
        }
    }
}

/// The views of `actions`, in order.
pub open spec fn actions_view(actions: Seq<Action>) -> Seq<ActionView> {
    Seq::new(actions.len(), |i: int| actions[i]@)
}

/// What the shell has to do after a step of the playlist: run its
/// commands, in their order, and then tell the user of the failure, unless
/// it is the benign one of an empty playlist.
pub open spec fn actions_of(reaction: ReactionView) -> Seq<ActionView> {
    Seq::new(reaction.commands.len(), |i: int| ActionView::Run(reaction.commands[i])) + match reaction.error {
        Some(ErrorView::EmptyPlaylist) => Seq::empty(),
        Some(error) => seq![ActionView::ShowError(error.message())],
        None => Seq::empty(),
    }
}

/// The window as plain mathematics.
pub struct WinState {
    pub playlist: PlaylistState,
    /// The selected row of the track list, if any. The list may have
    /// changed since the row was selected.
    pub selection: Option<int>,
    /// The cover of the track that was started last, if it had one.
    pub cover: Option<Seq<u8>>,
}

impl WinState {
    /// What the window shows in this state.
    pub open spec fn model(self) -> ModelView {
        let engine = self.playlist.engine;
        let duration = match engine.total {
            Some(total) => total,
            None => 0,
        };
        ModelView {
            adjustment: AdjustmentView { value: engine.elapsed, upper: duration },
            cover_pixbuf: self.cover,
            cover_visible: engine.status !is Stopped,
            current_duration: duration,
            current_time: engine.elapsed,
            play_image: if engine.status is Playing {
                Icon::Pause
            } else {
                Icon::Play
            },
            stopped: engine.status !is Playing,
            paused: engine.status is Paused,
        }
    }

    /// The window around a playlist that has moved on to `playlist`.
    pub open spec fn with(self, playlist: PlaylistState) -> WinState {
        WinState { playlist, ..self }
    }

    /// The turn in which the playlist takes `step` and the shell gets what
    /// the step asks for.
    pub open spec fn carry(self, step: Step) -> Turn {
        Turn { state: self.with(step.state), actions: actions_of(step.reaction) }
    }

    /// The turn that leaves the window as it is and has the shell do one
    /// thing.
    pub open spec fn only(self, action: ActionView) -> Turn {
        Turn { state: self, actions: seq![action] }
    }

    /// The turn that changes nothing.
    pub open spec fn rest(self) -> Turn {
        Turn { state: self, actions: Seq::empty() }
    }

    /// Stops the playlist.
    pub open spec fn stop(self) -> Turn {
        self.carry(self.playlist.stop())
    }

    /// Removes the selected track, if a row is selected, and forgets the
    /// selection.
    pub open spec fn remove(self) -> Turn {
        match self.selection {
            Some(row) => {
                let step = self.playlist.remove(row);
                Turn {
                    state: WinState { playlist: step.state, selection: None, cover: self.cover },
                    actions: actions_of(step.reaction),
                }
            },
            None => self.rest(),
        }
    }

    /// Whether the playlist takes the report that the stream with this
    /// number is open: it waits for that very stream.
    pub open spec fn takes(self, stream: u64) -> bool {
        self.playlist.current is Some && self.playlist.engine.awaits(stream)
    }

    /// The shell's report that the stream with this number is open. If the
    /// playlist waits for that stream, the track plays and its cover, or
    /// the lack of one, takes the place of the cover that was shown last.
    /// A report that the playlist does not wait for changes nothing.
    pub open spec fn started(self, stream: u64, cover: Option<Seq<u8>>) -> Turn {
        let step = self.playlist.opened(stream, Ok(cover));
        Turn {
            state: WinState {
                playlist: step.state,
                cover: if self.takes(stream) {
                    cover
                } else {
                    self.cover
                },
                ..self
            },
            actions: actions_of(step.reaction),
        }
    }

    /// What a message to the window sets in motion.
    pub open spec fn update(self, event: MsgView) -> Turn {
        match event {
            MsgView::Open => self.only(ActionView::ChooseFolder),
            MsgView::PlayPause => self.carry(self.playlist.play_pause()),
            MsgView::Previous => self.carry(self.playlist.previous()),
            MsgView::Stop => self.stop(),
            MsgView::Next => self.carry(self.playlist.next()),
            MsgView::Remove => self.remove(),
            MsgView::Save => self.only(ActionView::ChooseDestination),
            MsgView::Started(stream, cover) => self.started(stream, cover),
            MsgView::Quit => self.only(ActionView::Quit),
            MsgView::Duration(stream, total) => self.carry(
                self.playlist.duration_known(stream, total),
            ),
            MsgView::Tick => self.carry(self.playlist.tick(TICK_MS as nat)),
        }
    }

    /// The files that the user chose are opened by name, one after the
    /// other: FLAC files are queued, and the user is told of each file that
    /// is refused.
    pub open spec fn open(self, files: Seq<Seq<char>>) -> Turn
        decreases files.len(),
    {
        if files.len() == 0 {
            self.rest()
        } else {
            let before = self.open(files.drop_last());
            let step = before.state.playlist.open(files.last());
            Turn {
                state: before.state.with(step.state),
                actions: before.actions + actions_of(step.reaction),
            }
        }
    }

    /// The user's choice of where the playlist file goes: with a choice,
    /// the playlist asks for the file to be written; without, nothing.
    pub open spec fn save(self, destination: Option<Seq<char>>) -> Turn {
        match destination {
            Some(path) => self.carry(self.playlist.save(path)),
            None => self.rest(),
        }
    }
}

/// The window after a turn, and what the shell has to do.
pub struct Turn {
    pub state: WinState,
    pub actions: Seq<ActionView>,
}

/// A [`Msg`] as plain mathematics.
pub enum MsgView {
    Open,
    PlayPause,
    Previous,
    Stop,
    Next,
    Remove,
    Save,
    Started(u64, Option<Seq<u8>>),
    Quit,
    Duration(u64, nat),
    Tick,
}

impl View for Msg {
    type V = MsgView;

    open spec fn view(&self) -> MsgView {
        match self {
            Msg::Open => MsgView::Open,
            Msg::PlayPause => MsgView::PlayPause,
            Msg::Previous => MsgView::Previous,
            Msg::Stop => MsgView::Stop,
            Msg::Next => MsgView::Next,
            Msg::Remove => MsgView::Remove,
            Msg::Save => MsgView::Save,
            Msg::Started(stream, cover) => MsgView::Started(*stream, bytes_view(*cover)),
            Msg::Quit => MsgView::Quit,
            Msg::Duration(stream, total) => MsgView::Duration(*stream, *total as nat),
            Msg::Tick => MsgView::Tick,
        }
    }
}

/// The actions that a step of the playlist asks of the shell: see
/// [`actions_of`].
fn act_on(reaction: Reaction) -> (actions: Vec<Action>)
    ensures
        actions_view(actions@) == actions_of(reaction@),
{
    let ghost asked = reaction@.commands;
    let Reaction { commands, events: _, error } = reaction;
    let mut actions: Vec<Action> = Vec::new();
    for command in it: commands
        invariant
            asked == commands_view(it.seq()),
            actions_view(actions@) == Seq::new(
                it.index() as nat,
                |i: int| ActionView::Run(asked[i]),
            ),
    {
        let ghost done = actions_view(actions@);
        actions.push(Action::Run(command));
        assert(actions_view(actions@) =~= done.push(ActionView::Run(asked[it.index()])));
    }
    let ghost run = actions_view(actions@);
    match error {
        Some(PlayerError::EmptyPlaylist) => {},
        Some(error) => {
            actions.push(Action::ShowError(error.message()));
            assert(actions_view(actions@) =~= run + seq![ActionView::ShowError(error@.message())]);
        },
        None => {},
    }
    assert(actions_view(actions@) =~= actions_of(reaction@));
    actions
}

fn one_action(action: Action) -> (actions: Vec<Action>)
    ensures
        actions_view(actions@) == seq![action@],
{
    let mut actions: Vec<Action> = Vec::new();
    actions.push(action);
    assert(actions_view(actions@) =~= seq![action@]);
    actions
}

fn no_action() -> (actions: Vec<Action>)
    ensures
        actions_view(actions@) == Seq::<ActionView>::empty(),
{
    let actions: Vec<Action> = Vec::new();
    assert(actions_view(actions@) =~= Seq::<ActionView>::empty());
    actions
}

/// The window of the player, with the playlist that it owns.
pub struct Win {
    playlist: Playlist,
    selection: Option<usize>,
    cover: Option<Vec<u8>>,
}

impl View for Win {
    type V = WinState;

    closed spec fn view(&self) -> WinState {
        WinState {
            playlist: self.playlist@,
            selection: match self.selection {
                Some(row) => Some(row as int),
                None => None,
            },
            cover: bytes_view(self.cover),
        }
    }
}

impl Win {
    /// A window with an empty playlist, nothing selected and nothing
    /// playing.
    pub fn new() -> (win: Win)
        ensures
            win@.playlist == PlaylistState::empty(Policy::standard()),
            win@.selection is None,
            win@.cover is None,
            win@.model() == ModelView::at_rest(None),
    {
        Win { playlist: Playlist::new(), selection: None, cover: None }
    }

    /// A window around an empty playlist with the given policy.
    pub fn with_policy(policy: Policy) -> (win: Win)
        ensures
            win@.playlist == PlaylistState::empty(policy),
            win@.selection is None,
            win@.cover is None,
            win@.model() == ModelView::at_rest(None),
    {
        Win { playlist: Playlist::with_policy(policy), selection: None, cover: None }
    }

    /// The playlist, to look at.
    pub fn playlist(&self) -> (playlist: &Playlist)
        ensures
            playlist@ == self@.playlist,
    {
        &self.playlist
    }

    /// The selected row of the track list, if any.
    pub fn selection(&self) -> (selection: Option<usize>)
        ensures
            match selection {
                Some(row) => self@.selection == Some(row as int),
                None => self@.selection is None,
            },
    {
        self.selection
    }

    /// Notes which row of the track list the user has selected.
    pub fn select(&mut self, row: Option<usize>)
        ensures
            final(self)@.playlist == old(self)@.playlist,
            final(self)@.cover == old(self)@.cover,
            match row {
                Some(index) => final(self)@.selection == Some(index as int),
                None => final(self)@.selection is None,
            },
    {
        self.selection = row;
    }

    /// What the window shows now.
    pub fn model(&self) -> (model: Model)
        ensures
            model@ == self@.model(),
    {
        let status = self.playlist.status();
        let elapsed = self.playlist.elapsed();
        let duration: u128 = match self.playlist.total() {
            Some(total) => total,
            None => 0,
        };
        Model {
            adjustment: Adjustment { value: elapsed, upper: duration },
            cover_pixbuf: copy_cover(&self.cover),
            cover_visible: status != Status::Stopped,
            current_duration: duration,
            current_time: elapsed,
            play_image: if status == Status::Playing {
                Icon::Pause
            } else {
                Icon::Play
            },
            stopped: status != Status::Playing,
            paused: status == Status::Paused,
        }
    }

    /// Stops playback: the playlist stops its engine and the shell releases
    /// the stream. The queue and the current track stay as they are.
    /// Afterwards the window shows no time and no length, the cover area is
    /// hidden, and the play picture is on the button. The cover itself is
    /// not touched: the model holds the one it held before.
    pub fn stop(&mut self) -> (actions: Vec<Action>)
        ensures
            final(self)@ == old(self)@.stop().state,
            actions_view(actions@) == old(self)@.stop().actions,
            actions_view(actions@) == seq![ActionView::Run(CommandView::Stop)],
            final(self)@.playlist.tracks == old(self)@.playlist.tracks,
            final(self)@.playlist.current == old(self)@.playlist.current,
            final(self)@.model().cover_pixbuf == old(self)@.model().cover_pixbuf,
            final(self)@.model() == ModelView::at_rest(old(self)@.model().cover_pixbuf),
    {
        let reaction = self.playlist.stop();
        let actions = act_on(reaction);
        assert(actions_view(actions@) =~= seq![ActionView::Run(CommandView::Stop)]);
        actions
    }

    /// Whether `update` can take a `Tick`: the elapsed time after it can
    /// still be written down.
    pub fn tick_fits(&self) -> (fits: bool)
        ensures
            fits == self@.playlist.engine.tick_fits(TICK_MS as nat),
    {
        self.playlist.tick_fits(TICK_MS)
    }

    /// Takes a message and says what the shell has to do about it: see
    /// [`WinState::update`].
    pub fn update(&mut self, event: Msg) -> (actions: Vec<Action>)
        requires
            event is Tick ==> old(self)@.playlist.engine.tick_fits(TICK_MS as nat),
        ensures
            final(self)@ == old(self)@.update(event@).state,
            actions_view(actions@) == old(self)@.update(event@).actions,
            final(self)@.playlist.wf(),
    {
        proof {
            use_type_invariant(&self.playlist);
        }
        match event {
            Msg::Open => {
                one_action(Action::ChooseFolder)
            },
            Msg::PlayPause => act_on(self.playlist.play_pause()),
            Msg::Previous => act_on(self.playlist.previous()),
            Msg::Stop => self.stop(),
            Msg::Next => act_on(self.playlist.next()),
            Msg::Remove => {
                match self.selection {
                    Some(row) => {
                        self.selection = None;
                        act_on(self.playlist.remove(row))
                    },
                    None => {
                                no_action()
                    },
                }
            },
            Msg::Save => {
                one_action(Action::ChooseDestination)
            },
            Msg::Started(stream, cover) => {
                let taken = self.playlist.current_index().is_some() && self.playlist.is_opening()
                    && self.playlist.stream() == stream;
                if taken {
                    self.cover = copy_cover(&cover);
                }
                act_on(self.playlist.opened(stream, Ok(cover)))
            },
            Msg::Quit => {
                one_action(Action::Quit)
            },
            Msg::Duration(stream, total) => act_on(self.playlist.duration_known(stream, total)),
            Msg::Tick => act_on(self.playlist.tick(TICK_MS)),
        }
    }

    /// Opens by name the files that the user chose, in their order. FLAC
    /// files are queued. For each file of a type that the player does not
    /// handle there is one `ShowError`; the queue is not touched by it.
    pub fn open(&mut self, files: Vec<String>) -> (actions: Vec<Action>)
        ensures
            final(self)@ == old(self)@.open(strings_view(files@)).state,
            actions_view(actions@) == old(self)@.open(strings_view(files@)).actions,
            final(self)@.playlist.wf(),
    {
        let ghost all = strings_view(files@);
        let mut actions: Vec<Action> = Vec::new();
        assert(actions_view(actions@) =~= Seq::<ActionView>::empty());
        proof {
            use_type_invariant(&self.playlist);
        }
        for path in it: files
            invariant
                all == strings_view(it.seq()),
                self@ == old(self)@.open(all.take(it.index())).state,
                actions_view(actions@) == old(self)@.open(all.take(it.index())).actions,
                self@.playlist.wf(),
        {
            assert(all.take(it.index() + 1).drop_last() == all.take(it.index()));
            assert(all.take(it.index() + 1).last() == path@);
            let ghost before = actions_view(actions@);
            let mut told = act_on(self.playlist.open(path));
            let ghost more = actions_view(told@);
            actions.append(&mut told);
            assert(actions_view(actions@) =~= before + more);
        }
        assert(all.take(all.len() as int) == all);
        actions
    }

    /// Takes the user's choice of where the playlist file goes. With a
    /// choice, the shell is asked to write the file there; without one,
    /// nothing happens.
    pub fn save(&self, destination: Option<String>) -> (actions: Vec<Action>)
        ensures
            actions_view(actions@) == self@.save(destination.deep_view()).actions,
    {
        match destination {
            Some(path) => act_on(self.playlist.save(path)),
            None => no_action(),
        }
    }

    /// Takes the shell's report on a `Write`. If the file could not be
    /// written, the user is told; the playlist is as it was.
    pub fn saved(&self, written: bool) -> (actions: Vec<Action>)
        ensures
            actions_view(actions@) == actions_of(self@.playlist.saved(written).reaction),
    {
        act_on(self.playlist.saved(written))
    }

    /// Takes the shell's report that the stream with this number could not
    /// be opened. If the playlist waits for that stream, the user is told,
    /// and the playlist goes on to the next track or stays stopped, as its
    /// policy says.
    pub fn failed(&mut self, stream: u64, cause: DecodeCause) -> (actions: Vec<Action>)
        ensures
            final(self)@ == old(self)@.carry(old(self)@.playlist.opened(stream, Err(cause))).state,
            actions_view(actions@) == old(self)@.carry(
                old(self)@.playlist.opened(stream, Err(cause)),
            ).actions,
            final(self)@.playlist.wf(),
    {
        act_on(self.playlist.opened(stream, Err(cause)))
    }

    /// Takes the shell's report that the stream with this number has run
    /// out. If it is the stream that is open, the playlist goes on to the
    /// next track, or stops after the last one.
    pub fn finished(&mut self, stream: u64) -> (actions: Vec<Action>)
        ensures
            final(self)@ == old(self)@.carry(old(self)@.playlist.completed(stream)).state,
            actions_view(actions@) == old(self)@.carry(
                old(self)@.playlist.completed(stream),
            ).actions,
            final(self)@.playlist.wf(),
    {
        act_on(self.playlist.completed(stream))
    }
}

/// What the window shows hangs together.
///
/// Over a well-formed playlist, a paused track counts as stopped; the
/// pause picture is on the button exactly while a track sounds; the cover
/// area is shown exactly while a stream is open; the slider stands at the
/// elapsed time; and once the length is known the elapsed time is within
/// it. While nothing is open the window is at rest, with the cover that
/// was shown last kept out of sight.
pub proof fn law_model_hangs_together(state: WinState)
    requires
        state.playlist.wf(),
    ensures
        state.model().paused ==> state.model().stopped,
        state.model().play_image == Icon::Pause <==> !state.model().stopped,
        state.model().cover_visible <==> state.playlist.engine.status !is Stopped,
        state.model().cover_pixbuf == state.cover,
        state.model().adjustment.value == state.model().current_time,
        state.model().adjustment.upper == state.model().current_duration,
        state.playlist.engine.total is Some ==> state.model().current_time
            <= state.model().current_duration,
        state.playlist.engine.status is Stopped ==> state.model() == ModelView::at_rest(
            state.cover,
        ),
{
}

/// A stop hides the cover and keeps it.
///
/// From any state, a stop leaves the queue, the current track, the
/// selection and the cover as they were. Of what the window shows it
/// changes the time, the length, the slider, the two flags, the picture on
/// the button and whether the cover area is shown: they are at rest. The
/// stop button does the same as `stop`.
pub proof fn law_stop_keeps_cover(state: WinState)
    ensures
        state.stop().state.playlist.tracks == state.playlist.tracks,
        state.stop().state.playlist.current == state.playlist.current,
        state.stop().state.selection == state.selection,
        state.stop().state.cover == state.cover,
        state.stop().state.model().cover_pixbuf == state.model().cover_pixbuf,
        state.stop().state.model() == ModelView::at_rest(state.model().cover_pixbuf),
        state.update(MsgView::Stop) == state.stop(),
{
}

/// Only a stream that starts changes the cover.
///
/// The cover that the model holds is the one that came with the last
/// report of an open stream that the playlist waited for. No other message
/// changes it, and neither does a report that the playlist does not wait
/// for.
pub proof fn law_cover_follows_start(state: WinState, event: MsgView)
    ensures
        match event {
            MsgView::Started(stream, cover) => state.update(event).state.cover == if state.takes(
                stream,
            ) {
                cover
            } else {
                state.cover
            },
            _ => state.update(event).state.cover == state.cover,
        },
{
}

} // verus!
