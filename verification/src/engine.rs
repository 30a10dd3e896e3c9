//! The playback engine: the state of the one stream that may be playing.
//!
//! The engine does not touch the audio device itself. The shell opens a
//! stream when the engine has asked for one and reports back what came of
//! it: that the stream is open, how long it is, that it has run out. The
//! engine decides what each report means in the state it finds itself in,
//! and drops reports that come after a stop.

use crate::error::DecodeCause;
use crate::track::bytes_view;
use vstd::prelude::*;

verus! {

/// Whether a stream is playing.
#[derive(Clone, Copy, Debug, PartialEq, Eq, Structural)]
pub enum Status {
    /// No stream is open.
    Stopped,
    /// A stream is open and its time is running.
    Playing,
    /// A stream is open and its time stands still.
    Paused,
}

/// A signal from the core to whoever shows its state.
#[derive(Debug)]
pub enum Event {
    /// A track has begun to play; with its cover image, if it has one.
    Started(Option<Vec<u8>>),
    /// The length of the playing track, in milliseconds, has become known.
    DurationKnown(u128),
    /// The playing track has come to its end.
    Finished,
}

/// An [`Event`] as plain mathematics.
pub enum EventView {
    Started(Option<Seq<u8>>),
    DurationKnown(nat),
    Finished,
}

impl View for Event {
    type V = EventView;

    open spec fn view(&self) -> EventView {
        match self {
            Event::Started(cover) => EventView::Started(bytes_view(*cover)),
            Event::DurationKnown(total) => EventView::DurationKnown(*total as nat),
            Event::Finished => EventView::Finished,
        }
    }
}

/// The views of `events`, in order.
pub open spec fn events_view(events: Seq<Event>) -> Seq<EventView> {
    Seq::new(events.len(), |i: int| events[i]@)
}

/// The engine as plain mathematics, with its transitions.
pub struct EngineState {
    pub status: Status,
    /// Milliseconds played of the current stream.
    pub elapsed: nat,
    /// Length of the current stream in milliseconds, once known.
    pub total: Option<nat>,
    /// A stream has been asked for and the answer is still out.
    pub opening: bool,
    /// The number of the stream that was asked for last. Every request for
    /// a stream gets a number of its own, and the shell names the stream by
    /// it in what it reports.
    pub stream: u64,
}

impl EngineState {
    /// A new engine: stopped, with nothing asked for yet.
    pub open spec fn fresh() -> EngineState {
        EngineState { status: Status::Stopped, elapsed: 0, total: None, opening: false, stream: 0 }
    }

    /// This engine brought to a halt: stopped, with no time and no length,
    /// and waiting for nothing.
    pub open spec fn halted(self) -> EngineState {
        EngineState {
            status: Status::Stopped,
            elapsed: 0,
            total: None,
            opening: false,
            stream: self.stream,
        }
    }

    /// Whether the engine is stopped, with no time and no length, and
    /// waiting for nothing.
    pub open spec fn is_idle(self) -> bool {
        self.status is Stopped && self.elapsed == 0 && self.total is None && !self.opening
    }

    /// What holds of every state the engine can be in: a stopped engine has
    /// no time and no length, only a stopped engine waits for a stream, and
    /// the time never passes a known length.
    pub open spec fn wf(self) -> bool {
        &&& self.status is Stopped ==> self.elapsed == 0 && self.total is None
        &&& self.opening ==> self.status is Stopped
        &&& self.total matches Some(total) ==> self.elapsed <= total
    }

    /// Whether a stream is open or asked for.
    pub open spec fn active(self) -> bool {
        self.status !is Stopped || self.opening
    }

    /// Whether `start` asks for a stream: only a stopped engine that is not
    /// waiting for one already does.
    pub open spec fn starts(self) -> bool {
        self.status is Stopped && !self.opening
    }

    /// The number that the next request for a stream gets. After the
    /// largest number the count begins again at 0.
    pub open spec fn next_stream(self) -> u64 {
        if self.stream == u64::MAX {
            0
        } else {
            (self.stream + 1) as u64
        }
    }

    pub open spec fn start(self) -> EngineState {
        if self.starts() {
            EngineState { opening: true, stream: self.next_stream(), ..self }
        } else {
            self
        }
    }

    /// Whether the engine waits for the stream with this number.
    pub open spec fn awaits(self, stream: u64) -> bool {
        self.opening && stream == self.stream
    }

    /// The shell's answer to a request for a stream. It counts only while
    /// the engine waits for that very stream.
    pub open spec fn opened(self, stream: u64, success: bool) -> EngineState {
        if !self.awaits(stream) {
            self
        } else if success {
            EngineState {
                status: Status::Playing,
                elapsed: 0,
                total: None,
                opening: false,
                stream: self.stream,
            }
        } else {
            EngineState { opening: false, ..self }
        }
    }

    /// Whether the stream with this number is the one that is open.
    pub open spec fn holds(self, stream: u64) -> bool {
        self.status !is Stopped && stream == self.stream
    }

    /// Whether a reported length is taken: only for the stream that is
    /// open, and only while its length is not known yet.
    pub open spec fn takes_duration(self, stream: u64) -> bool {
        self.holds(stream) && self.total is None
    }

    /// Whether a reported length of `total` ends the stream at once, because
    /// more than that has been played already.
    pub open spec fn outlasts(self, stream: u64, total: nat) -> bool {
        self.takes_duration(stream) && self.elapsed > total
    }

    pub open spec fn duration_known(self, stream: u64, total: nat) -> EngineState {
        if !self.takes_duration(stream) {
            self
        } else if self.elapsed > total {
            self.halted()
        } else {
            EngineState { total: Some(total), ..self }
        }
    }

    pub open spec fn pause(self) -> EngineState {
        if self.status is Playing {
            EngineState { status: Status::Paused, ..self }
        } else {
            self
        }
    }

    pub open spec fn resume(self) -> EngineState {
        if self.status is Paused {
            EngineState { status: Status::Playing, ..self }
        } else {
            self
        }
    }

    pub open spec fn stop(self) -> EngineState {
        self.halted()
    }

    /// Whether the time after `delta` more milliseconds can still be
    /// written down. Only a playing stream whose length is not known can run
    /// into the largest number there is: a known length stops it before.
    pub open spec fn tick_fits(self, delta: nat) -> bool {
        self.status is Playing && self.total is None ==> self.elapsed + delta <= u128::MAX
    }

    /// Whether `delta` more milliseconds carry a playing stream past its
    /// known length.
    pub open spec fn tick_finishes(self, delta: nat) -> bool {
        &&& self.status is Playing
        &&& self.total matches Some(total)
        &&& self.elapsed + delta > total
    }

    pub open spec fn tick(self, delta: nat) -> EngineState {
        if self.status !is Playing {
            self
        } else if self.tick_finishes(delta) {
            self.halted()
        } else {
            EngineState { elapsed: self.elapsed + delta, ..self }
        }
    }

    /// The shell's report that a stream has run out. It counts only for
    /// the stream that is open.
    pub open spec fn completed(self, stream: u64) -> EngineState {
        if self.holds(stream) {
            self.halted()
        } else {
            self
        }
    }

    /// The state after one tick for each element of `deltas`, in order.
    pub open spec fn ticks(self, deltas: Seq<nat>) -> EngineState
        decreases deltas.len(),
    {
        if deltas.len() == 0 {
            self
        } else {
            self.ticks(deltas.drop_last()).tick(deltas.last())
        }
    }

    /// How many of the ticks of `deltas` end the stream.
    pub open spec fn finishes(self, deltas: Seq<nat>) -> nat
        decreases deltas.len(),
    {
        if deltas.len() == 0 {
            0
        } else {
            let before = self.ticks(deltas.drop_last());
            self.finishes(deltas.drop_last()) + if before.tick_finishes(deltas.last()) {
                1nat
            } else {
                0nat
            }
        }
    }
}

/// The sum of `deltas`.
pub open spec fn sum(deltas: Seq<nat>) -> nat
    decreases deltas.len(),
{
    if deltas.len() == 0 {
        0
    } else {
        sum(deltas.drop_last()) + deltas.last()
    }
}

/// The state of playback of at most one stream.
pub struct PlaybackEngine {
    status: Status,
    elapsed: u128,
    total: Option<u128>,
    opening: bool,
    stream: u64,
}

impl View for PlaybackEngine {
    type V = EngineState;

    closed spec fn view(&self) -> EngineState {
        EngineState {
            status: self.status,
            elapsed: self.elapsed as nat,
            total: match self.total {
                Some(total) => Some(total as nat),
                None => None,
            },
            opening: self.opening,
            stream: self.stream,
        }
    }
}

impl PlaybackEngine {
    /// The engine is always in a state that it can be in.
    #[verifier::type_invariant]
    pub open spec fn well_formed(self) -> bool {
        self@.wf()
    }

    /// A stopped engine.
    pub fn new() -> (engine: PlaybackEngine)
        ensures
            engine@ == EngineState::fresh(),
    {
        PlaybackEngine {
            status: Status::Stopped,
            elapsed: 0,
            total: None,
            opening: false,
            stream: 0,
        }
    }

    /// Whether a stream is playing, paused or absent.
    pub fn status(&self) -> (status: Status)
        ensures
            status == self@.status,
            self@.wf(),
    {
        proof {
            use_type_invariant(self);
        }
        self.status
    }

    /// Milliseconds played of the current stream; 0 when stopped.
    pub fn elapsed(&self) -> (elapsed: u128)
        ensures
            elapsed == self@.elapsed,
            self@.wf(),
    {
        proof {
            use_type_invariant(self);
        }
        self.elapsed
    }

    /// Length of the current stream in milliseconds, once it is known.
    pub fn total(&self) -> (total: Option<u128>)
        ensures
            total is Some <==> self@.total is Some,
            total matches Some(t) ==> self@.total == Some(t as nat),
            self@.wf(),
    {
        proof {
            use_type_invariant(self);
        }
        self.total
    }

    /// Whether a stream has been asked for and the answer is still out.
    pub fn is_opening(&self) -> (opening: bool)
        ensures
            opening == self@.opening,
            self@.wf(),
    {
        proof {
            use_type_invariant(self);
        }
        self.opening
    }

    /// The number of the stream that was asked for last.
    pub fn stream(&self) -> (stream: u64)
        ensures
            stream == self@.stream,
            self@.wf(),
    {
        proof {
            use_type_invariant(self);
        }
        self.stream
    }

    /// Asks for the stream of a track. Only a stopped engine that is not
    /// already waiting asks; otherwise nothing happens. Returns the number
    /// of the stream that the shell has to open now, if it has to.
    pub fn start(&mut self) -> (asked: Option<u64>)
        ensures
            final(self)@ == old(self)@.start(),
            final(self)@.wf(),
            asked == if old(self)@.starts() {
                Some(old(self)@.next_stream())
            } else {
                None
            },
    {
        proof {
            use_type_invariant(&*self);
        }
        if self.status == Status::Stopped && !self.opening {
            self.stream = if self.stream == u64::MAX {
                0
            } else {
                self.stream + 1
            };
            self.opening = true;
            Some(self.stream)
        } else {
            None
        }
    }

    /// Takes the shell's answer to a request for a stream.
    ///
    /// While the engine waits for this stream, success makes it play from 0
    /// with the length unknown and gives `Started` with the cover; failure
    /// leaves it stopped and gives the cause back. An answer that the
    /// engine does not wait for (it comes after a stop, or for an earlier
    /// request) is dropped: `Ok(None)`.
    pub fn opened(&mut self, stream: u64, outcome: Result<Option<Vec<u8>>, DecodeCause>) -> (result:
        Result<Option<Event>, DecodeCause>)
        ensures
            final(self)@ == old(self)@.opened(stream, outcome is Ok),
            final(self)@.wf(),
            !old(self)@.awaits(stream) ==> result == Ok::<Option<Event>, DecodeCause>(None),
            old(self)@.awaits(stream) ==> match outcome {
                Ok(cover) => result matches Ok(Some(event)) && event@ == EventView::Started(
                    bytes_view(cover),
                ),
                Err(cause) => result == Err::<Option<Event>, DecodeCause>(cause),
            },
    {
        proof {
            use_type_invariant(&*self);
        }
        if !self.opening || stream != self.stream {
            return Ok(None);
        }
        match outcome {
            Ok(cover) => {
                self.opening = false;
                self.status = Status::Playing;
                Ok(Some(Event::Started(cover)))
            },
            Err(cause) => {
                self.opening = false;
                Err(cause)
            },
        }
    }

    /// Takes the length of a stream, `total` milliseconds.
    ///
    /// It is taken once, for the stream that is open, and gives
    /// `DurationKnown`. If more than `total` has been played by then, the
    /// stream ends at once: the engine stops and `Finished` follows. A
    /// length that comes for another stream or for none, or a second one,
    /// is dropped.
    pub fn duration_known(&mut self, stream: u64, total: u128) -> (events: Vec<Event>)
        ensures
            final(self)@ == old(self)@.duration_known(stream, total as nat),
            final(self)@.wf(),
            events_view(events@) == if !old(self)@.takes_duration(stream) {
                Seq::<EventView>::empty()
            } else if old(self)@.outlasts(stream, total as nat) {
                seq![EventView::DurationKnown(total as nat), EventView::Finished]
            } else {
                seq![EventView::DurationKnown(total as nat)]
            },
    {
        proof {
            use_type_invariant(&*self);
        }
        let mut events: Vec<Event> = Vec::new();
        if self.status != Status::Stopped && stream == self.stream && self.total.is_none() {
            events.push(Event::DurationKnown(total));
            if self.elapsed > total {
                self.halt();
                events.push(Event::Finished);
            } else {
                self.total = Some(total);
            }
        }
        assert(events_view(events@) =~= if !old(self)@.takes_duration(stream) {
            Seq::<EventView>::empty()
        } else if old(self)@.outlasts(stream, total as nat) {
            seq![EventView::DurationKnown(total as nat), EventView::Finished]
        } else {
            seq![EventView::DurationKnown(total as nat)]
        });
        events
    }

    /// Suspends a playing stream: the time stands still from here. Returns
    /// whether the engine was playing; otherwise nothing happens.
    pub fn pause(&mut self) -> (paused: bool)
        ensures
            paused == (old(self)@.status is Playing),
            final(self)@ == old(self)@.pause(),
            final(self)@.wf(),
    {
        proof {
            use_type_invariant(&*self);
        }
        if self.status == Status::Playing {
            self.status = Status::Paused;
            true
        } else {
            false
        }
    }

    /// Takes a paused stream up again where it stood. Returns whether the
    /// engine was paused; otherwise nothing happens.
    pub fn resume(&mut self) -> (resumed: bool)
        ensures
            resumed == (old(self)@.status is Paused),
            final(self)@ == old(self)@.resume(),
            final(self)@.wf(),
    {
        proof {
            use_type_invariant(&*self);
        }
        if self.status == Status::Paused {
            self.status = Status::Playing;
            true
        } else {
            false
        }
    }

    /// Stops, from any state: no stream, no time, no length, and nothing
    /// asked for, so that an answer still under way will be dropped.
    pub fn stop(&mut self)
        ensures
            final(self)@ == old(self)@.stop(),
            final(self)@.wf(),
            final(self)@.is_idle(),
    {
        self.halt();
    }

    /// Whether `tick` can take `delta_ms`: the time after it can still be
    /// written down.
    pub fn tick_fits(&self, delta_ms: u128) -> (fits: bool)
        ensures
            fits == self@.tick_fits(delta_ms as nat),
    {
        match (self.status, self.total) {
            (Status::Playing, None) => delta_ms <= u128::MAX - self.elapsed,
            _ => true,
        }
    }

    /// Lets `delta_ms` milliseconds pass.
    ///
    /// Time passes only while playing. If it would pass the known length,
    /// the stream has ended: the engine stops and gives `Finished`.
    pub fn tick(&mut self, delta_ms: u128) -> (event: Option<Event>)
        requires
            old(self)@.tick_fits(delta_ms as nat),
        ensures
            final(self)@ == old(self)@.tick(delta_ms as nat),
            final(self)@.wf(),
            event is Some <==> old(self)@.tick_finishes(delta_ms as nat),
            event matches Some(e) ==> e@ == EventView::Finished,
    {
        proof {
            use_type_invariant(&*self);
        }
        if self.status != Status::Playing {
            return None;
        }
        match self.total {
            Some(total) => {
                if delta_ms > total - self.elapsed {
                    self.halt();
                    Some(Event::Finished)
                } else {
                    self.elapsed = self.elapsed + delta_ms;
                    None
                }
            },
            None => {
                self.elapsed = self.elapsed + delta_ms;
                None
            },
        }
    }

    /// Takes the shell's report that a stream has run out. If it is the
    /// stream that is open, it ends: the engine stops and gives `Finished`.
    /// For any other stream the report is dropped.
    pub fn completed(&mut self, stream: u64) -> (event: Option<Event>)
        ensures
            final(self)@ == old(self)@.completed(stream),
            final(self)@.wf(),
            event is Some <==> old(self)@.holds(stream),
            event matches Some(e) ==> e@ == EventView::Finished,
    {
        proof {
            use_type_invariant(&*self);
        }
        if self.status == Status::Stopped || stream != self.stream {
            None
        } else {
            self.halt();
            Some(Event::Finished)
        }
    }

    fn halt(&mut self)
        ensures
            final(self)@ == old(self)@.halted(),
    {
        proof {
            use_type_invariant(&*self);
        }
        self.total = None;
        self.elapsed = 0;
        self.opening = false;
        self.status = Status::Stopped;
    }
}

/// A stop cancels whatever was under way.
///
/// After `start` and `stop` the engine is stopped with no time and no
/// length, whether the stream was opened in between or not. Every report
/// that arrives after the stop (a stream opened or refused, a length, the
/// end of a stream, a tick), for whatever stream, leaves the engine as the
/// stop left it.
pub proof fn law_stop_cancels(
    state: EngineState,
    stream: u64,
    success: bool,
    total: nat,
    delta: nat,
)
    ensures
        state.stop().is_idle(),
        state.start().stop().is_idle(),
        state.start().opened(stream, success).stop().is_idle(),
        state.start().opened(stream, success).duration_known(stream, total).stop().is_idle(),
        state.stop().opened(stream, success) == state.stop(),
        state.stop().duration_known(stream, total) == state.stop(),
        state.stop().completed(stream) == state.stop(),
        state.stop().tick(delta) == state.stop(),
{
}

/// What is reported of an earlier stream is dropped.
///
/// A report that names another stream than the one asked for last changes
/// nothing and ends nothing, whatever it reports.
pub proof fn law_stale_reports_dropped(state: EngineState, stream: u64, success: bool, total: nat)
    requires
        stream != state.stream,
    ensures
        state.opened(stream, success) == state,
        state.duration_known(stream, total) == state,
        state.completed(stream) == state,
        !state.finishes_on(Signal::DurationKnown(stream, total)),
        !state.finishes_on(Signal::Completed(stream)),
{
}

/// A pause followed by a resume loses and gains no time.
///
/// The time and the length after the two are those before them; a playing
/// engine is back in the very state it was in; and while the engine is
/// paused, ticks do not move the time.
pub proof fn law_pause_keeps_time(state: EngineState, delta: nat)
    ensures
        state.pause().resume().elapsed == state.elapsed,
        state.pause().resume().total == state.total,
        state.status is Playing ==> state.pause().resume() == state,
        state.status is Playing ==> state.pause().tick(delta).resume() == state,
{
}

/// Where a run of ticks leaves a well-formed engine: a playing stream whose
/// known length the ticks pass has ended, any other has moved on by their
/// sum, and an engine that is not playing has not moved.
pub proof fn lemma_ticks(state: EngineState, deltas: Seq<nat>)
    requires
        state.wf(),
    ensures
        state.ticks(deltas) == if state.status !is Playing {
            state
        } else if state.tick_finishes(sum(deltas)) {
            state.halted()
        } else {
            EngineState { elapsed: state.elapsed + sum(deltas), ..state }
        },
        state.finishes(deltas) == if state.tick_finishes(sum(deltas)) {
            1nat
        } else {
            0nat
        },
    decreases deltas.len(),
{
    if deltas.len() > 0 {
        lemma_ticks(state, deltas.drop_last());
    }
}

/// Ticks end a stream exactly once.
///
/// Over any run of ticks, a well-formed engine gives `Finished` at most
/// once, and exactly once if and only if it was playing a stream of known
/// length that the ticks together carry it past. From then on it is
/// stopped, so that further ticks give nothing.
pub proof fn law_finished_once(state: EngineState, deltas: Seq<nat>)
    requires
        state.wf(),
    ensures
        state.finishes(deltas) <= 1,
        state.finishes(deltas) == 1 <==> state.tick_finishes(sum(deltas)),
        state.finishes(deltas) == 1 ==> state.ticks(deltas).is_idle(),
{
    lemma_ticks(state, deltas);
}

/// No single transition takes a well-formed engine out of the well-formed
/// ones.
pub proof fn lemma_apply_wf(state: EngineState, signal: Signal)
    requires
        state.wf(),
    ensures
        state.apply(signal).wf(),
{
}

/// Anything that can be done to an engine or reported to it.
pub enum Signal {
    Start,
    /// The shell's answer to the request for the stream with this number:
    /// whether the stream is open.
    Opened(u64, bool),
    DurationKnown(u64, nat),
    Pause,
    Resume,
    Stop,
    Tick(nat),
    Completed(u64),
}

impl EngineState {
    /// The engine after `signal`.
    pub open spec fn apply(self, signal: Signal) -> EngineState {
        match signal {
            Signal::Start => self.start(),
            Signal::Opened(stream, success) => self.opened(stream, success),
            Signal::DurationKnown(stream, total) => self.duration_known(stream, total),
            Signal::Pause => self.pause(),
            Signal::Resume => self.resume(),
            Signal::Stop => self.stop(),
            Signal::Tick(delta) => self.tick(delta),
            Signal::Completed(stream) => self.completed(stream),
        }
    }

    /// Whether the engine gives `Finished` on `signal`.
    pub open spec fn finishes_on(self, signal: Signal) -> bool {
        match signal {
            Signal::DurationKnown(stream, total) => self.outlasts(stream, total),
            Signal::Tick(delta) => self.tick_finishes(delta),
            Signal::Completed(stream) => self.holds(stream),
            _ => false,
        }
    }

    /// The engine after all of `signals`, in order.
    pub open spec fn run(self, signals: Seq<Signal>) -> EngineState
        decreases signals.len(),
    {
        if signals.len() == 0 {
            self
        } else {
            self.run(signals.drop_last()).apply(signals.last())
        }
    }

    /// How often the engine gives `Finished` over `signals`.
    pub open spec fn finished_in(self, signals: Seq<Signal>) -> nat
        decreases signals.len(),
    {
        if signals.len() == 0 {
            0
        } else {
            self.finished_in(signals.drop_last()) + if self.run(
                signals.drop_last(),
            ).finishes_on(signals.last()) {
                1nat
            } else {
                0nat
            }
        }
    }
}

/// Whether `signal` reports a stream as open.
pub open spec fn reports_open(signal: Signal) -> bool {
    signal matches Signal::Opened(_, success) && success
}

/// No stream is opened in `signals`: none of them reports one as open.
pub open spec fn opens_none(signals: Seq<Signal>) -> bool {
    forall|i: int| 0 <= i < signals.len() ==> !reports_open(#[trigger] signals[i])
}

/// `Finished` comes at most once for each stream.
///
/// Over any run in which no new stream is opened, whatever else is done
/// and reported and in whatever order, the engine gives `Finished` at most
/// once, and it is stopped from then on.
pub proof fn law_finished_at_most_once(state: EngineState, signals: Seq<Signal>)
    requires
        opens_none(signals),
    ensures
        state.finished_in(signals) <= 1,
        state.finished_in(signals) == 1 ==> state.run(signals).status is Stopped,
        state.status is Stopped ==> state.finished_in(signals) == 0 && state.run(
            signals,
        ).status is Stopped,
    decreases signals.len(),
{
    if signals.len() > 0 {
        let front = signals.drop_last();
        assert(opens_none(front)) by {
            assert forall|i: int| 0 <= i < front.len() implies !reports_open(
                #[trigger] front[i],
            ) by {
                assert(front[i] == signals[i]);
            }
        }
        assert(!reports_open(signals[signals.len() - 1]));
        law_finished_at_most_once(state, front);
    }
}

/// The time never passes a known length.
///
/// Whatever is done and reported to an engine and in whatever order, it
/// stays well-formed: once the length is known the elapsed time is at most
/// the length, and a stopped engine has no time and no length. This holds
/// of every engine that starts out well-formed, so of every new one.
pub proof fn law_time_within_length(state: EngineState, signals: Seq<Signal>)
    ensures
        state.wf() ==> state.run(signals).wf(),
        state.wf() ==> (state.run(signals).total matches Some(total) ==> state.run(
            signals,
        ).elapsed <= total),
        EngineState::fresh().run(signals).wf(),
    decreases signals.len(),
{
    if signals.len() > 0 {
        law_time_within_length(state, signals.drop_last());
        if state.wf() {
            lemma_apply_wf(state.run(signals.drop_last()), signals.last());
        }
        lemma_apply_wf(EngineState::fresh().run(signals.drop_last()), signals.last());
    }
}

/// `Started` comes before `DurationKnown`.
///
/// A length is taken, and `DurationKnown` given, only while a stream is
/// open; and over any run from a stopped engine a stream is open only if
/// the shell has reported one as open, which is when `Started` is given.
pub proof fn law_started_precedes_duration(
    state: EngineState,
    signals: Seq<Signal>,
    stream: u64,
)
    requires
        state.status is Stopped,
    ensures
        state.run(signals).takes_duration(stream) ==> !opens_none(signals),
        state.run(signals).takes_duration(stream) ==> state.run(signals).status !is Stopped,
{
    if opens_none(signals) {
        law_finished_at_most_once(state, signals);
    }
}

} // verus!
