//! The frame loop as a state machine.
//!
//! The loop itself runs where the window and the device are. After each thing it
//! sees or has done, it hands an `Event` to `FrameLoop::step` and carries out the
//! `Action` that comes back. One cycle records commands, hands them to the queue,
//! presents, signals the fence and waits for it; the first cycle uploads the
//! texture, every later one draws a frame.

use vstd::prelude::*;

verus! {

/// The fence value that the first cycle signals.
pub const FIRST_FENCE_VALUE: u64 = 1;

/// The number of vertical blanks that a present waits for.
pub const SYNC_INTERVAL: u32 = 1;

/// Where a cycle stands.
#[derive(Clone, Copy, Debug, PartialEq, Eq, Structural)]
pub enum Phase {
    /// Between cycles.
    Idle,
    /// The command list is reset and takes commands.
    Recording,
    /// The command list is with the queue.
    Submitted,
    /// The present is issued; the fence is not yet known to have passed.
    Presented,
    /// The fence has passed the value that this cycle signaled.
    Synced,
}

/// Where a cycle stands, with the way through the fence spelled out.
#[derive(Clone, Copy, Debug, PartialEq, Eq, Structural)]
pub enum Step {
    Idle,
    Recording,
    Submitted,
    /// Presented, the fence not yet signaled.
    Presented,
    /// The fence is signaled; its completed value is not yet read.
    Signaled,
    /// The completed value was behind; the loop blocks on the fence.
    Waiting,
    Synced,
}

/// What a cycle records.
#[derive(Clone, Copy, Debug, PartialEq, Eq, Structural)]
pub enum Pass {
    /// The copy of the staged texture into the texture resource.
    Upload,
    /// The clear and the draw of one frame.
    Frame,
}

/// What the loop has seen or done.
#[derive(Clone, Copy, Debug, PartialEq, Eq, Structural)]
pub enum Event {
    /// The resources exist and the texture lies staged.
    Setup,
    /// The window was asked to close.
    CloseRequested,
    /// The window has no more events for now.
    Tick,
    /// Any other event of the window.
    Other,
    /// The commands are recorded and the list is closed.
    Recorded,
    /// The list was handed to the queue.
    Executed,
    /// The present was issued.
    Shown,
    /// The fence was signaled and then its completed value read, which is this.
    FenceRead(u64),
    /// The wait on the fence returned.
    WaitReturned,
    /// The cycle's end was taken note of.
    Retired,
}

/// What the loop is to do next.
#[derive(Clone, Copy, Debug, PartialEq, Eq, Structural)]
pub enum Action {
    /// Nothing: go back to the window's events.
    Nothing,
    /// Leave the loop for good.
    Exit,
    /// Reset allocator and list, record this pass, close the list; then report
    /// `Recorded`.
    Record(Pass),
    /// Hand the list to the queue; then report `Executed`.
    Execute,
    /// Present with this sync interval; then report `Shown`.
    Present { sync_interval: u32 },
    /// Signal the fence with this value from the queue, read the fence's
    /// completed value; then report `FenceRead`.
    Signal { value: u64 },
    /// Block until the fence reaches this value; then report `WaitReturned`.
    Wait { value: u64 },
    /// Nothing outside; report `Retired`.
    Retire,
}

/// The loop's state.
#[derive(Clone, Copy, Debug, PartialEq, Eq, Structural)]
pub struct LoopState {
    /// A close was requested.
    pub closed: bool,
    /// Where the current cycle stands.
    pub step: Step,
    /// What the current cycle records, while one is under way.
    pub pass: Pass,
    /// The texture's upload has passed the fence.
    pub texture_ready: bool,
    /// The value that the current cycle signals, or the next cycle where none is
    /// under way.
    pub fence_value: u64,
    /// The highest value that the fence is known to have passed.
    pub completed: u64,
}

/// The phase that a step belongs to.
pub open spec fn phase_of(step: Step) -> Phase {
    match step {
        Step::Idle => Phase::Idle,
        Step::Recording => Phase::Recording,
        Step::Submitted => Phase::Submitted,
        Step::Presented | Step::Signaled | Step::Waiting => Phase::Presented,
        Step::Synced => Phase::Synced,
    }
}

/// The phase that follows `phase` in a cycle; after the last, the loop is idle
/// again.
pub open spec fn phase_after(phase: Phase) -> Phase {
    match phase {
        Phase::Idle => Phase::Recording,
        Phase::Recording => Phase::Submitted,
        Phase::Submitted => Phase::Presented,
        Phase::Presented => Phase::Synced,
        Phase::Synced => Phase::Idle,
    }
}

/// The state before anything has happened.
pub open spec fn initial() -> LoopState {
    LoopState {
        closed: false,
        step: Step::Idle,
        pass: Pass::Upload,
        texture_ready: false,
        fence_value: FIRST_FENCE_VALUE,
        completed: 0,
    }
}

/// The states that the loop can be in. The fence is known to have passed the
/// cycle's value once the cycle is synced, and until then the value before it and
/// no more: no cycle begins while another is still with the device. A cycle under
/// way has a value that can still be followed by another, and the texture counts
/// as ready only after a value has passed.
pub open spec fn wf(s: LoopState) -> bool {
    &&& s.fence_value >= FIRST_FENCE_VALUE
    &&& (s.step is Synced ==> s.completed == s.fence_value)
    &&& (s.step !is Synced ==> s.completed + 1 == s.fence_value)
    &&& (s.step !is Idle ==> s.fence_value < u64::MAX)
    &&& (s.texture_ready ==> s.completed >= FIRST_FENCE_VALUE)
}

/// The start of a cycle that records `pass`, from a state between cycles: the
/// cycle begins unless the fence has no value left to follow this one, in which
/// case the loop closes.
pub open spec fn begin(s: LoopState, pass: Pass) -> (LoopState, Action) {
    if s.fence_value < u64::MAX {
        (LoopState { step: Step::Recording, pass, ..s }, Action::Record(pass))
    } else {
        (LoopState { closed: true, ..s }, Action::Exit)
    }
}

/// The end of the way through the fence: the cycle's value has passed.
pub open spec fn synced(s: LoopState) -> (LoopState, Action) {
    (LoopState { step: Step::Synced, completed: s.fence_value, ..s }, Action::Retire)
}

/// The state after `event`, and what the loop is to do. An event that the current
/// step does not wait for changes nothing and asks for nothing.
pub open spec fn next(s: LoopState, event: Event) -> (LoopState, Action) {
    match event {
        Event::CloseRequested => (LoopState { closed: true, ..s }, Action::Exit),
        Event::Other => (s, Action::Nothing),
        Event::Setup => if s.step is Idle && !s.closed && !s.texture_ready {
            begin(s, Pass::Upload)
        } else {
            (s, Action::Nothing)
        },
        Event::Tick => if s.step is Idle && !s.closed && s.texture_ready {
            begin(s, Pass::Frame)
        } else {
            (s, Action::Nothing)
        },
        Event::Recorded => if s.step is Recording {
            (LoopState { step: Step::Submitted, ..s }, Action::Execute)
        } else {
            (s, Action::Nothing)
        },
        Event::Executed => if s.step is Submitted {
            (
                LoopState { step: Step::Presented, ..s },
                Action::Present { sync_interval: SYNC_INTERVAL },
            )
        } else {
            (s, Action::Nothing)
        },
        Event::Shown => if s.step is Presented {
            (LoopState { step: Step::Signaled, ..s }, Action::Signal { value: s.fence_value })
        } else {
            (s, Action::Nothing)
        },
        Event::FenceRead(completed) => if s.step is Signaled {
            if completed < s.fence_value {
                (LoopState { step: Step::Waiting, ..s }, Action::Wait { value: s.fence_value })
            } else {
                synced(s)
            }
        } else {
            (s, Action::Nothing)
        },
        Event::WaitReturned => if s.step is Waiting {
            synced(s)
        } else {
            (s, Action::Nothing)
        },
        Event::Retired => if s.step is Synced && s.fence_value < u64::MAX {
            (
                LoopState {
                    step: Step::Idle,
                    fence_value: (s.fence_value + 1) as u64,
                    texture_ready: s.texture_ready || s.pass is Upload,
                    ..s
                },
                Action::Nothing,
            )
        } else {
            (s, Action::Nothing)
        },
    }
}

/// The state after `event` and what the loop is to do, computed.
pub fn advance(s: LoopState, event: Event) -> (out: (LoopState, Action))
    ensures
        out == next(s, event),
{
    let unchanged = (s, Action::Nothing);
    match event {
        Event::CloseRequested => (LoopState { closed: true, ..s }, Action::Exit),
        Event::Other => unchanged,
        Event::Setup => match s.step {
            Step::Idle => if !s.closed && !s.texture_ready {
                start(s, Pass::Upload)
            } else {
                unchanged
            },
            _ => unchanged,
        },
        Event::Tick => match s.step {
            Step::Idle => if !s.closed && s.texture_ready {
                start(s, Pass::Frame)
            } else {
                unchanged
            },
            _ => unchanged,
        },
        Event::Recorded => match s.step {
            Step::Recording => (LoopState { step: Step::Submitted, ..s }, Action::Execute),
            _ => unchanged,
        },
        Event::Executed => match s.step {
            Step::Submitted => (
                LoopState { step: Step::Presented, ..s },
                Action::Present { sync_interval: SYNC_INTERVAL },
            ),
            _ => unchanged,
        },
        Event::Shown => match s.step {
            Step::Presented => (
                LoopState { step: Step::Signaled, ..s },
                Action::Signal { value: s.fence_value },
            ),
            _ => unchanged,
        },
        Event::FenceRead(completed) => match s.step {
            Step::Signaled => if completed < s.fence_value {
                (LoopState { step: Step::Waiting, ..s }, Action::Wait { value: s.fence_value })
            } else {
                (LoopState { step: Step::Synced, completed: s.fence_value, ..s }, Action::Retire)
            },
            _ => unchanged,
        },
        Event::WaitReturned => match s.step {
            Step::Waiting => (
                LoopState { step: Step::Synced, completed: s.fence_value, ..s },
                Action::Retire,
            ),
            _ => unchanged,
        },
        Event::Retired => match s.step {
            Step::Synced => if s.fence_value < u64::MAX {
                let was_upload = match s.pass {
                    Pass::Upload => true,
                    Pass::Frame => false,
                };
                (
                    LoopState {
                        step: Step::Idle,
                        fence_value: s.fence_value + 1,
                        texture_ready: s.texture_ready || was_upload,
                        ..s
                    },
                    Action::Nothing,
                )
            } else {
                unchanged
            },
            _ => unchanged,
        },
    }
}

fn start(s: LoopState, pass: Pass) -> (out: (LoopState, Action))
    ensures
        out == begin(s, pass),
{
    if s.fence_value < u64::MAX {
        (LoopState { step: Step::Recording, pass, ..s }, Action::Record(pass))
    } else {
        (LoopState { closed: true, ..s }, Action::Exit)
    }
}

/// Every event takes a state of the loop to a state of the loop.
pub proof fn lemma_next_keeps_wf(s: LoopState, event: Event)
    requires
        wf(s),
    ensures
        wf(next(s, event).0),
{
}

/// The frame loop: its state, changed by `step` alone.
#[derive(Debug)]
pub struct FrameLoop {
    state: LoopState,
}

impl View for FrameLoop {
    type V = LoopState;

    closed spec fn view(&self) -> LoopState {
        self.state
    }
}

impl FrameLoop {
    #[verifier::type_invariant]
    spec fn inv(self) -> bool {
        wf(self.state)
    }

    /// A loop in which nothing has happened yet: open, between cycles, the
    /// texture not uploaded, the fence at zero and the first value to signal one.
    pub fn new() -> (frame_loop: FrameLoop)
        ensures
            frame_loop@ == initial(),
            wf(frame_loop@),
    {
        FrameLoop {
            state: LoopState {
                closed: false,
                step: Step::Idle,
                pass: Pass::Upload,
                texture_ready: false,
                fence_value: FIRST_FENCE_VALUE,
                completed: 0,
            },
        }
    }

    /// Takes `event` in and says what to do next.
    pub fn step(&mut self, event: Event) -> (action: Action)
        ensures
            (final(self)@, action) == next(old(self)@, event),
            wf(old(self)@),
            wf(final(self)@),
    {
        proof {
            use_type_invariant(&*self);
            lemma_next_keeps_wf(self.state, event);
        }
        let (state, action) = advance(self.state, event);
        self.state = state;
        action
    }

    /// The state.
    pub fn state(&self) -> (s: LoopState)
        ensures
            s == self@,
            wf(s),
    {
        proof {
            use_type_invariant(self);
        }
        self.state
    }

    /// Whether a close was requested.
    pub fn closed(&self) -> (closed: bool)
        ensures
            closed == self@.closed,
    {
        self.state.closed
    }

    /// The phase of the current cycle.
    pub fn phase(&self) -> (phase: Phase)
        ensures
            phase == phase_of(self@.step),
    {
        match self.state.step {
            Step::Idle => Phase::Idle,
            Step::Recording => Phase::Recording,
            Step::Submitted => Phase::Submitted,
            Step::Presented => Phase::Presented,
            Step::Signaled => Phase::Presented,
            Step::Waiting => Phase::Presented,
            Step::Synced => Phase::Synced,
        }
    }

    /// The value that the current cycle signals, or the next one where none is
    /// under way.
    pub fn fence_value(&self) -> (value: u64)
        ensures
            value == self@.fence_value,
    {
        self.state.fence_value
    }
}

/// A cycle goes through its phases in their order and leaves none out: an event
/// leaves the phase as it is or moves it to the next. It leaves the idle phase
/// only by beginning to record, on `Setup` before the upload and on `Tick` after
/// it, and only while the loop is open.
pub proof fn lemma_phases_in_order(s: LoopState, event: Event)
    ensures
        phase_of(next(s, event).0.step) == phase_of(s.step) || phase_of(next(s, event).0.step)
            == phase_after(phase_of(s.step)),
        s.step is Idle && !(next(s, event).0.step is Idle) ==> !s.closed && next(s, event).1
            is Record && (event is Setup || event is Tick),
        next(s, event).1 matches Action::Record(pass) ==> s.step is Idle && next(s, event).0.pass
            == pass && (pass is Upload <==> event is Setup),
{
}

/// The state after a run of events, one after another.
pub open spec fn run(s: LoopState, events: Seq<Event>) -> LoopState
    decreases events.len(),
{
    if events.len() == 0 {
        s
    } else {
        run(next(s, events[0]).0, events.drop_first())
    }
}

/// What the loop was told to do after each event of a run.
pub open spec fn actions(s: LoopState, events: Seq<Event>) -> Seq<Action>
    decreases events.len(),
{
    if events.len() == 0 {
        Seq::<Action>::empty()
    } else {
        seq![next(s, events[0]).1] + actions(next(s, events[0]).0, events.drop_first())
    }
}

/// A run answers each of its events, and what it answers after the first event
/// is what the run from the second state answers.
pub proof fn lemma_actions_unfold(s: LoopState, events: Seq<Event>)
    ensures
        actions(s, events).len() == events.len(),
        events.len() > 0 ==> actions(s, events)[0] == next(s, events[0]).1,
        forall|i: int|
            1 <= i < events.len() ==> #[trigger] actions(s, events)[i] == actions(
                next(s, events[0]).0,
                events.drop_first(),
            )[i - 1],
    decreases events.len(),
{
    if events.len() > 0 {
        lemma_actions_unfold(next(s, events[0]).0, events.drop_first());
    }
}

/// A run takes a state of the loop to a state of the loop.
pub proof fn lemma_run_keeps_wf(s: LoopState, events: Seq<Event>)
    requires
        wf(s),
    ensures
        wf(run(s, events)),
    decreases events.len(),
{
    if events.len() > 0 {
        lemma_next_keeps_wf(s, events[0]);
        lemma_run_keeps_wf(next(s, events[0]).0, events.drop_first());
    }
}

/// The fence is only ever signaled with a value above the one it is known to have
/// passed, and the value is the cycle's own. Once the loop has read a completed
/// value that reaches it, or the wait has returned, the value that the fence is
/// known to have passed is the one signaled. Neither value ever goes down.
pub proof fn lemma_fence_monotone(s: LoopState, event: Event)
    requires
        wf(s),
    ensures
        next(s, event).1 matches Action::Signal { value } ==> value == s.fence_value && value
            > s.completed,
        next(s, event).1 matches Action::Wait { value } ==> value == s.fence_value && value
            > s.completed && event is FenceRead && event->FenceRead_0 < value,
        next(s, event).1 is Retire ==> next(s, event).0.completed == s.fence_value && next(
            s,
            event,
        ).0.completed > s.completed,
        s.step is Waiting && event is WaitReturned ==> next(s, event).0.completed >= s.fence_value,
        next(s, event).0.completed >= s.completed,
        next(s, event).0.fence_value >= s.fence_value,
        next(s, event).0.fence_value > s.fence_value <==> s.step is Synced && event is Retired,
{
}

/// The fence has been signaled in the cycle under way.
pub open spec fn past_signal(step: Step) -> bool {
    step is Signaled || step is Waiting || step is Synced
}

/// Every value that a run signals is at least the value of the state it starts
/// from, and above it where that state's cycle has signaled already.
proof fn lemma_signals_from(s: LoopState, events: Seq<Event>, at: int)
    requires
        wf(s),
        0 <= at < events.len(),
        actions(s, events)[at] is Signal,
    ensures
        actions(s, events)[at]->Signal_value >= s.fence_value,
        past_signal(s.step) ==> actions(s, events)[at]->Signal_value > s.fence_value,
    decreases events.len(),
{
    lemma_actions_unfold(s, events);
    if at > 0 {
        lemma_next_keeps_wf(s, events[0]);
        lemma_signals_from(next(s, events[0]).0, events.drop_first(), at - 1);
    }
}

/// The values that a run signals go strictly up: of two signals in one run, the
/// later has the greater value.
pub proof fn lemma_signals_increase(s: LoopState, events: Seq<Event>, earlier: int, later: int)
    requires
        wf(s),
        0 <= earlier < later < events.len(),
        actions(s, events)[earlier] is Signal,
        actions(s, events)[later] is Signal,
    ensures
        actions(s, events)[earlier]->Signal_value < actions(s, events)[later]->Signal_value,
    decreases events.len(),
{
    lemma_actions_unfold(s, events);
    lemma_next_keeps_wf(s, events[0]);
    if earlier == 0 {
        lemma_signals_from(next(s, events[0]).0, events.drop_first(), later - 1);
    } else {
        lemma_signals_increase(next(s, events[0]).0, events.drop_first(), earlier - 1, later - 1);
    }
}

/// A request to close is answered at once with `Exit`, in every state, and the
/// loop is closed from then on.
pub proof fn lemma_close_exits(s: LoopState)
    ensures
        next(s, Event::CloseRequested).1 == Action::Exit,
        next(s, Event::CloseRequested).0.closed,
{
}

/// A closed loop stays closed and begins no cycle: whatever comes, it is never
/// told to record.
pub proof fn lemma_closed_begins_nothing(s: LoopState, events: Seq<Event>, at: int)
    requires
        s.closed,
        0 <= at < events.len(),
    ensures
        run(s, events).closed,
        !(actions(s, events)[at] is Record),
    decreases events.len(),
{
    lemma_actions_unfold(s, events);
    lemma_closed_stays_closed(s, events);
    if at > 0 {
        lemma_closed_begins_nothing(next(s, events[0]).0, events.drop_first(), at - 1);
    }
}

/// A closed loop stays closed.
pub proof fn lemma_closed_stays_closed(s: LoopState, events: Seq<Event>)
    requires
        s.closed,
    ensures
        run(s, events).closed,
    decreases events.len(),
{
    if events.len() > 0 {
        lemma_closed_stays_closed(next(s, events[0]).0, events.drop_first());
    }
}

/// A loop that is closed between cycles does nothing more: whatever comes, its
/// state stays as it is, and it is told to do nothing or, on another request to
/// close, to exit. It records, hands over, presents, signals and waits no more.
pub proof fn lemma_closed_idle_is_final(s: LoopState, events: Seq<Event>, at: int)
    requires
        s.closed,
        s.step is Idle,
        0 <= at < events.len(),
    ensures
        run(s, events) == s,
        actions(s, events)[at] is Nothing || actions(s, events)[at] is Exit,
    decreases events.len(),
{
    lemma_actions_unfold(s, events);
    lemma_closed_idle_rests(s, events);
    if at > 0 {
        lemma_closed_idle_is_final(next(s, events[0]).0, events.drop_first(), at - 1);
    }
}

/// A loop that is closed between cycles keeps its state.
pub proof fn lemma_closed_idle_rests(s: LoopState, events: Seq<Event>)
    requires
        s.closed,
        s.step is Idle,
    ensures
        run(s, events) == s,
    decreases events.len(),
{
    if events.len() > 0 {
        lemma_closed_idle_rests(next(s, events[0]).0, events.drop_first());
    }
}

/// Allocator and list are reset only when the device is done with them: where
/// the loop is told to record, it is between cycles and the fence has passed the
/// value of the cycle before, which is the last that was signaled.
pub proof fn lemma_record_finds_device_done(s: LoopState, event: Event)
    requires
        wf(s),
    ensures
        next(s, event).1 is Record ==> s.step is Idle && s.completed + 1 == s.fence_value,
        next(s, event).1 is Record ==> next(s, event).0.fence_value == s.fence_value,
{
}

/// No frame is recorded before the texture's upload has passed the fence: where
/// the loop is told to record a frame, the texture is ready.
pub proof fn lemma_frame_needs_texture(s: LoopState, event: Event)
    requires
        wf(s),
    ensures
        next(s, event).1 == Action::Record(Pass::Frame) ==> s.texture_ready && s.completed
            >= FIRST_FENCE_VALUE,
        next(s, event).0.texture_ready && !s.texture_ready ==> s.step is Synced && s.pass
            is Upload && event is Retired,
{
}

} // verus!
