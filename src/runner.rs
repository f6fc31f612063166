use vstd::prelude::*;

verus! {

/// Where the synchronization loop stands in its life.
#[derive(Clone, Copy, Debug, PartialEq, Eq, Structural)]
pub enum Phase {
    Starting,
    Running,
    Closing,
}

/// How the epoch stamped on display lists moves between submissions.
#[derive(Clone, Copy, Debug, PartialEq, Eq, Structural)]
pub enum EpochPolicy {
    /// Every submission carries the epoch the loop started with.
    Fixed,
    /// Each submission carries the next epoch, stopping at the largest one.
    Incrementing,
}

/// What the loop needs to know of a native event.
#[derive(Clone, Copy, Debug, PartialEq, Eq, Structural)]
pub enum EventKind {
    /// The window was asked to close.
    Close,
    /// Anything else: it goes to the application.
    Other,
}

/// The loop's decision on one event of a batch.
#[derive(Clone, Copy, Debug, PartialEq, Eq, Structural)]
pub enum Step {
    /// Hand the event to the application and report back whether it asks for a redraw.
    Forward,
    /// Stop: the rest of the batch is dropped and the loop closes.
    Stop,
}

/// Work that the caller performs on the window and the compositor, in order.
#[derive(Clone, Copy, Debug, PartialEq, Eq, Structural)]
pub enum Action {
    /// Push the current framebuffer size, rectangle and pixel ratio to the compositor.
    SetWindowParameters,
    /// Take the application's resource updates and a fresh display list, and submit
    /// both under this epoch.
    SubmitDisplayList { epoch: u32 },
    /// Ask the compositor to build the next frame.
    GenerateFrame,
    /// Update the renderer and render into the current framebuffer size.
    Render,
    /// Swap the window's buffers.
    Present,
    /// Release the compositor's GPU resources.
    Deinit,
}

/// The abstract state of a `Runner`.
pub struct LoopState {
    pub phase: Phase,
    /// An iteration is under way: its batch of events is being read.
    pub in_batch: bool,
    /// An event was forwarded and the application's answer is not yet in.
    pub awaiting_reply: bool,
    /// What the application's own redraw request was when the iteration began.
    pub seed: bool,
    /// The application's answers to the events forwarded in this iteration, in order.
    pub replies: Seq<bool>,
    /// The epoch that the next submission carries.
    pub epoch: u32,
    pub policy: EpochPolicy,
    /// The compositor has been told to release its resources.
    pub torn_down: bool,
}

/// Whether an iteration redraws: the application asked for it before the batch,
/// or one of the events it handled asked for it.
pub open spec fn redraw_intent(seed: bool, replies: Seq<bool>) -> bool {
    seed || exists|j: int| 0 <= j < replies.len() && #[trigger] replies[j]
}

/// The actions of one iteration that ran to its end.
pub open spec fn iteration_plan(intent: bool, epoch: u32) -> Seq<Action> {
    if intent {
        seq![
            Action::SetWindowParameters,
            Action::SubmitDisplayList { epoch },
            Action::GenerateFrame,
            Action::Render,
            Action::Present,
        ]
    } else {
        seq![Action::GenerateFrame, Action::Render, Action::Present]
    }
}

/// The epoch after an iteration that did or did not submit a display list.
pub open spec fn next_epoch(policy: EpochPolicy, epoch: u32, submitted: bool) -> u32 {
    if submitted && policy == EpochPolicy::Incrementing && epoch < u32::MAX {
        (epoch + 1) as u32
    } else {
        epoch
    }
}

pub open spec fn initial_state(policy: EpochPolicy, epoch: u32) -> LoopState {
    LoopState {
        phase: Phase::Starting,
        in_batch: false,
        awaiting_reply: false,
        seed: false,
        replies: Seq::empty(),
        epoch,
        policy,
        torn_down: false,
    }
}

pub open spec fn started(s: LoopState) -> LoopState {
    LoopState { phase: Phase::Running, ..s }
}

pub open spec fn iteration_begun(s: LoopState, should_redraw: bool) -> LoopState {
    LoopState { in_batch: true, awaiting_reply: false, seed: should_redraw, replies: Seq::empty(), ..s }
}

pub open spec fn event_seen(s: LoopState, kind: EventKind) -> LoopState {
    match kind {
        EventKind::Close => LoopState { phase: Phase::Closing, in_batch: false, ..s },
        EventKind::Other => LoopState { awaiting_reply: true, ..s },
    }
}

pub open spec fn reply_recorded(s: LoopState, redraw: bool) -> LoopState {
    LoopState { awaiting_reply: false, replies: s.replies.push(redraw), ..s }
}

pub open spec fn iteration_ended(s: LoopState) -> LoopState {
    LoopState {
        in_batch: false,
        epoch: next_epoch(s.policy, s.epoch, redraw_intent(s.seed, s.replies)),
        ..s
    }
}

/// The loop between iterations, ready for the next wake-up.
pub open spec fn idle(s: LoopState) -> bool {
    s.phase == Phase::Running && !s.in_batch
}

/// The loop in a batch, ready for the next event.
pub open spec fn reading(s: LoopState) -> bool {
    s.phase == Phase::Running && s.in_batch && !s.awaiting_reply
}

/// The decision core of the synchronization loop. The caller waits for native
/// events, asks the application, and performs the returned actions; the runner
/// decides which events are forwarded, whether an iteration redraws, which epoch
/// a submission carries, and when the compositor is torn down.
pub struct Runner {
    phase: Phase,
    in_batch: bool,
    awaiting_reply: bool,
    redraw: bool,
    epoch: u32,
    policy: EpochPolicy,
    torn_down: bool,
    seed: Ghost<bool>,
    replies: Ghost<Seq<bool>>,
}

impl View for Runner {
    type V = LoopState;

    closed spec fn view(&self) -> LoopState {
        LoopState {
            phase: self.phase,
            in_batch: self.in_batch,
            awaiting_reply: self.awaiting_reply,
            seed: self.seed@,
            replies: self.replies@,
            epoch: self.epoch,
            policy: self.policy,
            torn_down: self.torn_down,
        }
    }
}

impl Runner {
    /// The runner's private state agrees with its abstract state: the redraw
    /// flag is the iteration's intent so far, and the flags nest as the
    /// phases allow.
    pub closed spec fn wf(&self) -> bool {
        &&& self.in_batch ==> self.phase == Phase::Running
        &&& self.awaiting_reply ==> self.in_batch
        &&& self.torn_down ==> self.phase == Phase::Closing
        &&& self.in_batch ==> self.redraw == redraw_intent(self.seed@, self.replies@)
    }

    /// A runner that has not started yet, whose first submission carries `epoch`.
    pub fn new(policy: EpochPolicy, epoch: u32) -> (r: Runner)
        ensures
            r.wf(),
            r@ == initial_state(policy, epoch),
    {
        Runner {
            phase: Phase::Starting,
            in_batch: false,
            awaiting_reply: false,
            redraw: false,
            epoch,
            policy,
            torn_down: false,
            seed: Ghost(false),
            replies: Ghost(Seq::empty()),
        }
    }

    /// The window, the context and the compositor are up: the loop runs.
    pub fn start(&mut self)
        requires
            old(self).wf(),
            old(self)@.phase == Phase::Starting,
        ensures
            final(self).wf(),
            final(self)@ == started(old(self)@),
    {
        self.phase = Phase::Running;
    }

    /// A wake-up begins an iteration; `should_redraw` is the application's own
    /// request, which seeds the iteration's redraw intent.
    pub fn begin_iteration(&mut self, should_redraw: bool)
        requires
            old(self).wf(),
            idle(old(self)@),
        ensures
            final(self).wf(),
            final(self)@ == iteration_begun(old(self)@, should_redraw),
            final(self).intent() == should_redraw,
    {
        self.in_batch = true;
        self.redraw = should_redraw;
        self.seed = Ghost(should_redraw);
        self.replies = Ghost(Seq::empty());
    }

    /// The next event of the batch, in arrival order. A close request stops the
    /// batch and closes the loop; any other event goes to the application.
    pub fn on_event(&mut self, kind: EventKind) -> (r: Step)
        requires
            old(self).wf(),
            reading(old(self)@),
        ensures
            final(self).wf(),
            final(self)@ == event_seen(old(self)@, kind),
            r == Step::Stop <==> kind == EventKind::Close,
            kind == EventKind::Close ==> final(self)@.phase == Phase::Closing,
            kind == EventKind::Other ==> final(self)@.phase == Phase::Running,
    {
        match kind {
            EventKind::Close => {
                self.phase = Phase::Closing;
                self.in_batch = false;
                Step::Stop
            },
            EventKind::Other => {
                self.awaiting_reply = true;
                Step::Forward
            },
        }
    }

    /// The application's answer to the event just forwarded: whether it asks
    /// for a redraw. The iteration's intent is the or of all answers and the seed.
    pub fn record_reply(&mut self, redraw: bool)
        requires
            old(self).wf(),
            old(self)@.phase == Phase::Running,
            old(self)@.awaiting_reply,
        ensures
            final(self).wf(),
            final(self)@ == reply_recorded(old(self)@, redraw),
            final(self).intent() == (old(self).intent() || redraw),
    {
        let ghost before = self.replies@;
        self.awaiting_reply = false;
        self.redraw = self.redraw || redraw;
        self.replies = Ghost(before.push(redraw));
        proof {
            let after = before.push(redraw);
            assert forall|j: int| 0 <= j < before.len() implies after[j] == before[j] by {}
            if redraw {
                assert(after[before.len() as int]);
            }
            if redraw_intent(self.seed@, after) && !self.seed@ && !redraw {
                let j = choose|j: int| 0 <= j < after.len() && #[trigger] after[j];
                assert(j < before.len());
                assert(before[j]);
            }
        }
    }

    /// The batch is drained without a close: the actions that finish the
    /// iteration. The window parameters and a display list go to the compositor
    /// exactly when the iteration redraws; a frame is generated, rendered and
    /// presented every time.
    pub fn end_iteration(&mut self) -> (r: Vec<Action>)
        requires
            old(self).wf(),
            reading(old(self)@),
        ensures
            final(self).wf(),
            final(self)@ == iteration_ended(old(self)@),
            r@ == iteration_plan(redraw_intent(old(self)@.seed, old(self)@.replies), old(self)@.epoch),
            r@ == iteration_plan(old(self).intent(), old(self)@.epoch),
            old(self).intent() == redraw_intent(old(self)@.seed, old(self)@.replies),
    {
        let mut r: Vec<Action> = Vec::new();
        if self.redraw {
            r.push(Action::SetWindowParameters);
            r.push(Action::SubmitDisplayList { epoch: self.epoch });
            if self.policy == EpochPolicy::Incrementing && self.epoch < u32::MAX {
                self.epoch = self.epoch + 1;
            }
        }
        r.push(Action::GenerateFrame);
        r.push(Action::Render);
        r.push(Action::Present);
        self.in_batch = false;
        assert(r@ =~= iteration_plan(self.redraw, old(self)@.epoch));
        r
    }

    /// After a close: the actions that end the loop. The compositor is torn
    /// down on the first call and never again.
    pub fn teardown(&mut self) -> (r: Vec<Action>)
        requires
            old(self).wf(),
            old(self)@.phase == Phase::Closing,
        ensures
            final(self).wf(),
            final(self)@ == (LoopState { torn_down: true, ..old(self)@ }),
            r@ == (if old(self)@.torn_down { Seq::<Action>::empty() } else { seq![Action::Deinit] }),
    {
        let mut r: Vec<Action> = Vec::new();
        if !self.torn_down {
            r.push(Action::Deinit);
            self.torn_down = true;
        }
        assert(r@ =~= (if old(self)@.torn_down { Seq::<Action>::empty() } else { seq![Action::Deinit] }));
        r
    }

    /// The redraw intent of the iteration under way, as far as it has been read.
    pub closed spec fn intent(&self) -> bool {
        self.redraw
    }

    pub fn phase(&self) -> (r: Phase)
        ensures
            r == self@.phase,
    {
        self.phase
    }

    pub fn redraw_requested(&self) -> (r: bool)
        requires
            self.wf(),
        ensures
            r == self.intent(),
            self@.in_batch ==> r == redraw_intent(self@.seed, self@.replies),
    {
        self.redraw
    }

    pub fn epoch(&self) -> (r: u32)
        ensures
            r == self@.epoch,
    {
        self.epoch
    }

    pub fn policy(&self) -> (r: EpochPolicy)
        ensures
            r == self@.policy,
    {
        self.policy
    }

    pub fn is_torn_down(&self) -> (r: bool)
        ensures
            r == self@.torn_down,
    {
        self.torn_down
    }
}

} // verus!
