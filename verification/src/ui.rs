//! UI subsystem model: the per-cycle state machine
//! `Idle -> TimeAdvanced -> EventsApplied -> FrameBuilt -> BuffersSynced -> Idle`,
//! the elapsed-time clock, the replaceable paint-job list with its GPU-side
//! mirror, and the outbound message queue.
//!
//! The immediate-mode UI runtime itself (layout, hit testing,
//! tessellation) is an external collaborator: the host runs it and hands
//! its per-frame outcome to this model as a [`FrameOutput`].

use vstd::prelude::*;

verus! {

/// A message emitted by UI interaction, delivered through the outbound
/// queue to a future consumer.
#[derive(Clone, Copy, Debug, PartialEq, Eq, Structural)]
pub enum Message {
    /// The "File -> Open" menu action was triggered.
    Open,
}

/// A key the host reported as pressed. Only the escape key carries
/// meaning for the core; every other key is `Other`.
#[derive(Clone, Copy, Debug, PartialEq, Eq, Structural)]
pub enum Key {
    Escape,
    Other,
}

/// A discrete event delivered by the windowing host, reduced to the
/// plain values the core's decisions read.
#[derive(Clone, Copy, Debug, PartialEq, Eq, Structural)]
pub enum HostEvent {
    /// The window was resized to the given physical pixel dimensions.
    Resized(u32, u32),
    /// The user asked to close the window.
    CloseRequested,
    /// A key went down.
    KeyPressed(Key),
    /// The host asks for a redraw of the window.
    RedrawRequested,
    /// The host finished flushing redraw requests for this loop turn.
    RedrawEventsCleared,
    /// Any event the core does not recognize; ignored, not an error.
    Other,
}

/// One tessellated batch of UI draw geometry, ready for GPU upload:
/// counts of the geometry plus the texture it samples from.
#[derive(Clone, Copy, Debug, PartialEq, Eq, Structural)]
pub struct PaintJob {
    pub vertex_count: usize,
    pub index_count: usize,
    /// Identifier of the texture this batch samples from.
    pub texture_id: u64,
}

/// The screen geometry a buffer synchronization or draw pass is sized
/// to. The display scale factor is carried in thousandths, so a scale
/// of 1.0 is 1000.
#[derive(Clone, Copy, Debug, PartialEq, Eq, Structural)]
pub struct ScreenSpec {
    pub physical_width: u32,
    pub physical_height: u32,
    pub scale_factor_millis: u32,
}

/// What the immediate-mode UI runtime produced for one frame build:
/// the tessellated paint jobs, whether the "Open" menu action was
/// triggered, and the content version of the runtime's font atlas.
#[derive(Clone, Debug)]
pub struct FrameOutput {
    pub jobs: Vec<PaintJob>,
    pub open_clicked: bool,
    pub texture_version: u64,
}

/// Position of an update cycle within the per-frame state machine.
#[derive(Clone, Copy, Debug, PartialEq, Eq, Structural)]
pub enum UiStep {
    Idle,
    TimeAdvanced,
    EventsApplied,
    FrameBuilt,
    BuffersSynced,
}

/// The clock value after one cycle advances `clock_micros` by a
/// host-reported delta of `delta_micros` microseconds: negative or zero
/// deltas advance by nothing, and an advance past the largest
/// representable value stops there.
pub open spec fn advanced_clock(clock_micros: u64, delta_micros: i64) -> u64 {
    if delta_micros <= 0 {
        clock_micros
    } else if clock_micros as int + delta_micros as int <= u64::MAX as int {
        (clock_micros as int + delta_micros as int) as u64
    } else {
        u64::MAX
    }
}

/// The clock value after a whole sequence of cycles, one host-reported
/// delta per cycle.
pub open spec fn clock_after_cycles(clock_micros: u64, deltas: Seq<i64>) -> u64
    decreases deltas.len(),
{
    if deltas.len() == 0 {
        clock_micros
    } else {
        clock_after_cycles(advanced_clock(clock_micros, deltas[0]), deltas.drop_first())
    }
}

/// One cycle never moves the clock backwards, whatever delta the host
/// reports.
pub proof fn lemma_clock_never_regresses(clock_micros: u64, delta_micros: i64)
    ensures
        advanced_clock(clock_micros, delta_micros) >= clock_micros,
{
}

/// The UI clock is monotonically non-decreasing across any sequence of
/// cycles, regardless of the host-reported deltas.
pub proof fn lemma_clock_monotone(clock_micros: u64, deltas: Seq<i64>)
    ensures
        clock_after_cycles(clock_micros, deltas) >= clock_micros,
    decreases deltas.len(),
{
    if deltas.len() > 0 {
        lemma_clock_never_regresses(clock_micros, deltas[0]);
        lemma_clock_monotone(advanced_clock(clock_micros, deltas[0]), deltas.drop_first());
    }
}

/// The outbound queue after one frame build: triggering the "Open"
/// action enqueues exactly one [`Message::Open`], and nothing happens
/// otherwise.
pub open spec fn enqueued_messages(messages: Seq<Message>, open_clicked: bool) -> Seq<Message> {
    if open_clicked {
        messages.push(Message::Open)
    } else {
        messages
    }
}

/// The outbound queue after a whole sequence of cycles, one menu
/// outcome per cycle.
pub open spec fn messages_after_cycles(messages: Seq<Message>, clicks: Seq<bool>) -> Seq<Message>
    decreases clicks.len(),
{
    if clicks.len() == 0 {
        messages
    } else {
        messages_after_cycles(enqueued_messages(messages, clicks[0]), clicks.drop_first())
    }
}

/// How often the "Open" action was triggered over a sequence of
/// cycles.
pub open spec fn count_triggers(clicks: Seq<bool>) -> nat
    decreases clicks.len(),
{
    if clicks.len() == 0 {
        0
    } else {
        (if clicks[0] { 1nat } else { 0nat }) + count_triggers(clicks.drop_first())
    }
}

/// Messages are neither lost nor duplicated, and never reordered: over
/// any sequence of cycles the queue grows by exactly one message per
/// triggered "Open" action, every new message is [`Message::Open`],
/// and the queue already present stays in place, in order.
pub proof fn lemma_messages_neither_lost_nor_duplicated(messages: Seq<Message>, clicks: Seq<bool>)
    ensures
        messages_after_cycles(messages, clicks).len() == messages.len() + count_triggers(clicks),
        messages_after_cycles(messages, clicks).take(messages.len() as int) == messages,
        forall|i: int| messages.len() <= i < messages_after_cycles(messages, clicks).len()
            ==> messages_after_cycles(messages, clicks)[i] == Message::Open,
    decreases clicks.len(),
{
    if clicks.len() > 0 {
        let once = enqueued_messages(messages, clicks[0]);
        lemma_messages_neither_lost_nor_duplicated(once, clicks.drop_first());
        let all = messages_after_cycles(messages, clicks);
        assert(all.take(messages.len() as int) =~= once.take(messages.len() as int));
        assert(once.take(messages.len() as int) =~= messages);
    } else {
        assert(messages_after_cycles(messages, clicks).take(messages.len() as int) =~= messages);
    }
}

/// UI subsystem state: the step of the current cycle, the clock, the
/// paint jobs of the last completed frame build, the GPU-side mirror of
/// jobs / screen geometry / font atlas, and the outbound message queue
/// (unbounded, first in first out, single consumer to be added later).
#[derive(Clone, Debug)]
pub struct Ui {
    pub step: UiStep,
    /// Elapsed-time clock in microseconds.
    pub clock_micros: u64,
    /// Paint jobs of the most recent completed frame build; replaced
    /// wholesale every cycle, never appended to.
    pub paint_jobs: Vec<PaintJob>,
    /// Content version of the UI runtime's font atlas after the most
    /// recent frame build.
    pub font_texture_version: u64,
    /// GPU-side mirror of `paint_jobs` as of the last buffer sync.
    pub synced_jobs: Vec<PaintJob>,
    /// Screen geometry the GPU buffers were last sized to.
    pub synced_screen: ScreenSpec,
    /// Font atlas version last uploaded to the GPU.
    pub synced_texture_version: u64,
    /// Outbound message queue, oldest first.
    pub messages: Vec<Message>,
}

impl Ui {
    /// Between cycles the GPU-side buffers reflect exactly the
    /// immediately preceding completed frame build — never a partial
    /// one.
    pub open spec fn wf(self) -> bool {
        self.step is Idle ==> {
            &&& self.synced_jobs@ == self.paint_jobs@
            &&& self.synced_texture_version == self.font_texture_version
        }
    }

    /// The state a fresh UI subsystem starts in: idle, clock at zero,
    /// no paint jobs, nothing queued.
    pub open spec fn is_init(self) -> bool {
        &&& self.step is Idle
        &&& self.clock_micros == 0
        &&& self.paint_jobs@ == Seq::<PaintJob>::empty()
        &&& self.font_texture_version == 0
        &&& self.synced_jobs@ == Seq::<PaintJob>::empty()
        &&& self.synced_screen == (ScreenSpec { physical_width: 0, physical_height: 0, scale_factor_millis: 0 })
        &&& self.synced_texture_version == 0
        &&& self.messages@ == Seq::<Message>::empty()
    }

    /// Creates the UI subsystem in its initial state.
    pub fn new() -> (u: Ui)
        ensures
            u.is_init(),
            u.wf(),
    {
        Ui {
            step: UiStep::Idle,
            clock_micros: 0,
            paint_jobs: Vec::new(),
            font_texture_version: 0,
            synced_jobs: Vec::new(),
            synced_screen: ScreenSpec { physical_width: 0, physical_height: 0, scale_factor_millis: 0 },
            synced_texture_version: 0,
            messages: Vec::new(),
        }
    }

    /// `TimeAdvanced`: the clock advances by the host-reported
    /// wall-clock delta since the previous cycle. It never regresses:
    /// negative or zero deltas advance it by nothing.
    pub fn advance_time(&mut self, delta_micros: i64)
        requires
            old(self).step is Idle,
        ensures
            final(self).step is TimeAdvanced,
            final(self).clock_micros == advanced_clock(old(self).clock_micros, delta_micros),
            final(self).clock_micros >= old(self).clock_micros,
            final(self).paint_jobs == old(self).paint_jobs,
            final(self).font_texture_version == old(self).font_texture_version,
            final(self).synced_jobs == old(self).synced_jobs,
            final(self).synced_screen == old(self).synced_screen,
            final(self).synced_texture_version == old(self).synced_texture_version,
            final(self).messages == old(self).messages,
    {
        if delta_micros > 0 {
            let delta: u64 = delta_micros as u64;
            if self.clock_micros <= u64::MAX - delta {
                self.clock_micros = self.clock_micros + delta;
            } else {
                self.clock_micros = u64::MAX;
            }
        }
        self.step = UiStep::TimeAdvanced;
    }

    /// `EventsApplied`: one external input event is handed to the UI
    /// runtime, which translates it into its internal representation;
    /// unrecognized events are ignored, never errors. The model records
    /// only that exactly one event was applied in this cycle; the
    /// translation itself belongs to the external UI runtime.
    pub fn apply_event(&mut self, event: &HostEvent)
        requires
            old(self).step is TimeAdvanced,
        ensures
            final(self).step is EventsApplied,
            final(self).clock_micros == old(self).clock_micros,
            final(self).paint_jobs == old(self).paint_jobs,
            final(self).font_texture_version == old(self).font_texture_version,
            final(self).synced_jobs == old(self).synced_jobs,
            final(self).synced_screen == old(self).synced_screen,
            final(self).synced_texture_version == old(self).synced_texture_version,
            final(self).messages == old(self).messages,
    {
        let _ = event;
        self.step = UiStep::EventsApplied;
    }

    /// The menu bar's reaction to one frame: triggering the
    /// "File -> Open" action enqueues exactly one [`Message::Open`] on
    /// the outbound queue — no loss, no duplication, and the queue is
    /// unbounded so the caller never blocks.
    fn menu_bar(&mut self, open_clicked: bool)
        ensures
            final(self).messages@ == enqueued_messages(old(self).messages@, open_clicked),
            final(self).step == old(self).step,
            final(self).clock_micros == old(self).clock_micros,
            final(self).paint_jobs == old(self).paint_jobs,
            final(self).font_texture_version == old(self).font_texture_version,
            final(self).synced_jobs == old(self).synced_jobs,
            final(self).synced_screen == old(self).synced_screen,
            final(self).synced_texture_version == old(self).synced_texture_version,
    {
        if open_clicked {
            self.messages.push(Message::Open);
        }
    }

    /// `FrameBuilt`: a new immediate-mode frame was begun, the
    /// declarative UI (one top menu bar with a "File -> Open" action)
    /// evaluated, the frame ended and its draw commands tessellated.
    /// The paint-job list is replaced wholesale — never appended to —
    /// and the menu action's outcome is enqueued.
    pub fn build_frame(&mut self, frame: FrameOutput)
        requires
            old(self).step is EventsApplied,
        ensures
            final(self).step is FrameBuilt,
            final(self).paint_jobs@ == frame.jobs@,
            final(self).font_texture_version == frame.texture_version,
            final(self).messages@ == enqueued_messages(old(self).messages@, frame.open_clicked),
            final(self).clock_micros == old(self).clock_micros,
            final(self).synced_jobs == old(self).synced_jobs,
            final(self).synced_screen == old(self).synced_screen,
            final(self).synced_texture_version == old(self).synced_texture_version,
    {
        self.menu_bar(frame.open_clicked);
        self.paint_jobs = frame.jobs;
        self.font_texture_version = frame.texture_version;
        self.step = UiStep::FrameBuilt;
    }

    /// `BuffersSynced`: the font atlas upload is brought up to the
    /// version of the frame just built (idempotent, content-addressed
    /// by the runtime), and the vertex/index buffers are rewritten to
    /// mirror exactly the paint jobs of that frame, sized to the given
    /// screen geometry.
    pub fn sync_buffers(&mut self, screen: ScreenSpec)
        requires
            old(self).step is FrameBuilt,
        ensures
            final(self).step is BuffersSynced,
            final(self).synced_jobs@ == old(self).paint_jobs@,
            final(self).synced_screen == screen,
            final(self).synced_texture_version == old(self).font_texture_version,
            final(self).clock_micros == old(self).clock_micros,
            final(self).paint_jobs == old(self).paint_jobs,
            final(self).font_texture_version == old(self).font_texture_version,
            final(self).messages == old(self).messages,
    {
        self.synced_jobs = copy_jobs(&self.paint_jobs);
        self.synced_screen = screen;
        self.synced_texture_version = self.font_texture_version;
        self.step = UiStep::BuffersSynced;
    }

    /// Closes the cycle: back to `Idle`. The buffers were just synced,
    /// so the between-cycles invariant [`Ui::wf`] holds again.
    pub fn complete_cycle(&mut self)
        requires
            old(self).step is BuffersSynced,
            old(self).synced_jobs@ == old(self).paint_jobs@,
            old(self).synced_texture_version == old(self).font_texture_version,
        ensures
            final(self).step is Idle,
            final(self).wf(),
            final(self).clock_micros == old(self).clock_micros,
            final(self).paint_jobs == old(self).paint_jobs,
            final(self).font_texture_version == old(self).font_texture_version,
            final(self).synced_jobs == old(self).synced_jobs,
            final(self).synced_screen == old(self).synced_screen,
            final(self).synced_texture_version == old(self).synced_texture_version,
            final(self).messages == old(self).messages,
    {
        self.step = UiStep::Idle;
    }

    /// One complete update cycle, the five steps in order. After it the
    /// clock has advanced by the (clamped) host delta, the paint jobs
    /// and the GPU-side buffers both hold exactly the jobs of this
    /// frame build, the buffers are sized to `screen`, and the outbound
    /// queue has grown by exactly one [`Message::Open`] if and only if
    /// the "Open" action was triggered.
    pub fn update(&mut self, delta_micros: i64, event: &HostEvent, frame: FrameOutput, screen: ScreenSpec)
        requires
            old(self).step is Idle,
        ensures
            final(self).step is Idle,
            final(self).wf(),
            final(self).clock_micros == advanced_clock(old(self).clock_micros, delta_micros),
            final(self).clock_micros >= old(self).clock_micros,
            final(self).paint_jobs@ == frame.jobs@,
            final(self).synced_jobs@ == frame.jobs@,
            final(self).synced_screen == screen,
            final(self).font_texture_version == frame.texture_version,
            final(self).synced_texture_version == frame.texture_version,
            final(self).messages@ == enqueued_messages(old(self).messages@, frame.open_clicked),
    {
        self.advance_time(delta_micros);
        self.apply_event(event);
        self.build_frame(frame);
        self.sync_buffers(screen);
        self.complete_cycle();
    }

    /// Takes the oldest outbound message, if any: the queue is first in
    /// first out and consuming it changes nothing else.
    pub fn next_message(&mut self) -> (m: Option<Message>)
        ensures
            old(self).messages@.len() == 0 ==> m is None && final(self).messages@ == old(self).messages@,
            old(self).messages@.len() > 0 ==> {
                &&& m == Some(old(self).messages@[0])
                &&& final(self).messages@ == old(self).messages@.drop_first()
            },
            final(self).step == old(self).step,
            final(self).clock_micros == old(self).clock_micros,
            final(self).paint_jobs == old(self).paint_jobs,
            final(self).font_texture_version == old(self).font_texture_version,
            final(self).synced_jobs == old(self).synced_jobs,
            final(self).synced_screen == old(self).synced_screen,
            final(self).synced_texture_version == old(self).synced_texture_version,
    {
        if self.messages.len() == 0 {
            None
        } else {
            let m = self.messages.remove(0);
            assert(self.messages@ =~= old(self).messages@.drop_first());
            Some(m)
        }
    }
}

/// Copies a paint-job list element for element, for mirroring it into
/// the GPU-side buffers or a command plan.
pub(crate) fn copy_jobs(jobs: &Vec<PaintJob>) -> (r: Vec<PaintJob>)
    ensures
        r@ == jobs@,
{
    let mut r: Vec<PaintJob> = Vec::new();
    let mut i: usize = 0;
    while i < jobs.len()
        invariant
            i <= jobs.len(),
            r@ == jobs@.subrange(0, i as int),
        decreases jobs.len() - i,
    {
        r.push(jobs[i]);
        assert(r@ =~= jobs@.subrange(0, i as int + 1));
        i = i + 1;
    }
    assert(r@ =~= jobs@);
    r
}

} // verus!
