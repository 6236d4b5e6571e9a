//! Frame driver: composes the GPU context model and the UI subsystem,
//! forwards input events, and decides the per-frame render command
//! sequence. Also the event-loop control protocol: which events end
//! the loop, and when a redraw tick may render.
//!
//! The host binary owns the window and the GPU device; it reads the
//! decisions made here and performs the actual calls.

use vstd::prelude::*;

use crate::gpu::{black, swap_chain_spec, swap_chain_spec_of, Rgba, SwapChainSpec};
use crate::ui::{
    advanced_clock, enqueued_messages, FrameOutput, HostEvent, Key, Message, ScreenSpec, Ui,
};

verus! {

/// A startup failure: fatal, surfaced before the event loop starts.
#[derive(Clone, Copy, Debug, PartialEq, Eq, Structural)]
pub enum StartupError {
    /// No GPU adapter compatible with the window surface exists.
    AdapterUnavailable,
    /// Logical device negotiation with the chosen adapter failed.
    DeviceRequestFailed,
}

/// A per-frame render failure: recoverable, the frame is skipped.
#[derive(Clone, Copy, Debug, PartialEq, Eq, Structural)]
pub enum RenderError {
    /// The swap-chain could not yield a presentable frame, e.g. after
    /// an unhandled resize; recovery is to recreate the swap-chain and
    /// retry on the next tick.
    SwapChainLost,
}

/// Outcome of asking the swap-chain for the current frame.
#[derive(Clone, Copy, Debug, PartialEq, Eq, Structural)]
pub enum FrameAcquire {
    /// A presentable frame was yielded.
    Acquired,
    /// The swap-chain is invalid and yielded nothing.
    Lost,
}

/// The one UI draw pass of a frame: its clear color, the paint jobs it
/// draws, and the screen geometry it is sized to.
#[derive(Clone, Debug, PartialEq, Eq)]
pub struct UiPass {
    pub clear_color: Rgba,
    pub jobs: Vec<crate::ui::PaintJob>,
    pub screen: ScreenSpec,
}

/// The command sequence of one render call: exactly one command buffer
/// holding exactly one UI draw pass, submitted as a whole or not at
/// all.
#[derive(Clone, Debug, PartialEq, Eq)]
pub struct CommandPlan {
    pub ui_pass: UiPass,
}

/// The number of worker threads the reserved task runtime is built
/// with.
pub const TASK_RUNTIME_WORKERS: u8 = 4;

/// Configuration of the multi-threaded task runtime provisioned at
/// startup as a reserved resource for future asynchronous work; no
/// current operation consumes it.
#[derive(Clone, Copy, Debug, PartialEq, Eq, Structural)]
pub struct TaskRuntimeSpec {
    pub worker_threads: u8,
    pub io_enabled: bool,
}

/// The reserved task runtime: four workers, I/O driver enabled.
pub fn task_runtime_spec() -> (t: TaskRuntimeSpec)
    ensures
        t == (TaskRuntimeSpec { worker_threads: TASK_RUNTIME_WORKERS, io_enabled: true }),
{
    TaskRuntimeSpec { worker_threads: TASK_RUNTIME_WORKERS, io_enabled: true }
}

/// The frame driver: window metrics, the swap-chain configuration, and
/// the UI subsystem.
#[derive(Clone)]
pub struct Engine {
    /// Current window width in physical pixels.
    pub window_width: u32,
    /// Current window height in physical pixels.
    pub window_height: u32,
    /// Display scale factor in thousandths (1000 is a scale of 1.0).
    pub scale_factor_millis: u32,
    /// Configuration the swap-chain was created with.
    pub swap_chain: SwapChainSpec,
    pub ui: Ui,
    /// How many command buffers have been submitted to the queue so
    /// far; bookkeeping of the one-submission-per-render protocol.
    pub frames_submitted: Ghost<nat>,
}

impl Engine {
    /// The screen geometry of the current window.
    pub open spec fn screen(self) -> ScreenSpec {
        ScreenSpec {
            physical_width: self.window_width,
            physical_height: self.window_height,
            scale_factor_millis: self.scale_factor_millis,
        }
    }

    /// The swap-chain always matches the current window size (a resize
    /// would demand its recreation), and the UI subsystem's own
    /// invariant holds.
    pub open spec fn wf(self) -> bool {
        &&& self.swap_chain == swap_chain_spec_of(self.window_width, self.window_height)
        &&& self.ui.wf()
    }

    /// Startup: given the window's metrics and the outcomes of the
    /// asynchronous adapter and device negotiation, either every GPU
    /// resource configuration is fixed and the UI subsystem starts
    /// fresh, or the failure is reported. The adapter is negotiated
    /// before the device: a missing adapter is reported whatever the
    /// device outcome would have been.
    pub fn new(
        window_width: u32,
        window_height: u32,
        scale_factor_millis: u32,
        adapter_found: bool,
        device_ok: bool,
    ) -> (r: Result<Engine, StartupError>)
        ensures
            r is Ok <==> adapter_found && device_ok,
            !adapter_found ==> r == Result::<Engine, StartupError>::Err(StartupError::AdapterUnavailable),
            adapter_found && !device_ok ==> r == Result::<Engine, StartupError>::Err(
                StartupError::DeviceRequestFailed,
            ),
            r matches Ok(e) ==> {
                &&& e.window_width == window_width
                &&& e.window_height == window_height
                &&& e.scale_factor_millis == scale_factor_millis
                &&& e.swap_chain == swap_chain_spec_of(window_width, window_height)
                &&& e.ui.is_init()
                &&& e.frames_submitted@ == 0
                &&& e.wf()
            },
    {
        if !adapter_found {
            return Err(StartupError::AdapterUnavailable);
        }
        if !device_ok {
            return Err(StartupError::DeviceRequestFailed);
        }
        Ok(Engine {
            window_width,
            window_height,
            scale_factor_millis,
            swap_chain: swap_chain_spec(window_width, window_height),
            ui: Ui::new(),
            frames_submitted: Ghost(0),
        })
    }

    /// Forwards one input event to the UI subsystem for a full update
    /// cycle, passing the current window size and scale; pure
    /// delegation, nothing else of the driver changes.
    pub fn input(&mut self, event: &HostEvent, delta_micros: i64, frame: FrameOutput)
        requires
            old(self).ui.step is Idle,
        ensures
            final(self).window_width == old(self).window_width,
            final(self).window_height == old(self).window_height,
            final(self).scale_factor_millis == old(self).scale_factor_millis,
            final(self).swap_chain == old(self).swap_chain,
            final(self).ui.step is Idle,
            final(self).ui.wf(),
            final(self).ui.clock_micros == advanced_clock(old(self).ui.clock_micros, delta_micros),
            final(self).ui.paint_jobs@ == frame.jobs@,
            final(self).ui.synced_jobs@ == frame.jobs@,
            final(self).ui.synced_screen == old(self).screen(),
            final(self).ui.font_texture_version == frame.texture_version,
            final(self).ui.synced_texture_version == frame.texture_version,
            final(self).ui.messages@ == enqueued_messages(old(self).ui.messages@, frame.open_clicked),
            final(self).frames_submitted == old(self).frames_submitted,
            old(self).wf() ==> final(self).wf(),
    {
        let screen = ScreenSpec {
            physical_width: self.window_width,
            physical_height: self.window_height,
            scale_factor_millis: self.scale_factor_millis,
        };
        self.ui.update(delta_micros, event, frame, screen);
    }

    /// Reserved seam for simulation stepping; deliberately a no-op in
    /// the current scope.
    pub fn update(&mut self)
        ensures
            *final(self) == *old(self),
    {
    }

    /// Decides the command sequence of one render call. If the
    /// swap-chain yielded a frame, the result is exactly one command
    /// buffer with one UI draw pass — black clear, the paint jobs of
    /// the last synced frame build, sized to the current window — and
    /// exactly one submission is recorded. If acquisition failed, the
    /// whole call fails and nothing — not even a partial frame — is
    /// submitted.
    pub fn render(&mut self, acquire: FrameAcquire) -> (r: Result<CommandPlan, RenderError>)
        ensures
            r is Ok <==> acquire is Acquired,
            acquire is Lost ==> r == Result::<CommandPlan, RenderError>::Err(RenderError::SwapChainLost)
                && final(self).frames_submitted@ == old(self).frames_submitted@,
            r matches Ok(plan) ==> {
                &&& plan.ui_pass.clear_color == black()
                &&& plan.ui_pass.jobs@ == old(self).ui.synced_jobs@
                &&& plan.ui_pass.screen == old(self).screen()
                &&& final(self).frames_submitted@ == old(self).frames_submitted@ + 1
            },
            final(self).window_width == old(self).window_width,
            final(self).window_height == old(self).window_height,
            final(self).scale_factor_millis == old(self).scale_factor_millis,
            final(self).swap_chain == old(self).swap_chain,
            final(self).ui == old(self).ui,
    {
        match acquire {
            FrameAcquire::Lost => Err(RenderError::SwapChainLost),
            FrameAcquire::Acquired => {
                let plan = CommandPlan {
                    ui_pass: UiPass {
                        clear_color: Rgba { red: 0, green: 0, blue: 0, alpha: 255 },
                        jobs: crate::ui::copy_jobs(&self.ui.synced_jobs),
                        screen: ScreenSpec {
                            physical_width: self.window_width,
                            physical_height: self.window_height,
                            scale_factor_millis: self.scale_factor_millis,
                        },
                    },
                };
                self.frames_submitted = Ghost(self.frames_submitted@ + 1);
                Ok(plan)
            }
        }
    }

    /// Consumes the oldest outbound UI message, if any; the single
    /// consumer seam of the message queue.
    pub fn next_message(&mut self) -> (m: Option<Message>)
        ensures
            old(self).ui.messages@.len() == 0 ==> m is None
                && final(self).ui.messages@ == old(self).ui.messages@,
            old(self).ui.messages@.len() > 0 ==> {
                &&& m == Some(old(self).ui.messages@[0])
                &&& final(self).ui.messages@ == old(self).ui.messages@.drop_first()
            },
            final(self).window_width == old(self).window_width,
            final(self).window_height == old(self).window_height,
            final(self).scale_factor_millis == old(self).scale_factor_millis,
            final(self).swap_chain == old(self).swap_chain,
            final(self).ui.step == old(self).ui.step,
            final(self).ui.clock_micros == old(self).ui.clock_micros,
            final(self).ui.paint_jobs == old(self).ui.paint_jobs,
            final(self).ui.font_texture_version == old(self).ui.font_texture_version,
            final(self).ui.synced_jobs == old(self).ui.synced_jobs,
            final(self).ui.synced_screen == old(self).ui.synced_screen,
            final(self).ui.synced_texture_version == old(self).ui.synced_texture_version,
            final(self).frames_submitted == old(self).frames_submitted,
    {
        self.ui.next_message()
    }
}

/// State of the host-driven event loop.
#[derive(Clone, Copy, Debug, PartialEq, Eq, Structural)]
pub enum LoopControl {
    /// Keep running: poll for the next event.
    Poll,
    /// Shut down: the loop ends after the current turn.
    Exit,
}

/// Whether an event demands process exit: a close request or an
/// escape-key press, nothing else.
pub open spec fn is_exit_event(event: HostEvent) -> bool {
    ||| event is CloseRequested
    ||| event == HostEvent::KeyPressed(Key::Escape)
}

/// The control state after one event: exit once an exit event arrives,
/// and exit is absorbing — the loop never resumes.
pub open spec fn control_step(control: LoopControl, event: HostEvent) -> LoopControl {
    if control is Exit || is_exit_event(event) {
        LoopControl::Exit
    } else {
        LoopControl::Poll
    }
}

/// Whether the driver renders on this event: only on a redraw tick,
/// and only while the loop is still running.
pub open spec fn renders_on(control: LoopControl, event: HostEvent) -> bool {
    control is Poll && event is RedrawRequested
}

/// Updates the loop control state for one event: a close request or an
/// escape-key press sets it to exit, and once exited it stays exited.
pub fn control_after(control: LoopControl, event: &HostEvent) -> (c: LoopControl)
    ensures
        c == control_step(control, *event),
        c is Exit <==> control is Exit || is_exit_event(*event),
{
    match (control, event) {
        (LoopControl::Exit, _) => LoopControl::Exit,
        (_, HostEvent::CloseRequested) => LoopControl::Exit,
        (_, HostEvent::KeyPressed(Key::Escape)) => LoopControl::Exit,
        _ => LoopControl::Poll,
    }
}

/// Whether the driver should render on this event, per [`renders_on`]:
/// a redraw tick while the loop is running, never after exit was set.
pub fn should_render(control: LoopControl, event: &HostEvent) -> (b: bool)
    ensures
        b == renders_on(control, *event),
{
    match (control, event) {
        (LoopControl::Poll, HostEvent::RedrawRequested) => true,
        _ => false,
    }
}

/// The control state after a whole sequence of events.
pub open spec fn control_after_events(control: LoopControl, events: Seq<HostEvent>) -> LoopControl
    decreases events.len(),
{
    if events.len() == 0 {
        control
    } else {
        control_after_events(control_step(control, events[0]), events.drop_first())
    }
}

/// Exit is absorbing: once the control state is exit, no sequence of
/// further events brings the loop back.
pub proof fn lemma_exit_is_absorbing(events: Seq<HostEvent>)
    ensures
        control_after_events(LoopControl::Exit, events) is Exit,
    decreases events.len(),
{
    if events.len() > 0 {
        lemma_exit_is_absorbing(events.drop_first());
    }
}

/// An exit event anywhere in a sequence leaves the control state at
/// exit at the end of that sequence.
pub proof fn lemma_exit_event_forces_exit(control: LoopControl, events: Seq<HostEvent>, i: int)
    requires
        0 <= i < events.len(),
        is_exit_event(events[i]),
    ensures
        control_after_events(control, events) is Exit,
    decreases events.len(),
{
    if i == 0 {
        lemma_exit_is_absorbing(events.drop_first());
    } else {
        lemma_exit_event_forces_exit(control_step(control, events[0]), events.drop_first(), i - 1);
    }
}

/// After a close-request or escape-key event, no later event of the
/// same run renders: the control state is exit from then on, and a
/// redraw tick under exit draws nothing.
pub proof fn lemma_no_render_after_exit(control: LoopControl, events: Seq<HostEvent>, i: int, j: int)
    requires
        0 <= i < j < events.len(),
        is_exit_event(events[i]),
    ensures
        !renders_on(control_after_events(control, events.take(j)), events[j]),
{
    assert(events.take(j)[i] == events[i]);
    lemma_exit_event_forces_exit(control, events.take(j), i);
}

} // verus!
