use physics_sim::engine::{
    control_after, should_render, CommandPlan, Engine, FrameAcquire, LoopControl, RenderError,
    StartupError,
};
use physics_sim::gpu::{
    adapter_request_spec, debug_binding_spec, debug_buffer_spec, startup_sequence,
    swap_chain_spec, PowerPreference, PresentMode, Rgba, StartupStep, TextureFormat, TextureUsage,
};
use physics_sim::ui::{FrameOutput, HostEvent, Key, Message, PaintJob, ScreenSpec, Ui, UiStep};

fn running_engine(width: u32, height: u32, scale_millis: u32) -> Engine {
    Engine::new(width, height, scale_millis, true, true).unwrap()
}

fn quiet_frame() -> FrameOutput {
    FrameOutput { jobs: Vec::new(), open_clicked: false, texture_version: 0 }
}

#[test]
fn swap_chain_uses_exact_window_pixels() {
    for (w, h) in [(1u32, 1u32), (800, 600), (1920, 1080), (u32::MAX, u32::MAX)] {
        let s = swap_chain_spec(w, h);
        assert_eq!(s.width, w);
        assert_eq!(s.height, h);
    }
}

#[test]
fn initial_swap_chain_is_800_by_600_bgra_fifo() {
    let e = running_engine(800, 600, 1000);
    assert_eq!(e.swap_chain.width, 800);
    assert_eq!(e.swap_chain.height, 600);
    assert_eq!(e.swap_chain.format, TextureFormat::Bgra8UnormSrgb);
    assert_eq!(e.swap_chain.present_mode, PresentMode::Fifo);
    assert_eq!(e.swap_chain.usage, TextureUsage::OutputAttachment);
}

#[test]
fn missing_adapter_fails_startup() {
    assert!(matches!(
        Engine::new(800, 600, 1000, false, true),
        Err(StartupError::AdapterUnavailable)
    ));
    // The adapter is negotiated first: its absence wins over a device
    // failure.
    assert!(matches!(
        Engine::new(800, 600, 1000, false, false),
        Err(StartupError::AdapterUnavailable)
    ));
}

#[test]
fn failed_device_negotiation_fails_startup() {
    assert!(matches!(
        Engine::new(800, 600, 1000, true, false),
        Err(StartupError::DeviceRequestFailed)
    ));
}

#[test]
fn clock_ignores_zero_and_negative_deltas() {
    let mut ui = Ui::new();
    ui.update(16_000, &HostEvent::Other, quiet_frame(), screen_800());
    assert_eq!(ui.clock_micros, 16_000);
    ui.update(0, &HostEvent::Other, quiet_frame(), screen_800());
    assert_eq!(ui.clock_micros, 16_000);
    ui.update(-40_000, &HostEvent::Other, quiet_frame(), screen_800());
    assert_eq!(ui.clock_micros, 16_000);
    ui.update(7, &HostEvent::Other, quiet_frame(), screen_800());
    assert_eq!(ui.clock_micros, 16_007);
}

#[test]
fn clock_saturates_at_maximum() {
    let mut ui = Ui::new();
    ui.clock_micros = u64::MAX - 5;
    ui.update(1_000, &HostEvent::Other, quiet_frame(), screen_800());
    assert_eq!(ui.clock_micros, u64::MAX);
}

fn screen_800() -> ScreenSpec {
    ScreenSpec { physical_width: 800, physical_height: 600, scale_factor_millis: 1000 }
}

#[test]
fn synced_buffers_mirror_the_frame_just_built() {
    let mut ui = Ui::new();
    let jobs = vec![
        PaintJob { vertex_count: 12, index_count: 18, texture_id: 3 },
        PaintJob { vertex_count: 4, index_count: 6, texture_id: 3 },
    ];
    let frame = FrameOutput { jobs: jobs.clone(), open_clicked: false, texture_version: 9 };
    ui.update(16_000, &HostEvent::Other, frame, screen_800());
    assert_eq!(ui.paint_jobs, jobs);
    assert_eq!(ui.synced_jobs, jobs);
    assert_eq!(ui.synced_screen, screen_800());
    assert_eq!(ui.synced_texture_version, 9);

    // The next build replaces the list wholesale; the sync follows it,
    // never a prior frame's list.
    let jobs2 = vec![PaintJob { vertex_count: 3, index_count: 3, texture_id: 4 }];
    let frame2 = FrameOutput { jobs: jobs2.clone(), open_clicked: false, texture_version: 10 };
    ui.update(16_000, &HostEvent::Other, frame2, screen_800());
    assert_eq!(ui.paint_jobs, jobs2);
    assert_eq!(ui.synced_jobs, jobs2);
    assert_eq!(ui.synced_texture_version, 10);
}

#[test]
fn open_action_enqueues_exactly_one_message() {
    let mut ui = Ui::new();
    let frame = FrameOutput { jobs: Vec::new(), open_clicked: true, texture_version: 0 };
    ui.update(16_000, &HostEvent::Other, frame, screen_800());
    assert_eq!(ui.messages, vec![Message::Open]);

    // A cycle without the action adds nothing.
    ui.update(16_000, &HostEvent::Other, quiet_frame(), screen_800());
    assert_eq!(ui.messages, vec![Message::Open]);

    assert_eq!(ui.next_message(), Some(Message::Open));
    assert_eq!(ui.next_message(), None);
    assert_eq!(ui.next_message(), None);
}

#[test]
fn message_queue_is_fifo_and_consuming_changes_nothing_else() {
    let mut e = running_engine(800, 600, 1000);
    let frame = FrameOutput { jobs: Vec::new(), open_clicked: true, texture_version: 0 };
    e.input(&HostEvent::Other, 1_000, frame);
    let frame = FrameOutput { jobs: Vec::new(), open_clicked: true, texture_version: 0 };
    e.input(&HostEvent::Other, 1_000, frame);
    assert_eq!(e.ui.messages.len(), 2);
    assert_eq!(e.next_message(), Some(Message::Open));
    assert_eq!(e.ui.messages.len(), 1);
    assert_eq!(e.ui.clock_micros, 2_000);
    assert_eq!(e.next_message(), Some(Message::Open));
    assert_eq!(e.next_message(), None);
}

#[test]
fn render_submits_one_black_cleared_ui_pass() {
    let mut e = running_engine(800, 600, 1000);
    let jobs = vec![PaintJob { vertex_count: 30, index_count: 45, texture_id: 1 }];
    let frame = FrameOutput { jobs: jobs.clone(), open_clicked: false, texture_version: 2 };
    e.input(&HostEvent::Other, 16_000, frame);
    let plan: CommandPlan = e.render(FrameAcquire::Acquired).unwrap();
    assert_eq!(plan.ui_pass.clear_color, Rgba { red: 0, green: 0, blue: 0, alpha: 255 });
    assert_eq!(plan.ui_pass.jobs, jobs);
    assert_eq!(
        plan.ui_pass.screen,
        ScreenSpec { physical_width: 800, physical_height: 600, scale_factor_millis: 1000 }
    );
}

#[test]
fn render_fails_whole_when_swap_chain_is_lost() {
    let mut e = running_engine(800, 600, 1000);
    assert_eq!(e.render(FrameAcquire::Lost).unwrap_err(), RenderError::SwapChainLost);
}

#[test]
fn one_redraw_cycle_with_no_input_events() {
    // Window at 800x600, scale factor 1.0; update() is a no-op and one
    // render yields exactly one submission: a black-cleared UI pass
    // that draws an empty paint-job list.
    let mut e = running_engine(800, 600, 1000);
    e.update();
    assert_eq!(e.ui.clock_micros, 0);
    assert!(e.ui.messages.is_empty());
    let plan = e.render(FrameAcquire::Acquired).unwrap();
    assert_eq!(plan.ui_pass.clear_color, Rgba { red: 0, green: 0, blue: 0, alpha: 255 });
    assert!(plan.ui_pass.jobs.is_empty());
}

#[test]
fn close_request_and_escape_set_exit() {
    assert_eq!(control_after(LoopControl::Poll, &HostEvent::CloseRequested), LoopControl::Exit);
    assert_eq!(
        control_after(LoopControl::Poll, &HostEvent::KeyPressed(Key::Escape)),
        LoopControl::Exit
    );
    assert_eq!(
        control_after(LoopControl::Poll, &HostEvent::KeyPressed(Key::Other)),
        LoopControl::Poll
    );
    assert_eq!(control_after(LoopControl::Poll, &HostEvent::Resized(1, 1)), LoopControl::Poll);
    assert_eq!(control_after(LoopControl::Poll, &HostEvent::RedrawRequested), LoopControl::Poll);
}

#[test]
fn no_render_happens_after_exit() {
    // Exit is absorbing and a redraw tick under exit draws nothing.
    let mut control = LoopControl::Poll;
    assert!(should_render(control, &HostEvent::RedrawRequested));
    control = control_after(control, &HostEvent::CloseRequested);
    assert_eq!(control, LoopControl::Exit);
    for event in [
        HostEvent::RedrawRequested,
        HostEvent::Other,
        HostEvent::KeyPressed(Key::Other),
        HostEvent::RedrawEventsCleared,
    ] {
        assert!(!should_render(control, &event));
        control = control_after(control, &event);
        assert_eq!(control, LoopControl::Exit);
    }
}

#[test]
fn startup_acquires_resources_in_strict_order() {
    assert_eq!(
        startup_sequence(),
        vec![
            StartupStep::CreateInstance,
            StartupStep::CreateSurface,
            StartupStep::RequestAdapter,
            StartupStep::RequestDevice,
            StartupStep::CreateSwapChain,
            StartupStep::CreateDebugResources,
        ]
    );
}

#[test]
fn debug_buffer_is_sixteen_bytes_on_binding_zero() {
    let b = debug_buffer_spec();
    assert_eq!(b.size_bytes, 16);
    assert!(b.storage_usage);
    assert!(!b.mapped_at_creation);
    let g = debug_binding_spec();
    assert_eq!(g.binding_slot, 0);
    assert!(g.vertex_visible);
    assert!(!g.dynamic_offset);
    assert!(!g.read_only);
    assert_eq!(g.min_binding_size, 16);
}

#[test]
fn adapter_request_prefers_low_power() {
    let a = adapter_request_spec();
    assert_eq!(a.power, PowerPreference::LowPower);
    assert!(a.compatible_with_surface);
}

#[test]
fn device_request_uses_defaults_with_validation() {
    let d = physics_sim::gpu::device_request_spec();
    assert!(d.default_features);
    assert!(d.default_limits);
    assert!(d.shader_validation);
}

#[test]
fn cycle_steps_run_in_order() {
    let mut ui = Ui::new();
    assert_eq!(ui.step, UiStep::Idle);
    ui.advance_time(5_000);
    assert_eq!(ui.step, UiStep::TimeAdvanced);
    assert_eq!(ui.clock_micros, 5_000);
    ui.apply_event(&HostEvent::KeyPressed(Key::Other));
    assert_eq!(ui.step, UiStep::EventsApplied);
    let jobs = vec![PaintJob { vertex_count: 9, index_count: 12, texture_id: 0 }];
    ui.build_frame(FrameOutput { jobs: jobs.clone(), open_clicked: false, texture_version: 1 });
    assert_eq!(ui.step, UiStep::FrameBuilt);
    assert_eq!(ui.paint_jobs, jobs);
    // The GPU-side mirror still holds the previous (empty) frame until
    // the sync step runs.
    assert!(ui.synced_jobs.is_empty());
    ui.sync_buffers(screen_800());
    assert_eq!(ui.step, UiStep::BuffersSynced);
    assert_eq!(ui.synced_jobs, jobs);
    ui.complete_cycle();
    assert_eq!(ui.step, UiStep::Idle);
}

#[test]
fn input_leaves_window_metrics_and_swap_chain_alone() {
    // Resize handling is the host's seam: forwarding a resize event
    // changes neither the stored metrics nor the swap-chain
    // configuration.
    let mut e = running_engine(800, 600, 1000);
    let before = e.swap_chain;
    e.input(&HostEvent::Resized(1024, 768), 16_000, quiet_frame());
    assert_eq!(e.window_width, 800);
    assert_eq!(e.window_height, 600);
    assert_eq!(e.scale_factor_millis, 1000);
    assert_eq!(e.swap_chain, before);
}

#[test]
fn task_runtime_is_reserved_with_four_workers() {
    let t = physics_sim::engine::task_runtime_spec();
    assert_eq!(t.worker_threads, 4);
    assert!(t.io_enabled);
}
