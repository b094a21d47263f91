use instanced_quads::error::{exit_status, FrameError, Outcome};
use instanced_quads::event_loop::{Action, Event, EventLoop, LoopState};
use instanced_quads::frame::{record_frame, render, Command, VertexSource};
use instanced_quads::geometry::GeometryStore;
use instanced_quads::instance::{Instance, InstanceShape, InstanceStore};
use instanced_quads::surface::{
    create_swap_chain, PresentMode, SurfaceManager, SwapSurface, TextureFormat, TextureUsage,
};

fn surface(width: u32, height: u32) -> SwapSurface {
    SwapSurface {
        usage: TextureUsage::OutputAttachment,
        format: TextureFormat::Bgra8UnormSrgb,
        width,
        height,
        present_mode: PresentMode::Vsync,
    }
}

#[test]
fn swap_chain_is_configured_for_output() {
    let built = create_swap_chain(640, 480);
    assert_eq!(built, surface(640, 480));
    assert_eq!(built.dimensions(), (640, 480));
}

#[test]
fn create_or_resize_reports_the_requested_size() {
    let mut manager = SurfaceManager::new(640, 480);
    for (w, h) in [(1u32, 1u32), (800, 600), (1920, 1080), (u32::MAX, 7), (3, u32::MAX)] {
        let built = manager.create_or_resize(w, h);
        assert_eq!(built.dimensions(), (w, h));
        assert_eq!(manager.dimensions(), (w, h));
        assert_eq!(manager.current(), surface(w, h));
    }
}

#[test]
fn create_or_resize_twice_gives_the_same_surface() {
    let mut manager = SurfaceManager::new(640, 480);
    let first = manager.create_or_resize(1024, 768);
    let after_first = manager.current();
    let second = manager.create_or_resize(1024, 768);
    assert_eq!(first, second);
    assert_eq!(first.dimensions(), second.dimensions());
    assert_eq!(after_first, manager.current());
    let mut other = SurfaceManager::new(1, 1);
    other.create_or_resize(1024, 768);
    assert_eq!(other, manager);
}

#[test]
fn first_frame_uses_the_initial_window_size() {
    let mut event_loop = EventLoop::new(640, 480);
    assert_eq!(event_loop.state(), LoopState::Running);
    let iteration = event_loop.run_iteration(&vec![]);
    assert!(iteration.rebuilt.is_empty());
    assert_eq!(iteration.target, Some(surface(640, 480)));
    assert_eq!(iteration.target.unwrap().dimensions(), (640, 480));
}

#[test]
fn resize_event_rebuilds_the_surface_for_later_frames() {
    let mut event_loop = EventLoop::new(640, 480);
    let iteration = event_loop.run_iteration(&vec![Event::Resized { width: 800, height: 600 }]);
    assert_eq!(iteration.rebuilt, vec![surface(800, 600)]);
    assert_eq!(iteration.target, Some(surface(800, 600)));
    assert_eq!(event_loop.drawable_size(), (800, 600));
    assert_eq!(event_loop.surface().dimensions(), (800, 600));
    for _ in 0..3 {
        let later = event_loop.run_iteration(&vec![Event::Other]);
        assert!(later.rebuilt.is_empty());
        assert_eq!(later.target, Some(surface(800, 600)));
        assert_eq!(event_loop.drawable_size(), (800, 600));
    }
}

#[test]
fn every_resize_is_rebuilt_and_the_last_one_stays() {
    let mut event_loop = EventLoop::new(640, 480);
    let iteration = event_loop.run_iteration(&vec![
        Event::Resized { width: 700, height: 500 },
        Event::Other,
        Event::Resized { width: 800, height: 600 },
        Event::Other,
    ]);
    assert_eq!(iteration.rebuilt, vec![surface(700, 500), surface(800, 600)]);
    assert_eq!(iteration.target, Some(surface(800, 600)));
    assert_eq!(event_loop.state(), LoopState::Running);
}

#[test]
fn quit_event_terminates_within_the_iteration() {
    let mut event_loop = EventLoop::new(640, 480);
    let running = event_loop.run_iteration(&vec![Event::Other]);
    assert_eq!(running.target, Some(surface(640, 480)));
    let iteration = event_loop.run_iteration(&vec![Event::Other, Event::Quit]);
    assert_eq!(event_loop.state(), LoopState::Terminated);
    assert_eq!(iteration.target, None);
    assert!(iteration.rebuilt.is_empty());
    let later = event_loop.run_iteration(&vec![Event::Resized { width: 1, height: 2 }]);
    assert_eq!(later.target, None);
    assert!(later.rebuilt.is_empty());
    assert_eq!(event_loop.state(), LoopState::Terminated);
    assert_eq!(exit_status(Outcome::Quit), 0);
}

#[test]
fn events_after_a_quit_are_ignored() {
    let mut event_loop = EventLoop::new(640, 480);
    let iteration = event_loop.run_iteration(&vec![
        Event::Resized { width: 800, height: 600 },
        Event::Quit,
        Event::Resized { width: 1024, height: 768 },
    ]);
    assert_eq!(iteration.rebuilt, vec![surface(800, 600)]);
    assert_eq!(iteration.target, None);
    assert_eq!(event_loop.state(), LoopState::Terminated);
    assert_eq!(event_loop.drawable_size(), (800, 600));
}

#[test]
fn quit_as_first_event_draws_nothing() {
    let mut event_loop = EventLoop::new(640, 480);
    let iteration = event_loop.run_iteration(&vec![Event::Quit]);
    assert_eq!(iteration.target, None);
    assert_eq!(event_loop.state(), LoopState::Terminated);
}

#[test]
fn handle_event_answers_each_kind_of_event() {
    let mut event_loop = EventLoop::new(640, 480);
    assert_eq!(event_loop.handle_event(Event::Other), Action::Ignore);
    assert_eq!(
        event_loop.handle_event(Event::Resized { width: 320, height: 200 }),
        Action::Rebuild(surface(320, 200))
    );
    assert_eq!(event_loop.surface(), surface(320, 200));
    assert_eq!(event_loop.handle_event(Event::Quit), Action::Exit);
    assert_eq!(event_loop.state(), LoopState::Terminated);
    assert_eq!(event_loop.handle_event(Event::Quit), Action::Ignore);
    assert_eq!(
        event_loop.handle_event(Event::Resized { width: 1, height: 1 }),
        Action::Ignore
    );
    assert_eq!(event_loop.surface(), surface(320, 200));
}

#[test]
fn abort_terminates_with_the_frame_error() {
    let mut event_loop = EventLoop::new(640, 480);
    let outcome = event_loop.abort(FrameError::SurfaceLost);
    assert_eq!(outcome, Outcome::Frame(FrameError::SurfaceLost));
    assert_eq!(event_loop.state(), LoopState::Terminated);
    assert_eq!(event_loop.surface(), surface(640, 480));
    assert_eq!(event_loop.run_iteration(&vec![Event::Other]).target, None);
    let mut other = EventLoop::new(1, 1);
    assert_eq!(other.abort(FrameError::ResizeFailed), Outcome::Frame(FrameError::ResizeFailed));
}

fn expected_frame(instance_count: u32) -> Vec<Command> {
    let background = instanced_quads::frame::Color {
        r: 0.39f64.to_bits(),
        g: 0.58f64.to_bits(),
        b: 0.93f64.to_bits(),
        a: 1.0f64.to_bits(),
    };
    vec![
        Command::BeginRenderPass { clear_color: background },
        Command::SetPipeline,
        Command::SetBindGroup { index: 0 },
        Command::SetVertexBuffer { slot: 0, source: VertexSource::Mesh, offset: 0 },
        Command::SetVertexBuffer { slot: 1, source: VertexSource::Instances, offset: 0 },
        Command::SetIndexBuffer { offset: 0 },
        Command::DrawIndexed {
            first_index: 0,
            end_index: 6,
            base_vertex: 0,
            first_instance: 0,
            end_instance: instance_count,
        },
        Command::EndRenderPass,
        Command::Submit,
    ]
}

#[test]
fn fixed_table_is_drawn_as_six_instances() {
    let geometry = GeometryStore::new();
    let instances = InstanceStore::fixed();
    assert_eq!(instances.instance_count(), 6);
    let commands = record_frame(&geometry, &instances);
    assert_eq!(commands, expected_frame(6));
    let draws: Vec<&Command> =
        commands.iter().filter(|c| matches!(c, Command::DrawIndexed { .. })).collect();
    assert_eq!(draws.len(), 1);
    assert_eq!(
        *draws[0],
        Command::DrawIndexed {
            first_index: 0,
            end_index: 6,
            base_vertex: 0,
            first_instance: 0,
            end_instance: 6
        }
    );
}

#[test]
fn instance_count_of_the_draw_is_the_table_length() {
    let geometry = GeometryStore::new();
    for n in [0usize, 1, 3, 17] {
        let table: Vec<Instance> = (0..n)
            .map(|i| {
                let v = (i as f32).to_bits();
                Instance::new(v, v, v, v, v, v, v)
            })
            .collect();
        let store = InstanceStore::new(table, InstanceShape::PositionSize).unwrap();
        assert_eq!(store.instance_count() as usize, n);
        assert_eq!(record_frame(&geometry, &store), expected_frame(n as u32));
    }
}

#[test]
fn render_fails_when_no_image_was_acquired() {
    let geometry = GeometryStore::new();
    let instances = InstanceStore::fixed();
    assert_eq!(render(false, &geometry, &instances), Err(FrameError::SurfaceLost));
    assert_eq!(render(true, &geometry, &instances), Ok(expected_frame(6)));
}
