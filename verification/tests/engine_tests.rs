use portia::asset_loader::{Asset, AssetState, Receipt};
use portia::events::EventQueue;
use portia::file_system::{DirEntry, FileSystem};
use portia::gui::{
    BoundingBox, Color, CursorInteractable, CursorInteractableMsg, Interactable, Point, RenderQueue,
};
use portia::input::{Input, Key, Mouse, MouseButton, PressState, Window};
use portia::job_scheduler::{JobScheduler, ProcessorPoll};
use portia::sim::{order_frame_inputs, SimClock};
use portia::time::saturate_nanos;
use portia::events::Event;

#[test]
fn render_queue_drain_returns_pushed_commands_in_order() {
    let mut queue: RenderQueue<u32> = RenderQueue::new(4);
    queue.push(1);
    queue.push(2);
    queue.push(3);
    assert_eq!(queue.commands(), &vec![1, 2, 3]);
    let drained = queue.drain();
    assert_eq!(drained, vec![1, 2, 3]);
    assert!(queue.commands().is_empty());
}

#[test]
fn render_queue_clear_empties() {
    let mut queue: RenderQueue<&str> = RenderQueue::new(0);
    queue.push("a");
    queue.clear();
    assert!(queue.commands().is_empty());
    assert!(queue.drain().is_empty());
}

#[test]
fn color_white_is_all_max() {
    assert_eq!(Color::white(), Color { r: 255, g: 255, b: 255, a: 255 });
}

#[test]
fn point_add_sums_components() {
    let p = Point { x: 3, y: -4 }.add(Point { x: -5, y: 10 });
    assert_eq!(p, Point { x: -2, y: 6 });
}

#[test]
fn bounding_box_contains_borders_and_offsets() {
    let bb = BoundingBox::new();
    let origin = Point { x: 0, y: 0 };
    assert!(bb.contains_point(origin, &Point { x: 0, y: 0 }));
    assert!(bb.contains_point(origin, &Point { x: 10, y: 10 }));
    assert!(!bb.contains_point(origin, &Point { x: 11, y: 5 }));
    assert!(!bb.contains_point(origin, &Point { x: 5, y: -1 }));
    let moved = Point { x: 100, y: 50 };
    assert!(bb.contains_point(moved, &Point { x: 105, y: 55 }));
    assert!(!bb.contains_point(moved, &Point { x: 5, y: 5 }));
}

#[test]
fn cursor_click_inside_holds_and_release_lets_go() {
    let mut ci = CursorInteractable::new();
    assert!(!ci.held());
    let click = Input::Mouse(Mouse::Clicked { x: 5, y: 5, button: MouseButton::Left });
    assert_eq!(ci.update(&click), Some(CursorInteractableMsg::Clicked(MouseButton::Left)));
    assert!(ci.held());
    let release = Input::Mouse(Mouse::Released { x: 50, y: 50, button: MouseButton::Right });
    assert_eq!(ci.update(&release), Some(CursorInteractableMsg::Released(MouseButton::Right)));
    assert!(!ci.held());
    // A second release without a click says nothing.
    assert_eq!(ci.update(&release), None);
}

#[test]
fn cursor_click_outside_is_ignored() {
    let mut ci = CursorInteractable::new();
    let click = Input::Mouse(Mouse::Clicked { x: 11, y: 5, button: MouseButton::Other(7) });
    assert_eq!(ci.update(&click), None);
    assert!(!ci.held());
}

#[test]
fn cursor_hover_enter_and_exit() {
    let mut ci = CursorInteractable::new();
    assert_eq!(ci.update(&Input::Mouse(Mouse::Moved { x: 1, y: 1 })), Some(CursorInteractableMsg::HoverEnter));
    assert!(ci.hovering());
    assert_eq!(ci.update(&Input::Mouse(Mouse::Moved { x: 2, y: 2 })), None);
    assert_eq!(ci.update(&Input::Mouse(Mouse::Moved { x: 20, y: 2 })), Some(CursorInteractableMsg::HoverExit));
    assert!(!ci.hovering());
    assert_eq!(ci.update(&Input::Mouse(Mouse::Moved { x: 20, y: 2 })), None);
    assert_eq!(ci.update(&Input::Tick(3)), None);
}

#[test]
fn event_queue_peek_shows_what_pop_takes() {
    let mut q = EventQueue::new(8);
    assert!(q.is_empty());
    assert!(q.peek().is_none());
    q.push(Input::Tick(1));
    q.push(Input::Tick(2));
    assert!(!q.is_empty());
    assert_eq!(q.peek().unwrap().input, Input::Tick(2));
    assert_eq!(q.pop().unwrap().input, Input::Tick(2));
    assert_eq!(q.peek().unwrap().input, Input::Tick(1));
    assert_eq!(q.pop().unwrap().input, Input::Tick(1));
    assert!(q.pop().is_none());
}

#[test]
fn event_queue_pop_undoes_push() {
    let mut q = EventQueue::new(2);
    q.push(Input::ApplicationExit);
    q.push(Input::Window(Window::Resized { height: 3, width: 4 }));
    let e = q.pop().unwrap();
    assert_eq!(e.input, Input::Window(Window::Resized { height: 3, width: 4 }));
    assert_eq!(q.pop().unwrap().input, Input::ApplicationExit);
}

#[test]
fn event_queue_times_do_not_go_back() {
    let mut q = EventQueue::new(2);
    q.push(Input::Tick(1));
    q.push(Input::Tick(2));
    let second = q.pop().unwrap();
    let first = q.pop().unwrap();
    assert!(first.time <= second.time);
    q.reset_start_time();
    assert!(q.is_empty());
}

#[test]
fn event_queue_drain_newest_first() {
    let mut q = EventQueue::new(4);
    q.push(Input::Tick(1));
    q.push(Input::Tick(2));
    q.push(Input::Tick(3));
    let drained: Vec<Input> = q.drain_newest_first().into_iter().map(|e| e.input).collect();
    assert_eq!(drained, vec![Input::Tick(3), Input::Tick(2), Input::Tick(1)]);
    assert!(q.is_empty());
}

#[test]
fn saturate_nanos_caps_at_u64_max() {
    assert_eq!(saturate_nanos(0), 0);
    assert_eq!(saturate_nanos(1_500_000_000), 1_500_000_000);
    assert_eq!(saturate_nanos(u64::MAX as u128), u64::MAX);
    assert_eq!(saturate_nanos(u64::MAX as u128 + 1), u64::MAX);
    assert_eq!(saturate_nanos(u128::MAX), u64::MAX);
}

#[test]
fn sim_clock_frame_time_is_a_second_over_the_rate() {
    let mut clock = SimClock::new(60, 5);
    // 16_666_666 ns per frame; 40 ms pay for two frames.
    clock.accumulate(40_000_000);
    assert!(clock.step());
    assert!(clock.step());
    assert!(!clock.step());
    clock.accumulate(16_666_666 - (40_000_000 - 2 * 16_666_666));
    assert!(clock.step());
    assert!(!clock.step());
}

#[test]
fn sim_clock_one_hz_needs_a_whole_second() {
    let mut clock = SimClock::new(1, 0);
    clock.accumulate(999_999_999);
    assert!(!clock.step());
    clock.accumulate(1);
    assert!(clock.step());
    assert!(!clock.step());
}

#[test]
fn frame_inputs_come_earliest_first_and_ties_newest_first() {
    let events = vec![
        Event { time: 30, input: Input::Tick(0) },
        Event { time: 10, input: Input::Tick(1) },
        Event { time: 20, input: Input::Tick(2) },
        Event { time: 10, input: Input::Tick(3) },
        Event { time: 10, input: Input::Tick(4) },
    ];
    let inputs = order_frame_inputs(events);
    assert_eq!(
        inputs,
        vec![Input::Tick(4), Input::Tick(3), Input::Tick(1), Input::Tick(2), Input::Tick(0)]
    );
    assert!(order_frame_inputs(vec![]).is_empty());
}

#[test]
fn job_scheduler_hands_out_newest_jobs_first() {
    let mut s: JobScheduler<u32, &str> = JobScheduler::new(vec!["w0", "w1"]);
    assert_eq!(s.processor_count(), 2);
    s.queue(1);
    s.queue(2);
    s.queue(3);
    let plan = s.schedule_round(&vec![ProcessorPoll::Empty, ProcessorPoll::Empty]);
    assert!(!plan.stop);
    assert_eq!(plan.assignments, vec![(0, 3), (1, 2)]);
    // Both workers are still busy: nothing is handed out.
    let plan = s.schedule_round(&vec![ProcessorPoll::Empty, ProcessorPoll::Empty]);
    assert!(!plan.stop);
    assert!(plan.assignments.is_empty());
    // The second worker completed its job and takes the last one.
    let plan = s.schedule_round(&vec![ProcessorPoll::Empty, ProcessorPoll::Completed]);
    assert!(!plan.stop);
    assert_eq!(plan.assignments, vec![(1, 1)]);
    let plan = s.schedule_round(&vec![ProcessorPoll::Completed, ProcessorPoll::Empty]);
    assert!(!plan.stop);
    let plan = s.schedule_round(&vec![ProcessorPoll::Empty, ProcessorPoll::Completed]);
    assert!(plan.stop);
    assert!(plan.assignments.is_empty());
}

#[test]
fn job_scheduler_waits_for_the_job_to_complete() {
    let mut s: JobScheduler<u32, &str> = JobScheduler::new(vec!["w0"]);
    s.queue(1);
    let plan = s.schedule_round(&vec![ProcessorPoll::Empty]);
    assert_eq!(plan.assignments, vec![(0, 1)]);
    assert!(!plan.stop);
    let plan = s.schedule_round(&vec![ProcessorPoll::Empty]);
    assert!(!plan.stop);
    let plan = s.schedule_round(&vec![ProcessorPoll::Completed]);
    assert!(plan.stop);
}

#[test]
fn job_scheduler_drops_disconnected_workers() {
    let mut s: JobScheduler<u32, &str> = JobScheduler::new(vec!["w0", "w1", "w2"]);
    s.queue(7);
    s.queue(8);
    let plan = s.schedule_round(&vec![
        ProcessorPoll::Disconnected,
        ProcessorPoll::Empty,
        ProcessorPoll::Disconnected,
    ]);
    assert_eq!(s.processor_count(), 1);
    assert_eq!(*s.handle(0), "w1");
    assert_eq!(plan.assignments, vec![(0, 8)]);
    assert!(!plan.stop);
    let processors = s.into_processors();
    assert_eq!(processors.len(), 1);
    assert!(processors[0].job_in_progress);
}

#[test]
fn job_scheduler_with_no_workers_never_stops_while_jobs_wait() {
    let mut s: JobScheduler<u32, ()> = JobScheduler::new(vec![]);
    s.queue(1);
    let plan = s.schedule_round(&vec![]);
    assert!(!plan.stop);
    assert!(plan.assignments.is_empty());
}

#[test]
fn res_path_is_res() {
    assert_eq!(FileSystem::res_path(), "res");
}

#[test]
fn find_file_takes_first_file_of_that_name() {
    let entries = vec![
        DirEntry { name: "font.ttf".to_string(), is_dir: true },
        DirEntry { name: "other.png".to_string(), is_dir: false },
        DirEntry { name: "font.ttf".to_string(), is_dir: false },
        DirEntry { name: "font.ttf".to_string(), is_dir: false },
    ];
    assert_eq!(FileSystem::find_file("font.ttf", &entries), Some(2));
    assert_eq!(FileSystem::find_file("missing.obj", &entries), None);
    assert_eq!(FileSystem::find_file("", &vec![]), None);
}

#[test]
fn asset_moves_from_buffering_to_ready_to_consumed() {
    let mut asset: Asset<u32> = Asset::load("model.glb");
    assert_eq!(asset.state(), AssetState::Buffering);
    assert_eq!(asset.file(), "model.glb");
    assert!(asset.asset().is_none());
    assert_eq!(asset.try_receive(Receipt::Empty), AssetState::Buffering);
    assert_eq!(asset.try_receive(Receipt::Received(42)), AssetState::Ready);
    assert_eq!(asset.asset(), Some(&42));
    *asset.asset_mut(Receipt::Empty).unwrap() = 43;
    assert_eq!(asset.asset(), Some(&43));
    // A ready asset ignores what the channel holds.
    assert_eq!(asset.try_receive(Receipt::Disconnected), AssetState::Ready);
    assert_eq!(asset.consume().map(|b| *b), Some(43));
    assert_eq!(asset.state(), AssetState::Consumed);
    assert!(asset.asset().is_none());
    assert!(asset.asset_mut(Receipt::Received(7)).is_none());
    assert_eq!(asset.try_receive(Receipt::Received(1)), AssetState::Consumed);
    assert!(asset.consume().is_none());
}

#[test]
fn buffering_asset_takes_the_value_through_asset_mut() {
    let mut asset: Asset<u32> = Asset::load("model.glb");
    assert!(asset.asset_mut(Receipt::Empty).is_none());
    assert_eq!(asset.state(), AssetState::Buffering);
    assert_eq!(asset.asset_mut(Receipt::Received(5)).map(|v| *v), Some(5));
    assert_eq!(asset.state(), AssetState::Ready);
}

#[test]
fn key_input_carries_key_and_state() {
    let i = Input::Key { key: Key::Space, state: PressState::Pressed };
    assert_eq!(i.clone(), i);
}

#[test]
fn fill_color_follows_cursor_state() {
    let base = Color { r: 1, g: 1, b: 1, a: 255 };
    let hover = Color { r: 2, g: 2, b: 2, a: 255 };
    let held = Color { r: 3, g: 3, b: 3, a: 255 };
    let mut ci = CursorInteractable::new();
    assert_eq!(ci.fill_color(base, hover, held), base);
    ci.update(&Input::Mouse(Mouse::Moved { x: 5, y: 5 }));
    assert_eq!(ci.fill_color(base, hover, held), hover);
    ci.update(&Input::Mouse(Mouse::Clicked { x: 5, y: 5, button: MouseButton::Left }));
    assert_eq!(ci.fill_color(base, hover, held), held);
}

#[test]
fn render_queue_refill_reverses_the_commands() {
    let mut q: RenderQueue<u8> = RenderQueue::new(4);
    q.push(9);
    q.refill_reversed(vec![1, 2, 3]);
    assert_eq!(q.commands(), &vec![3, 2, 1]);
    q.refill_reversed(vec![]);
    assert!(q.commands().is_empty());
}

#[test]
fn push_at_stamps_the_given_time() {
    let mut q = EventQueue::new(2);
    q.push_at(Input::Tick(3), 42);
    let e = q.pop().unwrap();
    assert_eq!(e.time, 42);
    assert_eq!(e.input, Input::Tick(3));
}
