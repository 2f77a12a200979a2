use instance_engine::camera_controller::CameraController;
use instance_engine::event::{
    Dispatched, EngineChange, EngineEvent, Event, EventMatcher, EventSystem, InputHandler,
    InputObserver, UpdateHandler, UpdateObserver, WindowAction,
};
use instance_engine::instance::{Instance, InstanceType, Position, Rotation};
use instance_engine::instance_handler::InstanceHandler;
use instance_engine::key_state::{KeyboardInput, KEY_C, KEY_ESCAPE, KEY_SPACE, KEY_W, KEY_X};
use instance_engine::listeners::{
    CameraKeyListener, CameraListener, Direction, KeyMapListener, Nudge, TestListener,
};
use instance_engine::render_state::{RenderState, SurfaceSize};

fn positions(count: usize) -> Vec<Position> {
    (0..count)
        .map(|i| Position { x: (i as f32).to_bits(), y: 0, z: 0 })
        .collect()
}

fn state() -> RenderState {
    RenderState::new(SurfaceSize { width: 640, height: 480 }, InstanceHandler::new())
}

fn registry() -> EventSystem<UpdateHandler, InputHandler> {
    let mut events = EventSystem::new();
    events.add_update_observer(UpdateHandler::Test(TestListener {}));
    events.add_input_observer(InputHandler::CameraKey(CameraKeyListener {}));
    events.add_input_observer(InputHandler::KeyMap(KeyMapListener {}));
    events.add_update_observer(UpdateHandler::Camera(CameraListener {}));
    events
}

fn key(code: u32, pressed: bool) -> KeyboardInput {
    KeyboardInput { virtual_keycode: Some(code), pressed }
}

#[test]
fn empty_registry_does_nothing() {
    let events: EventSystem<UpdateHandler, InputHandler> = EventSystem::new();
    let mut state = state();
    let effects = events.notify_update(&mut state);
    assert!(effects.nudges.is_empty());
    assert!(effects.moves.is_empty());
    let results =
        events.notify_keyboard_input(&key(KEY_SPACE, true), &mut state, &positions(4), Rotation::identity());
    assert!(results.is_empty());
    assert_eq!(state.instance_handler.total_added(), 0);
    assert!(!state.key_state.is_pressed(&KEY_SPACE));
}

#[test]
fn keyboard_events_reach_the_input_observers_in_order() {
    let events = registry();
    let mut state = state();
    let results =
        events.notify_keyboard_input(&key(KEY_W, true), &mut state, &positions(4), Rotation::identity());
    assert!(results.is_empty());
    assert!(state.camera_controller.is_forward_pressed);
    assert!(state.key_state.is_pressed(&KEY_W));
    let results = events.notify_keyboard_input(
        &key(KEY_SPACE, true),
        &mut state,
        &positions(4),
        Rotation::identity(),
    );
    assert_eq!(results, vec![Ok(0), Ok(500_000), Ok(1), Ok(500_001)]);
    assert_eq!(state.instance_handler.record(1).unwrap().instance_type, InstanceType::Cube);
    assert_eq!(
        state.instance_handler.record(500_001).unwrap().position,
        Position { x: 3.0f32.to_bits(), y: 0, z: 0 }
    );
}

#[test]
fn two_key_map_observers_spawn_twice() {
    let mut events: EventSystem<UpdateHandler, InputHandler> = EventSystem::new();
    events.add_input_observer(InputHandler::KeyMap(KeyMapListener {}));
    events.add_input_observer(InputHandler::Test(TestListener {}));
    events.add_input_observer(InputHandler::KeyMap(KeyMapListener {}));
    let mut state = state();
    let results = events.notify_keyboard_input(
        &key(KEY_SPACE, false),
        &mut state,
        &positions(2),
        Rotation::identity(),
    );
    assert_eq!(results, vec![Ok(0), Ok(500_000), Ok(1), Ok(500_001)]);
}

#[test]
fn update_collects_nudges_and_camera_moves() {
    let events = registry();
    let mut state = state();
    state
        .instance_handler
        .add(Instance::new(InstanceType::Cube, Position::origin(), Rotation::identity(), 5))
        .unwrap();
    state.update();
    state.key_state.on_key_change(KEY_X, true);
    state.camera_controller.process_events(&key(KEY_W, true));
    let effects = events.notify_update(&mut state);
    assert_eq!(effects.nudges, vec![Nudge { slot: 0, direction: Direction::NegativeX }]);
    assert_eq!(
        effects.moves,
        vec![CameraController {
            is_forward_pressed: true,
            is_backward_pressed: false,
            is_left_pressed: false,
            is_right_pressed: false,
        }]
    );
    assert!(state.instance_handler.is_dirty(0));
    state.key_state.on_key_change(KEY_C, true);
    let effects = events.notify_update(&mut state);
    assert_eq!(effects.nudges.len(), 2);
    assert_eq!(state.update().len(), 1);
}

#[test]
fn matcher_routes_events() {
    let events = registry();
    let mut state = state();
    let spots = positions(2);
    let redraw = EventMatcher::on_event(7, &Event::RedrawRequested, &events, &mut state, &spots, Rotation::identity());
    match redraw {
        Dispatched::Updated(effects) => {
            assert!(effects.nudges.is_empty());
            assert_eq!(effects.moves.len(), 1);
        }
        _ => panic!("a redraw request runs the update observers"),
    }
    let ours = Event::KeyboardInput { window_id: 7, input: key(KEY_SPACE, true) };
    match EventMatcher::on_event(7, &ours, &events, &mut state, &spots, Rotation::identity()) {
        Dispatched::Keyboard(results) => assert_eq!(results, vec![Ok(0), Ok(500_000)]),
        _ => panic!("a keyboard event of this window runs the input observers"),
    }
    let theirs = Event::KeyboardInput { window_id: 8, input: key(KEY_SPACE, true) };
    assert!(matches!(
        EventMatcher::on_event(7, &theirs, &events, &mut state, &spots, Rotation::identity()),
        Dispatched::Ignored
    ));
    assert!(matches!(
        EventMatcher::on_event(7, &Event::Other, &events, &mut state, &spots, Rotation::identity()),
        Dispatched::Ignored
    ));
    assert_eq!(state.instance_handler.total_added(), 2);
}

#[test]
fn engine_change_carries_its_event() {
    let change = EngineChange { event: EngineEvent::KeyPress };
    assert_eq!(change.event, EngineEvent::KeyPress);
}

#[test]
fn window_events_end_the_loop_or_resize() {
    let size = SurfaceSize { width: 300, height: 200 };
    assert_eq!(
        EventMatcher::window_action(7, &Event::CloseRequested { window_id: 7 }),
        WindowAction::Exit
    );
    assert_eq!(
        EventMatcher::window_action(7, &Event::CloseRequested { window_id: 9 }),
        WindowAction::Proceed
    );
    let escape_down = Event::KeyboardInput { window_id: 7, input: key(KEY_ESCAPE, true) };
    let escape_up = Event::KeyboardInput { window_id: 7, input: key(KEY_ESCAPE, false) };
    let space_down = Event::KeyboardInput { window_id: 7, input: key(KEY_SPACE, true) };
    let unnamed = Event::KeyboardInput {
        window_id: 7,
        input: KeyboardInput { virtual_keycode: None, pressed: true },
    };
    assert_eq!(EventMatcher::window_action(7, &escape_down), WindowAction::Exit);
    assert_eq!(EventMatcher::window_action(8, &escape_down), WindowAction::Proceed);
    assert_eq!(EventMatcher::window_action(7, &escape_up), WindowAction::Proceed);
    assert_eq!(EventMatcher::window_action(7, &space_down), WindowAction::Proceed);
    assert_eq!(EventMatcher::window_action(7, &unnamed), WindowAction::Proceed);
    assert_eq!(
        EventMatcher::window_action(7, &Event::Resized { window_id: 7, size }),
        WindowAction::Resize(size)
    );
    assert_eq!(
        EventMatcher::window_action(7, &Event::Resized { window_id: 1, size }),
        WindowAction::Proceed
    );
    assert_eq!(EventMatcher::window_action(7, &Event::RedrawRequested), WindowAction::Proceed);
    assert_eq!(EventMatcher::window_action(7, &Event::Other), WindowAction::Proceed);
}

#[test]
fn a_registry_of_one_handler_type_needs_no_wrapper() {
    let mut events: EventSystem<CameraListener, KeyMapListener> = EventSystem::new();
    events.add_update_observer(CameraListener {});
    events.add_update_observer(CameraListener {});
    events.add_input_observer(KeyMapListener {});
    let mut state = state();
    assert_eq!(events.notify_update(&mut state).moves.len(), 2);
    let results = events.notify_keyboard_input(
        &key(KEY_SPACE, true),
        &mut state,
        &positions(3),
        Rotation::identity(),
    );
    assert_eq!(results, vec![Ok(0), Ok(500_000), Ok(1)]);
    assert!(state.key_state.is_pressed(&KEY_SPACE));
}

#[test]
fn handlers_dispatch_like_the_listeners_they_wrap() {
    let mut state = state();
    state.key_state.on_key_change(KEY_C, true);
    let direct = TestListener {}.on_update(&mut state);
    let wrapped = UpdateHandler::Test(TestListener {}).on_update(&mut state);
    assert_eq!(direct.nudges, wrapped.nudges);
    assert_eq!(direct.nudges, vec![Nudge { slot: 0, direction: Direction::PositiveX }]);
    assert!(UpdateHandler::CameraKey(CameraKeyListener {}).on_update(&mut state).nudges.is_empty());
    let spots = positions(2);
    assert!(InputHandler::Test(TestListener {})
        .on_input_change(&key(KEY_SPACE, true), &mut state, &spots, Rotation::identity())
        .is_empty());
    assert!(InputHandler::CameraKey(CameraKeyListener {})
        .on_input_change(&key(KEY_W, true), &mut state, &spots, Rotation::identity())
        .is_empty());
    assert!(state.camera_controller.is_forward_pressed);
    assert_eq!(
        InputHandler::KeyMap(KeyMapListener {}).on_input_change(
            &key(KEY_SPACE, true),
            &mut state,
            &spots,
            Rotation::identity()
        ),
        vec![Ok(0), Ok(500_000)]
    );
}
