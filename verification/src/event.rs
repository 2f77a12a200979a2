//! The registry of handlers and the dispatch of events to them.

use vstd::prelude::*;
use crate::camera_controller::CameraController;
use crate::instance::{Position, Rotation};
use crate::key_state::{KeyboardInput, KEY_ESCAPE};
use crate::listeners::{CameraKeyListener, CameraListener, KeyMapListener, Nudge, TestListener};
use crate::render_state::{RenderState, SurfaceSize};
use crate::table_model::{TableError, TableView};

verus! {

/// The kinds of change a handler can be told of.
#[derive(Clone, Copy, PartialEq, Eq, Structural, Debug)]
pub enum EngineEvent {
    KeyPress,
}

/// A change a handler is told of.
#[derive(Clone, Copy, PartialEq, Eq, Structural, Debug)]
pub struct EngineChange {
    pub event: EngineEvent,
}

/// What the windowing system reports, reduced to what the handlers consume.
#[derive(Clone, Copy, PartialEq, Eq, Structural, Debug)]
pub enum Event {
    /// The window `window_id` asks for a new frame.
    RedrawRequested,
    /// A key went down or up in window `window_id`.
    KeyboardInput { window_id: u64, input: KeyboardInput },
    /// The user asked to close window `window_id`.
    CloseRequested { window_id: u64 },
    /// Window `window_id` has a new size, by resizing or by a change of
    /// its scale factor.
    Resized { window_id: u64, size: SurfaceSize },
    /// Anything else.
    Other,
}

/// What the event loop does with its window on an event.
#[derive(Clone, Copy, PartialEq, Eq, Structural, Debug)]
pub enum WindowAction {
    /// Leave the event loop.
    Exit,
    /// Take over the new surface size.
    Resize(SurfaceSize),
    /// Nothing.
    Proceed,
}

/// The rule for window events: a close request or a press of the escape key
/// in the loop's own window ends the loop, a new size of that window is
/// taken over, and nothing else concerns the window.
pub open spec fn spec_window_action(event_window_id: u64, event: Event) -> WindowAction {
    match event {
        Event::CloseRequested { window_id } => if window_id == event_window_id {
            WindowAction::Exit
        } else {
            WindowAction::Proceed
        },
        Event::KeyboardInput { window_id, input } => if window_id == event_window_id
            && input.pressed && input.virtual_keycode == Some(KEY_ESCAPE) {
            WindowAction::Exit
        } else {
            WindowAction::Proceed
        },
        Event::Resized { window_id, size } => if window_id == event_window_id {
            WindowAction::Resize(size)
        } else {
            WindowAction::Proceed
        },
        _ => WindowAction::Proceed,
    }
}

/// What the frame's handlers ask the caller to carry out.
pub struct UpdateEffects {
    /// Records to move, in the order asked for.
    pub nudges: Vec<Nudge>,
    /// Camera moves to apply, one entry per camera handler.
    pub moves: Vec<CameraController>,
}

/// The parts of the frame state that the handlers read and change.
pub struct StateView {
    pub table: TableView,
    pub keys: Set<u32>,
    pub camera: CameraController,
}

/// The frame state as the handlers see it.
pub open spec fn state_view(state: &RenderState) -> StateView {
    StateView {
        table: state.instance_handler@,
        keys: state.key_state@,
        camera: state.camera_controller,
    }
}

/// A handler that is called once per frame.
///
/// A handler is called through a shared reference: what it has to remember
/// lives in the frame state, to which it gets exclusive access.
pub trait UpdateObserver {
    /// The nudges the handler asks for when it is called on state `s`.
    spec fn update_nudges(&self, s: StateView) -> Seq<Nudge>;

    /// The camera moves the handler asks for when it is called on state `s`.
    spec fn update_moves(&self, s: StateView) -> Seq<CameraController>;

    /// The state the handler leaves when it is called on state `s`.
    spec fn update_step(&self, s: StateView) -> StateView;

    /// Runs the handler for one frame.
    fn on_update(&self, state: &mut RenderState) -> (effects: UpdateEffects)
        requires
            old(state).wf(),
        ensures
            final(state).wf(),
            state_view(final(state)) == self.update_step(state_view(old(state))),
            final(state).size == old(state).size,
            final(state).render_stats == old(state).render_stats,
            effects.nudges@ == self.update_nudges(state_view(old(state))),
            effects.moves@ == self.update_moves(state_view(old(state))),
    ;
}

/// A handler that is called on every keyboard event.
///
/// `positions` and `rotation` are where and how a handler that spawns
/// instances places them.
pub trait InputObserver {
    /// The state the handler leaves when it is called on state `s`.
    spec fn input_step(
        &self,
        input: KeyboardInput,
        positions: Seq<Position>,
        rotation: Rotation,
        s: StateView,
    ) -> StateView;

    /// The outcomes of the allocations the handler makes when it is called
    /// on state `s`.
    spec fn input_results(
        &self,
        input: KeyboardInput,
        positions: Seq<Position>,
        rotation: Rotation,
        s: StateView,
    ) -> Seq<Result<usize, TableError>>;

    /// Runs the handler for one keyboard event.
    fn on_input_change(
        &self,
        input: &KeyboardInput,
        state: &mut RenderState,
        positions: &Vec<Position>,
        rotation: Rotation,
    ) -> (results: Vec<Result<usize, TableError>>)
        requires
            old(state).wf(),
        ensures
            final(state).wf(),
            state_view(final(state)) == self.input_step(
                *input,
                positions@,
                rotation,
                state_view(old(state)),
            ),
            final(state).size == old(state).size,
            final(state).render_stats == old(state).render_stats,
            results@ == self.input_results(*input, positions@, rotation, state_view(old(state))),
    ;
}

/// One of the library's update handlers, as an entry of a registry.
#[derive(Clone, Copy, PartialEq, Eq, Structural, Debug)]
pub enum UpdateHandler {
    Test(TestListener),
    CameraKey(CameraKeyListener),
    Camera(CameraListener),
}

/// One of the library's input handlers, as an entry of a registry.
#[derive(Clone, Copy, PartialEq, Eq, Structural, Debug)]
pub enum InputHandler {
    Test(TestListener),
    CameraKey(CameraKeyListener),
    KeyMap(KeyMapListener),
}

impl UpdateObserver for UpdateHandler {
    open spec fn update_nudges(&self, s: StateView) -> Seq<Nudge> {
        match *self {
            UpdateHandler::Test(l) => l.update_nudges(s),
            UpdateHandler::CameraKey(l) => l.update_nudges(s),
            UpdateHandler::Camera(l) => l.update_nudges(s),
        }
    }

    open spec fn update_moves(&self, s: StateView) -> Seq<CameraController> {
        match *self {
            UpdateHandler::Test(l) => l.update_moves(s),
            UpdateHandler::CameraKey(l) => l.update_moves(s),
            UpdateHandler::Camera(l) => l.update_moves(s),
        }
    }

    open spec fn update_step(&self, s: StateView) -> StateView {
        match *self {
            UpdateHandler::Test(l) => l.update_step(s),
            UpdateHandler::CameraKey(l) => l.update_step(s),
            UpdateHandler::Camera(l) => l.update_step(s),
        }
    }

    fn on_update(&self, state: &mut RenderState) -> (effects: UpdateEffects) {
        match self {
            UpdateHandler::Test(l) => l.on_update(state),
            UpdateHandler::CameraKey(l) => l.on_update(state),
            UpdateHandler::Camera(l) => l.on_update(state),
        }
    }
}

impl InputObserver for InputHandler {
    open spec fn input_step(
        &self,
        input: KeyboardInput,
        positions: Seq<Position>,
        rotation: Rotation,
        s: StateView,
    ) -> StateView {
        match *self {
            InputHandler::Test(l) => l.input_step(input, positions, rotation, s),
            InputHandler::CameraKey(l) => l.input_step(input, positions, rotation, s),
            InputHandler::KeyMap(l) => l.input_step(input, positions, rotation, s),
        }
    }

    open spec fn input_results(
        &self,
        input: KeyboardInput,
        positions: Seq<Position>,
        rotation: Rotation,
        s: StateView,
    ) -> Seq<Result<usize, TableError>> {
        match *self {
            InputHandler::Test(l) => l.input_results(input, positions, rotation, s),
            InputHandler::CameraKey(l) => l.input_results(input, positions, rotation, s),
            InputHandler::KeyMap(l) => l.input_results(input, positions, rotation, s),
        }
    }

    fn on_input_change(
        &self,
        input: &KeyboardInput,
        state: &mut RenderState,
        positions: &Vec<Position>,
        rotation: Rotation,
    ) -> (results: Vec<Result<usize, TableError>>) {
        match self {
            InputHandler::Test(l) => l.on_input_change(input, state, positions, rotation),
            InputHandler::CameraKey(l) => l.on_input_change(input, state, positions, rotation),
            InputHandler::KeyMap(l) => l.on_input_change(input, state, positions, rotation),
        }
    }
}

/// The state after the update handlers `os`, called in order.
pub open spec fn updated_state<U: UpdateObserver>(os: Seq<U>, s: StateView) -> StateView
    decreases os.len(),
{
    if os.len() == 0 {
        s
    } else {
        os.last().update_step(updated_state(os.drop_last(), s))
    }
}

/// The nudges the update handlers `os` ask for, called in order.
pub open spec fn updated_nudges<U: UpdateObserver>(os: Seq<U>, s: StateView) -> Seq<Nudge>
    decreases os.len(),
{
    if os.len() == 0 {
        Seq::empty()
    } else {
        updated_nudges(os.drop_last(), s) + os.last().update_nudges(
            updated_state(os.drop_last(), s),
        )
    }
}

/// The camera moves the update handlers `os` ask for, called in order.
pub open spec fn updated_moves<U: UpdateObserver>(os: Seq<U>, s: StateView) -> Seq<
    CameraController,
>
    decreases os.len(),
{
    if os.len() == 0 {
        Seq::empty()
    } else {
        updated_moves(os.drop_last(), s) + os.last().update_moves(updated_state(os.drop_last(), s))
    }
}

/// The state after the input handlers `os`, called in order.
pub open spec fn input_state<I: InputObserver>(
    os: Seq<I>,
    input: KeyboardInput,
    positions: Seq<Position>,
    rotation: Rotation,
    s: StateView,
) -> StateView
    decreases os.len(),
{
    if os.len() == 0 {
        s
    } else {
        os.last().input_step(
            input,
            positions,
            rotation,
            input_state(os.drop_last(), input, positions, rotation, s),
        )
    }
}

/// The allocation outcomes of the input handlers `os`, called in order.
pub open spec fn input_outcomes<I: InputObserver>(
    os: Seq<I>,
    input: KeyboardInput,
    positions: Seq<Position>,
    rotation: Rotation,
    s: StateView,
) -> Seq<Result<usize, TableError>>
    decreases os.len(),
{
    if os.len() == 0 {
        Seq::empty()
    } else {
        input_outcomes(os.drop_last(), input, positions, rotation, s) + os.last().input_results(
            input,
            positions,
            rotation,
            input_state(os.drop_last(), input, positions, rotation, s),
        )
    }
}

/// The registry of handlers, called in the order of their registration.
pub struct EventSystem<U: UpdateObserver, I: InputObserver> {
    update_observers: Vec<U>,
    input_observers: Vec<I>,
}

impl<U: UpdateObserver, I: InputObserver> EventSystem<U, I> {
    /// The registered update handlers, in order.
    pub closed spec fn update_observers(&self) -> Seq<U> {
        self.update_observers@
    }

    /// The registered input handlers, in order.
    pub closed spec fn input_observers(&self) -> Seq<I> {
        self.input_observers@
    }

    /// Builds a registry without handlers.
    pub fn new() -> (r: Self)
        ensures
            r.update_observers() == Seq::<U>::empty(),
            r.input_observers() == Seq::<I>::empty(),
    {
        EventSystem { update_observers: Vec::new(), input_observers: Vec::new() }
    }

    /// Registers an update handler behind those already registered.
    pub fn add_update_observer(&mut self, observer: U)
        ensures
            final(self).update_observers() == old(self).update_observers().push(observer),
            final(self).input_observers() == old(self).input_observers(),
    {
        self.update_observers.push(observer);
    }

    /// Registers an input handler behind those already registered.
    pub fn add_input_observer(&mut self, observer: I)
        ensures
            final(self).input_observers() == old(self).input_observers().push(observer),
            final(self).update_observers() == old(self).update_observers(),
    {
        self.input_observers.push(observer);
    }

    /// Calls every update handler, in registration order, and collects what
    /// they ask the caller to carry out.
    pub fn notify_update(&self, state: &mut RenderState) -> (effects: UpdateEffects)
        requires
            old(state).wf(),
        ensures
            final(state).wf(),
            state_view(final(state)) == updated_state(
                self.update_observers(),
                state_view(old(state)),
            ),
            final(state).size == old(state).size,
            final(state).render_stats == old(state).render_stats,
            effects.nudges@ == updated_nudges(self.update_observers(), state_view(old(state))),
            effects.moves@ == updated_moves(self.update_observers(), state_view(old(state))),
    {
        let mut effects = UpdateEffects { nudges: Vec::new(), moves: Vec::new() };
        let ghost os = self.update_observers@;
        let ghost start = state_view(state);
        let mut i: usize = 0;
        while i < self.update_observers.len()
            invariant
                state.wf(),
                os == self.update_observers@,
                i <= os.len(),
                state_view(state) == updated_state(os.take(i as int), start),
                state.size == old(state).size,
                state.render_stats == old(state).render_stats,
                effects.nudges@ == updated_nudges(os.take(i as int), start),
                effects.moves@ == updated_moves(os.take(i as int), start),
            decreases os.len() - i,
        {
            proof {
                assert(os.take(i + 1).drop_last() =~= os.take(i as int));
            }
            let mut asked = self.update_observers[i].on_update(state);
            effects.nudges.append(&mut asked.nudges);
            effects.moves.append(&mut asked.moves);
            i += 1;
        }
        proof {
            assert(os.take(os.len() as int) =~= os);
        }
        effects
    }

    /// Calls every input handler, in registration order, with a keyboard
    /// event, and collects the outcomes of the allocations they make.
    pub fn notify_keyboard_input(
        &self,
        input: &KeyboardInput,
        state: &mut RenderState,
        positions: &Vec<Position>,
        rotation: Rotation,
    ) -> (results: Vec<Result<usize, TableError>>)
        requires
            old(state).wf(),
        ensures
            final(state).wf(),
            state_view(final(state)) == input_state(
                self.input_observers(),
                *input,
                positions@,
                rotation,
                state_view(old(state)),
            ),
            final(state).size == old(state).size,
            final(state).render_stats == old(state).render_stats,
            results@ == input_outcomes(
                self.input_observers(),
                *input,
                positions@,
                rotation,
                state_view(old(state)),
            ),
    {
        let mut results: Vec<Result<usize, TableError>> = Vec::new();
        let ghost os = self.input_observers@;
        let ghost start = state_view(state);
        let mut i: usize = 0;
        while i < self.input_observers.len()
            invariant
                state.wf(),
                os == self.input_observers@,
                i <= os.len(),
                state_view(state) == input_state(
                    os.take(i as int),
                    *input,
                    positions@,
                    rotation,
                    start,
                ),
                state.size == old(state).size,
                state.render_stats == old(state).render_stats,
                results@ == input_outcomes(os.take(i as int), *input, positions@, rotation, start),
            decreases os.len() - i,
        {
            proof {
                assert(os.take(i + 1).drop_last() =~= os.take(i as int));
            }
            let mut outcomes = self.input_observers[i].on_input_change(
                input,
                state,
                positions,
                rotation,
            );
            results.append(&mut outcomes);
            i += 1;
        }
        proof {
            assert(os.take(os.len() as int) =~= os);
        }
        results
    }
}

/// What became of one event.
pub enum Dispatched {
    /// The update handlers ran.
    Updated(UpdateEffects),
    /// The input handlers ran.
    Keyboard(Vec<Result<usize, TableError>>),
    /// The event concerns no handler.
    Ignored,
}

/// The dispatcher of window events.
pub struct EventMatcher {}

impl EventMatcher {
    /// Hands an event to the handlers it concerns: a redraw request to the
    /// update handlers, a keyboard event of the window `event_window_id` to
    /// the input handlers. Every other event changes nothing.
    pub fn on_event<U: UpdateObserver, I: InputObserver>(
        event_window_id: u64,
        event: &Event,
        event_system: &EventSystem<U, I>,
        state: &mut RenderState,
        positions: &Vec<Position>,
        rotation: Rotation,
    ) -> (r: Dispatched)
        requires
            old(state).wf(),
        ensures
            final(state).wf(),
            final(state).size == old(state).size,
            final(state).render_stats == old(state).render_stats,
            match *event {
                Event::RedrawRequested => {
                    &&& r is Updated
                    &&& state_view(final(state)) == updated_state(
                        event_system.update_observers(),
                        state_view(old(state)),
                    )
                    &&& r->Updated_0.nudges@ == updated_nudges(
                        event_system.update_observers(),
                        state_view(old(state)),
                    )
                    &&& r->Updated_0.moves@ == updated_moves(
                        event_system.update_observers(),
                        state_view(old(state)),
                    )
                },
                Event::KeyboardInput { window_id, input } => if window_id == event_window_id {
                    &&& r is Keyboard
                    &&& state_view(final(state)) == input_state(
                        event_system.input_observers(),
                        input,
                        positions@,
                        rotation,
                        state_view(old(state)),
                    )
                    &&& r->Keyboard_0@ == input_outcomes(
                        event_system.input_observers(),
                        input,
                        positions@,
                        rotation,
                        state_view(old(state)),
                    )
                } else {
                    r is Ignored && state_view(final(state)) == state_view(old(state))
                },
                _ => r is Ignored && state_view(final(state)) == state_view(old(state)),
            },
    {
        match event {
            Event::RedrawRequested => Dispatched::Updated(event_system.notify_update(state)),
            Event::KeyboardInput { window_id, input } => {
                if *window_id == event_window_id {
                    Dispatched::Keyboard(
                        event_system.notify_keyboard_input(input, state, positions, rotation),
                    )
                } else {
                    Dispatched::Ignored
                }
            },
            _ => Dispatched::Ignored,
        }
    }

    /// Decides what an event means for the window of the event loop.
    pub fn window_action(event_window_id: u64, event: &Event) -> (r: WindowAction)
        ensures
            r == spec_window_action(event_window_id, *event),
    {
        match event {
            Event::CloseRequested { window_id } => {
                if *window_id == event_window_id {
                    WindowAction::Exit
                } else {
                    WindowAction::Proceed
                }
            },
            Event::KeyboardInput { window_id, input } => {
                if *window_id == event_window_id && input.pressed {
                    match input.virtual_keycode {
                        Some(code) => if code == KEY_ESCAPE {
                            WindowAction::Exit
                        } else {
                            WindowAction::Proceed
                        },
                        None => WindowAction::Proceed,
                    }
                } else {
                    WindowAction::Proceed
                }
            },
            Event::Resized { window_id, size } => {
                if *window_id == event_window_id {
                    WindowAction::Resize(*size)
                } else {
                    WindowAction::Proceed
                }
            },
            _ => WindowAction::Proceed,
        }
    }
}

} // verus!
