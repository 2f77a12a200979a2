//! The handlers of the frame driver: what each does to the state on a
//! keyboard event and on a frame update.

use vstd::prelude::*;
use crate::camera_controller::CameraController;
use crate::instance::{Instance, InstanceType, Position, Rotation};
use crate::instance_handler::InstanceHandler;
use crate::event::{InputObserver, StateView, UpdateEffects, UpdateObserver};
use crate::key_state::{KeyboardInput, KEY_C, KEY_SPACE, KEY_X};
use crate::render_state::RenderState;
use crate::table_model::{add_all, add_result, update_view, TableError};

verus! {

/// Number of cube-and-triangle pairs that one burst asks for.
pub const BURST_ROUNDS: usize = 500;

/// The bucket capacity that the candidates of a burst declare.
pub const BURST_CAPACITY: usize = 500_000;

/// Bit pattern of the single-precision float `0.5`: the length of one nudge.
pub const NUDGE_STEP_BITS: u32 = 0x3F00_0000;

/// Bit pattern of the single-precision float `500.0`: spawned instances lie
/// between zero and this bound on every axis.
pub const SPAWN_EXTENT_BITS: u32 = 0x43FA_0000;

/// Bit pattern of the single-precision float `2.0`: the angle in degrees
/// about the y axis by which spawned instances are rotated.
pub const SPAWN_ANGLE_BITS: u32 = 0x4000_0000;

/// The slot that the test keys move.
pub const NUDGED_SLOT: usize = 0;

/// A direction along the x axis.
#[derive(Clone, Copy, PartialEq, Eq, Structural, Debug)]
pub enum Direction {
    PositiveX,
    NegativeX,
}

/// A request to move the record in `slot` by half a unit in `direction`.
#[derive(Clone, Copy, PartialEq, Eq, Structural, Debug)]
pub struct Nudge {
    pub slot: usize,
    pub direction: Direction,
}

/// The candidates of a burst: for each of the first `2 * BURST_ROUNDS`
/// positions one candidate, cubes and triangles in turn, beginning with a
/// cube, all with the same rotation and declared capacity.
pub open spec fn burst(positions: Seq<Position>, rotation: Rotation) -> Seq<Instance> {
    Seq::new(
        if positions.len() < 2 * BURST_ROUNDS {
            positions.len()
        } else {
            (2 * BURST_ROUNDS) as nat
        },
        |i: int|
            Instance {
                instance_type: if i % 2 == 0 {
                    InstanceType::Cube
                } else {
                    InstanceType::Triangle
                },
                position: positions[i],
                rotation,
                start_offset: 0,
                array_index: 0,
                max_allowed: BURST_CAPACITY,
            },
    )
}

/// The number of positions the handlers consume on a keyboard event: those
/// of a burst on the space bar, none on any other key.
pub fn burst_demand(input: &KeyboardInput) -> (n: usize)
    ensures
        n == if input.virtual_keycode == Some(KEY_SPACE) {
            2 * BURST_ROUNDS
        } else {
            0
        },
{
    match input.virtual_keycode {
        Some(code) => if code == KEY_SPACE {
            2 * BURST_ROUNDS
        } else {
            0
        },
        None => 0,
    }
}

/// Adds the candidates of a burst to the table, one after the other, and
/// reports the outcome of each allocation.
pub fn spawn_burst(handler: &mut InstanceHandler, positions: &Vec<Position>, rotation: Rotation) -> (results:
    Vec<Result<usize, TableError>>)
    requires
        old(handler).wf(),
    ensures
        final(handler).wf(),
        final(handler)@ == add_all(old(handler)@, burst(positions@, rotation)),
        results@.len() == burst(positions@, rotation).len(),
        forall|i: int|
            0 <= i < results@.len() ==> #[trigger] results@[i] == add_result(
                add_all(old(handler)@, burst(positions@, rotation).take(i)),
                burst(positions@, rotation)[i],
            ),
{
    let ghost cands = burst(positions@, rotation);
    let limit = if positions.len() < 2 * BURST_ROUNDS {
        positions.len()
    } else {
        2 * BURST_ROUNDS
    };
    let mut results: Vec<Result<usize, TableError>> = Vec::new();
    let mut i: usize = 0;
    while i < limit
        invariant
            handler.wf(),
            cands == burst(positions@, rotation),
            limit == cands.len(),
            limit <= positions@.len(),
            i <= limit,
            handler@ == add_all(old(handler)@, cands.take(i as int)),
            results@.len() == i,
            forall|j: int|
                0 <= j < i ==> #[trigger] results@[j] == add_result(
                    add_all(old(handler)@, cands.take(j)),
                    cands[j],
                ),
        decreases limit - i,
    {
        let kind = if i % 2 == 0 {
            InstanceType::Cube
        } else {
            InstanceType::Triangle
        };
        let candidate = Instance::new(kind, positions[i], rotation, BURST_CAPACITY);
        proof {
            assert(cands.take(i + 1).drop_last() =~= cands.take(i as int));
        }
        let outcome = handler.add(candidate);
        results.push(outcome);
        i += 1;
    }
    proof {
        assert(cands.take(limit as int) =~= cands);
    }
    results
}

/// The handler that moves a record while the test keys are held.
#[derive(Clone, Copy, PartialEq, Eq, Structural, Debug)]
pub struct TestListener {}

/// The nudges that the held keys ask for: `C` moves the record up the x
/// axis, `X` down; nothing is asked of a table without slots.
pub open spec fn spec_nudges(keys: Set<u32>, capacity: int) -> Seq<Nudge> {
    let up = if capacity > 0 && keys.contains(KEY_C) {
        seq![Nudge { slot: NUDGED_SLOT, direction: Direction::PositiveX }]
    } else {
        Seq::<Nudge>::empty()
    };
    let down = if capacity > 0 && keys.contains(KEY_X) {
        seq![Nudge { slot: NUDGED_SLOT, direction: Direction::NegativeX }]
    } else {
        Seq::<Nudge>::empty()
    };
    up + down
}

impl UpdateObserver for TestListener {
    open spec fn update_nudges(&self, s: StateView) -> Seq<Nudge> {
        spec_nudges(s.keys, s.table.slots.len() as int)
    }

    open spec fn update_moves(&self, s: StateView) -> Seq<CameraController> {
        Seq::empty()
    }

    open spec fn update_step(&self, s: StateView) -> StateView {
        if spec_nudges(s.keys, s.table.slots.len() as int).len() > 0 {
            StateView { table: update_view(s.table, NUDGED_SLOT as int), ..s }
        } else {
            s
        }
    }

    /// Asks for one nudge of the first record per held test key and queues
    /// the record for synchronization if any is asked for. The caller
    /// applies the nudges to the record's position.
    fn on_update(&self, state: &mut RenderState) -> (effects: UpdateEffects) {
        let mut nudges: Vec<Nudge> = Vec::new();
        if state.instance_handler.capacity() > 0 {
            if state.key_state.is_pressed(&KEY_C) {
                nudges.push(Nudge { slot: NUDGED_SLOT, direction: Direction::PositiveX });
                let _ = state.instance_handler.update(NUDGED_SLOT);
            }
            if state.key_state.is_pressed(&KEY_X) {
                nudges.push(Nudge { slot: NUDGED_SLOT, direction: Direction::NegativeX });
                let _ = state.instance_handler.update(NUDGED_SLOT);
            }
        }
        proof {
            let v = old(state).instance_handler@;
            assert(update_view(update_view(v, 0), 0).dirty =~= update_view(v, 0).dirty);
        }
        UpdateEffects { nudges, moves: Vec::new() }
    }
}

impl InputObserver for TestListener {
    open spec fn input_step(
        &self,
        input: KeyboardInput,
        positions: Seq<Position>,
        rotation: Rotation,
        s: StateView,
    ) -> StateView {
        s
    }

    open spec fn input_results(
        &self,
        input: KeyboardInput,
        positions: Seq<Position>,
        rotation: Rotation,
        s: StateView,
    ) -> Seq<Result<usize, TableError>> {
        Seq::empty()
    }

    /// Keyboard events do not concern this handler.
    fn on_input_change(
        &self,
        _input: &KeyboardInput,
        _state: &mut RenderState,
        _positions: &Vec<Position>,
        _rotation: Rotation,
    ) -> (results: Vec<Result<usize, TableError>>) {
        Vec::new()
    }
}

/// The handler that records key state and spawns a burst of instances on
/// the space bar.
#[derive(Clone, Copy, PartialEq, Eq, Structural, Debug)]
pub struct KeyMapListener {}

/// The candidates a keyboard event spawns: a burst on the space bar, going
/// down or up, and nothing on any other key.
pub open spec fn spawned(input: KeyboardInput, positions: Seq<Position>, rotation: Rotation) -> Seq<
    Instance,
> {
    if input.virtual_keycode == Some(KEY_SPACE) {
        burst(positions, rotation)
    } else {
        Seq::empty()
    }
}

impl InputObserver for KeyMapListener {
    open spec fn input_step(
        &self,
        input: KeyboardInput,
        positions: Seq<Position>,
        rotation: Rotation,
        s: StateView,
    ) -> StateView {
        StateView {
            table: add_all(s.table, spawned(input, positions, rotation)),
            keys: match input.virtual_keycode {
                None => s.keys,
                Some(code) => if input.pressed {
                    s.keys.insert(code)
                } else {
                    s.keys.remove(code)
                },
            },
            camera: s.camera,
        }
    }

    open spec fn input_results(
        &self,
        input: KeyboardInput,
        positions: Seq<Position>,
        rotation: Rotation,
        s: StateView,
    ) -> Seq<Result<usize, TableError>> {
        let cands = spawned(input, positions, rotation);
        Seq::new(cands.len(), |i: int| add_result(add_all(s.table, cands.take(i)), cands[i]))
    }

    /// Takes a keyboard event. An event without a key code changes nothing.
    /// Otherwise the key is recorded as held or released, and the space bar,
    /// going down or up, adds a burst of candidates at `positions`; the
    /// outcome of each allocation is returned.
    fn on_input_change(
        &self,
        input: &KeyboardInput,
        state: &mut RenderState,
        positions: &Vec<Position>,
        rotation: Rotation,
    ) -> (results: Vec<Result<usize, TableError>>) {
        let code = match input.virtual_keycode {
            Some(code) => code,
            None => {
                return Vec::new();
            },
        };
        state.key_state.on_key_change(code, input.pressed);
        if code == KEY_SPACE {
            spawn_burst(&mut state.instance_handler, positions, rotation)
        } else {
            Vec::new()
        }
    }
}

/// The handler that feeds keyboard events to the camera controller.
#[derive(Clone, Copy, PartialEq, Eq, Structural, Debug)]
pub struct CameraKeyListener {}

impl InputObserver for CameraKeyListener {
    open spec fn input_step(
        &self,
        input: KeyboardInput,
        positions: Seq<Position>,
        rotation: Rotation,
        s: StateView,
    ) -> StateView {
        StateView { camera: s.camera.spec_after(input), ..s }
    }

    open spec fn input_results(
        &self,
        input: KeyboardInput,
        positions: Seq<Position>,
        rotation: Rotation,
        s: StateView,
    ) -> Seq<Result<usize, TableError>> {
        Seq::empty()
    }

    /// Hands the event to the camera controller.
    fn on_input_change(
        &self,
        input: &KeyboardInput,
        state: &mut RenderState,
        _positions: &Vec<Position>,
        _rotation: Rotation,
    ) -> (results: Vec<Result<usize, TableError>>) {
        state.camera_controller.process_events(input);
        Vec::new()
    }
}

impl UpdateObserver for CameraKeyListener {
    open spec fn update_nudges(&self, s: StateView) -> Seq<Nudge> {
        Seq::empty()
    }

    open spec fn update_moves(&self, s: StateView) -> Seq<CameraController> {
        Seq::empty()
    }

    open spec fn update_step(&self, s: StateView) -> StateView {
        s
    }

    /// Frame updates do not concern this handler.
    fn on_update(&self, _state: &mut RenderState) -> (effects: UpdateEffects) {
        UpdateEffects { nudges: Vec::new(), moves: Vec::new() }
    }
}

/// The handler that moves the camera once per frame.
#[derive(Clone, Copy, PartialEq, Eq, Structural, Debug)]
pub struct CameraListener {}

impl UpdateObserver for CameraListener {
    open spec fn update_nudges(&self, s: StateView) -> Seq<Nudge> {
        Seq::empty()
    }

    open spec fn update_moves(&self, s: StateView) -> Seq<CameraController> {
        seq![s.camera]
    }

    open spec fn update_step(&self, s: StateView) -> StateView {
        s
    }

    /// Reports the moves that the camera is to make this frame: those whose
    /// keys are held. The caller applies them to the camera and rebuilds its
    /// view-projection matrix.
    fn on_update(&self, state: &mut RenderState) -> (effects: UpdateEffects) {
        let mut moves: Vec<CameraController> = Vec::new();
        moves.push(state.camera_controller);
        UpdateEffects { nudges: Vec::new(), moves }
    }
}

} // verus!
