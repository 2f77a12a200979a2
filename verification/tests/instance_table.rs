use instance_engine::dirty_queue::DirtyQueue;
use instance_engine::instance::{Instance, InstanceType, Position, Rotation, MAX_INSTANCES};
use instance_engine::instance_handler::{InstanceHandler, MAX_CAPACITY};
use instance_engine::table_model::TableError;

fn position(x: f32, y: f32, z: f32) -> Position {
    Position { x: x.to_bits(), y: y.to_bits(), z: z.to_bits() }
}

fn rotation(s: f32, x: f32, y: f32, z: f32) -> Rotation {
    Rotation { s: s.to_bits(), x: x.to_bits(), y: y.to_bits(), z: z.to_bits() }
}

fn cube(capacity: usize) -> Instance {
    Instance::new(InstanceType::Cube, position(1.0, 2.0, 3.0), Rotation::identity(), capacity)
}

fn triangle(capacity: usize) -> Instance {
    Instance::new(InstanceType::Triangle, position(-4.0, 0.5, 9.0), Rotation::identity(), capacity)
}

#[test]
fn new_table_has_the_default_capacity_and_is_empty() {
    let table = InstanceHandler::new();
    assert_eq!(table.capacity(), MAX_INSTANCES);
    assert_eq!(table.high_watermark(), 0);
    assert_eq!(table.total_added(), 0);
    assert_eq!(table.record(0), Some(Instance::empty()));
    assert_eq!(table.record(MAX_INSTANCES - 1), Some(Instance::empty()));
    assert_eq!(table.record(MAX_INSTANCES), None);
    assert!(MAX_INSTANCES <= MAX_CAPACITY);
}

#[test]
fn empty_record_is_free_with_identity_rotation() {
    let empty = Instance::empty();
    assert_eq!(empty.instance_type, InstanceType::Empty);
    assert_eq!(empty.position, position(0.0, 0.0, 0.0));
    assert_eq!(empty.rotation, rotation(1.0, 0.0, 0.0, 0.0));
    assert_eq!(empty.start_offset, 0);
    assert_eq!(empty.array_index, 0);
    assert_eq!(empty.max_allowed, 0);
}

#[test]
fn type_ids_and_names_are_stable() {
    assert_eq!(InstanceType::Empty.id(), 0);
    assert_eq!(InstanceType::Cube.id(), 1);
    assert_eq!(InstanceType::Triangle.id(), 2);
    assert_eq!(InstanceType::Empty.name(), "Empty");
    assert_eq!(InstanceType::Cube.name(), "Cube");
    assert_eq!(InstanceType::Triangle.name(), "Triangle");
}

#[test]
fn a_full_bucket_refuses_the_next_cube() {
    let mut table = InstanceHandler::with_capacity(10);
    assert_eq!(table.add(cube(3)), Ok(0));
    assert_eq!(table.add(cube(3)), Ok(1));
    assert_eq!(table.add(cube(3)), Ok(2));
    for slot in 0..3 {
        let record = table.record(slot).unwrap();
        assert_eq!(record.start_offset, 0);
        assert_eq!(record.array_index, slot);
        assert_eq!(record.max_allowed, 3);
        assert_eq!(record.instance_type, InstanceType::Cube);
    }
    assert_eq!(table.add(cube(3)), Err(TableError::AllocationFailed(InstanceType::Cube)));
    assert_eq!(table.high_watermark(), 2);
    assert_eq!(table.total_added(), 3);
    assert_eq!(table.record(3).unwrap().instance_type, InstanceType::Empty);
}

#[test]
fn second_type_lands_behind_the_reserved_bucket() {
    let mut table = InstanceHandler::with_capacity(10);
    assert_eq!(table.add(cube(3)), Ok(0));
    assert_eq!(table.add(triangle(2)), Ok(3));
    let record = table.record(3).unwrap();
    assert_eq!(record.instance_type, InstanceType::Triangle);
    assert_eq!(record.start_offset, 3);
    assert_eq!(record.array_index, 3);
    assert_eq!(record.max_allowed, 2);
    assert_eq!(table.record(1).unwrap().instance_type, InstanceType::Empty);
    assert_eq!(table.record(2).unwrap().instance_type, InstanceType::Empty);
    assert_eq!(table.high_watermark(), 3);
}

#[test]
fn bucket_exhaustion_with_interleaved_types() {
    let mut table = InstanceHandler::with_capacity(16);
    assert_eq!(table.add(triangle(2)), Ok(0));
    let mut slots = Vec::new();
    for round in 0..4 {
        slots.push(table.add(cube(4)).unwrap());
        if round == 1 {
            assert_eq!(table.add(triangle(2)), Ok(1));
        }
    }
    assert_eq!(slots, vec![2, 3, 4, 5]);
    assert_eq!(table.add(cube(4)), Err(TableError::AllocationFailed(InstanceType::Cube)));
    assert_eq!(table.add(cube(4)), Err(TableError::AllocationFailed(InstanceType::Cube)));
    assert_eq!(table.add(triangle(2)), Err(TableError::AllocationFailed(InstanceType::Triangle)));
    assert_eq!(table.high_watermark(), 5);
    assert_eq!(table.total_added(), 6);
}

#[test]
fn buckets_do_not_overlap_and_keep_insertion_order() {
    let mut table = InstanceHandler::with_capacity(20);
    let first = table.add(triangle(7)).unwrap();
    let second = table.add(cube(5)).unwrap();
    let triangle_record = table.record(first).unwrap();
    let cube_record = table.record(second).unwrap();
    assert_eq!(triangle_record.start_offset, 0);
    assert_eq!(cube_record.start_offset, 7);
    assert!(cube_record.start_offset >= triangle_record.start_offset + triangle_record.max_allowed);
}

#[test]
fn round_trip_returns_what_was_inserted() {
    let mut table = InstanceHandler::with_capacity(8);
    let candidate = Instance::new(
        InstanceType::Triangle,
        position(12.5, -3.25, 400.0),
        rotation(0.5, 0.5, -0.5, 0.5),
        4,
    );
    let slot = table.add(candidate).unwrap();
    let record = table.get(slot).unwrap();
    assert_eq!(record.instance_type, InstanceType::Triangle);
    assert_eq!(f32::from_bits(record.position.x), 12.5);
    assert_eq!(f32::from_bits(record.position.y), -3.25);
    assert_eq!(f32::from_bits(record.position.z), 400.0);
    assert_eq!(record.rotation, rotation(0.5, 0.5, -0.5, 0.5));
    assert_eq!(record.array_index, slot);
}

#[test]
fn get_allows_moving_a_record_in_place() {
    let mut table = InstanceHandler::with_capacity(4);
    let slot = table.add(cube(2)).unwrap();
    {
        let record = table.get(slot).unwrap();
        record.position.x = (f32::from_bits(record.position.x) + 0.5).to_bits();
    }
    assert_eq!(f32::from_bits(table.record(slot).unwrap().position.x), 1.5);
    assert_eq!(table.add(cube(2)), Ok(1));
}

#[test]
fn get_past_the_end_is_out_of_range() {
    let mut table = InstanceHandler::with_capacity(4);
    assert_eq!(table.get(4).err(), Some(TableError::IndexOutOfRange));
    assert_eq!(table.get(usize::MAX).err(), Some(TableError::IndexOutOfRange));
    assert!(table.get(3).is_ok());
}

#[test]
fn update_past_the_end_is_out_of_range() {
    let mut table = InstanceHandler::with_capacity(4);
    assert_eq!(table.update(4), Err(TableError::IndexOutOfRange));
    assert_eq!(table.update(3), Ok(()));
    assert!(table.is_dirty(3));
    assert!(!table.is_dirty(4));
    assert_eq!(table.drain_dirty(), vec![3]);
}

#[test]
fn adding_the_empty_type_fails() {
    let mut table = InstanceHandler::with_capacity(4);
    let candidate =
        Instance::new(InstanceType::Empty, position(0.0, 0.0, 0.0), Rotation::identity(), 2);
    assert_eq!(table.add(candidate), Err(TableError::AllocationFailed(InstanceType::Empty)));
    assert_eq!(table.total_added(), 0);
    assert_eq!(table.drain_dirty(), Vec::<usize>::new());
}

#[test]
fn a_bucket_of_no_slots_cannot_be_created() {
    let mut table = InstanceHandler::with_capacity(4);
    assert_eq!(table.add(cube(0)), Err(TableError::AllocationFailed(InstanceType::Cube)));
    assert_eq!(table.add(cube(2)), Ok(0));
    assert_eq!(table.record(0).unwrap().max_allowed, 2);
}

#[test]
fn a_bucket_that_does_not_fit_is_refused() {
    let mut table = InstanceHandler::with_capacity(5);
    assert_eq!(table.add(cube(3)), Ok(0));
    assert_eq!(table.add(triangle(3)), Err(TableError::AllocationFailed(InstanceType::Triangle)));
    assert_eq!(table.add(triangle(2)), Ok(3));
    assert_eq!(table.add(triangle(2)), Ok(4));
    assert_eq!(table.add(cube(usize::MAX)), Ok(1));
    let mut full = InstanceHandler::with_capacity(2);
    assert_eq!(full.add(cube(2)), Ok(0));
    assert_eq!(full.add(triangle(1)), Err(TableError::AllocationFailed(InstanceType::Triangle)));
    let mut none = InstanceHandler::with_capacity(0);
    assert_eq!(none.add(cube(1)), Err(TableError::AllocationFailed(InstanceType::Cube)));
    assert_eq!(none.add(cube(usize::MAX)), Err(TableError::AllocationFailed(InstanceType::Cube)));
}

#[test]
fn the_first_declared_capacity_wins() {
    let mut table = InstanceHandler::with_capacity(10);
    assert_eq!(table.add(cube(2)), Ok(0));
    assert_eq!(table.add(cube(5)), Ok(1));
    assert_eq!(table.record(1).unwrap().max_allowed, 2);
    assert_eq!(table.add(cube(5)), Err(TableError::AllocationFailed(InstanceType::Cube)));
    assert_eq!(table.add(triangle(1)), Ok(2));
}

#[test]
fn failed_allocation_changes_nothing() {
    let mut table = InstanceHandler::with_capacity(3);
    assert_eq!(table.add(cube(1)), Ok(0));
    assert_eq!(table.drain_dirty(), vec![0]);
    assert_eq!(table.add(cube(1)), Err(TableError::AllocationFailed(InstanceType::Cube)));
    assert_eq!(table.total_added(), 1);
    assert_eq!(table.high_watermark(), 0);
    assert_eq!(table.drain_dirty(), Vec::<usize>::new());
    assert_eq!(table.record(1).unwrap().instance_type, InstanceType::Empty);
}

#[test]
fn add_queues_the_new_slot() {
    let mut table = InstanceHandler::with_capacity(6);
    table.add(cube(3)).unwrap();
    table.add(triangle(3)).unwrap();
    assert!(table.is_dirty(0));
    assert!(table.is_dirty(3));
    assert!(!table.is_dirty(1));
    let mut drained = table.drain_dirty();
    drained.sort();
    assert_eq!(drained, vec![0, 3]);
}

#[test]
fn repeated_updates_queue_a_slot_once() {
    let mut table = InstanceHandler::with_capacity(6);
    let slot = table.add(cube(3)).unwrap();
    assert_eq!(table.drain_dirty(), vec![slot]);
    assert_eq!(table.update(slot), Ok(()));
    assert_eq!(table.update(slot), Ok(()));
    assert_eq!(table.update(slot), Ok(()));
    assert_eq!(table.drain_dirty(), vec![slot]);
    assert_eq!(table.drain_dirty(), Vec::<usize>::new());
    assert_eq!(table.update(slot), Ok(()));
    assert_eq!(table.drain_dirty(), vec![slot]);
}

#[test]
fn find_open_slot_scans_up_to_the_limit() {
    let mut table = InstanceHandler::with_capacity(6);
    table.add(cube(3)).unwrap();
    table.add(cube(3)).unwrap();
    assert_eq!(table.find_open_slot(0, 3), Some(2));
    assert_eq!(table.find_open_slot(0, 2), None);
    assert_eq!(table.find_open_slot(1, 1), None);
    assert_eq!(table.find_open_slot(3, 6), Some(3));
    assert_eq!(table.find_open_slot(0, usize::MAX), Some(2));
    assert_eq!(table.find_open_slot(6, 9), None);
    assert_eq!(table.find_open_slot(5, 2), None);
}

#[test]
fn find_offset_places_candidates() {
    let mut table = InstanceHandler::with_capacity(6);
    table.add(cube(3)).unwrap();
    let existing = table.find_offset(InstanceType::Cube, 9).unwrap();
    assert_eq!((existing.slot, existing.start, existing.capacity, existing.fresh), (1, 0, 3, false));
    let fresh = table.find_offset(InstanceType::Triangle, 2).unwrap();
    assert_eq!((fresh.slot, fresh.start, fresh.capacity, fresh.fresh), (3, 3, 2, true));
    assert!(table.find_offset(InstanceType::Triangle, 4).is_none());
    assert!(table.find_offset(InstanceType::Empty, 1).is_none());
}

#[test]
fn set_transform_keeps_type_and_bookkeeping() {
    let mut table = InstanceHandler::with_capacity(6);
    table.add(cube(2)).unwrap();
    let slot = table.add(triangle(3)).unwrap();
    assert_eq!(
        table.set_transform(slot, position(9.0, 8.0, 7.0), rotation(0.0, 1.0, 0.0, 0.0)),
        Ok(())
    );
    assert_eq!(
        table.record(slot),
        Some(Instance {
            instance_type: InstanceType::Triangle,
            position: position(9.0, 8.0, 7.0),
            rotation: rotation(0.0, 1.0, 0.0, 0.0),
            start_offset: 2,
            array_index: 2,
            max_allowed: 3,
        })
    );
    assert_eq!(
        table.set_transform(6, position(0.0, 0.0, 0.0), Rotation::identity()),
        Err(TableError::IndexOutOfRange)
    );
    assert_eq!(table.add(triangle(3)), Ok(3));
}

#[test]
fn registered_capacity_appears_with_the_first_allocation() {
    let mut table = InstanceHandler::with_capacity(6);
    assert_eq!(table.registered_capacity(InstanceType::Cube), None);
    assert_eq!(table.add(cube(7)), Err(TableError::AllocationFailed(InstanceType::Cube)));
    assert_eq!(table.registered_capacity(InstanceType::Cube), None);
    table.add(cube(2)).unwrap();
    table.add(cube(4)).unwrap();
    assert_eq!(table.registered_capacity(InstanceType::Cube), Some(2));
    assert_eq!(table.registered_capacity(InstanceType::Triangle), None);
    assert_eq!(table.registered_capacity(InstanceType::Empty), None);
}

#[test]
fn dirty_queue_holds_each_slot_once() {
    let mut queue = DirtyQueue::new(4);
    assert!(!queue.contains(2));
    assert!(queue.mark(2));
    assert!(queue.mark(0));
    assert!(queue.mark(2));
    assert!(!queue.mark(4));
    assert!(!queue.mark(usize::MAX));
    assert!(queue.contains(2) && queue.contains(0));
    assert!(!queue.contains(1) && !queue.contains(4));
    let mut drained = queue.drain();
    drained.sort();
    assert_eq!(drained, vec![0, 2]);
    assert!(!queue.contains(2));
    assert_eq!(queue.drain(), Vec::<usize>::new());
    assert!(queue.mark(2));
    assert_eq!(queue.drain(), vec![2]);
    let mut none = DirtyQueue::new(0);
    assert!(!none.mark(0));
    assert_eq!(none.drain(), Vec::<usize>::new());
}
