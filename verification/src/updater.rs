//! Frame synchronization: which records go to the device, and where.

use vstd::prelude::*;
use crate::instance::{Instance, InstanceType};
use crate::instance_handler::{InstanceHandler, MAX_CAPACITY};
use crate::renderer::{spec_geometry, CUBE_INDICES, CUBE_VERTICES};
use crate::table_model::TableView;

verus! {

/// Size in bytes of one packed transform in the instance buffer: a 4x4
/// matrix of single-precision floats.
pub const INSTANCE_STRIDE: u64 = 64;

/// Size in bytes of one vertex: position and colour, three
/// single-precision floats each.
pub const VERTEX_STRIDE: u64 = 24;

/// Size in bytes of one index.
pub const INDEX_STRIDE: u64 = 2;

/// Where the mesh of one type begins in the shared vertex and index buffers.
#[derive(Clone, Copy, PartialEq, Eq, Structural, Debug)]
pub struct MeshOffsets {
    pub vertex_offset: u64,
    pub index_offset: u64,
}

/// The sizes in bytes of the device buffers of a table.
#[derive(Clone, Copy, PartialEq, Eq, Structural, Debug)]
pub struct BufferSizes {
    pub vertex_bytes: u64,
    pub index_bytes: u64,
    pub instance_bytes: u64,
}

/// The byte offsets of each drawable type's mesh: the cube's comes first,
/// the triangle fan's directly behind it.
pub open spec fn spec_mesh_offsets(kind: InstanceType) -> Option<MeshOffsets> {
    match kind {
        InstanceType::Empty => None,
        InstanceType::Cube => Some(MeshOffsets { vertex_offset: 0, index_offset: 0 }),
        InstanceType::Triangle => Some(MeshOffsets { vertex_offset: 576, index_offset: 72 }),
    }
}

/// Looks up where the mesh of `kind` is written; `Empty` has no mesh.
pub fn mesh_offsets(kind: InstanceType) -> (r: Option<MeshOffsets>)
    ensures
        r == spec_mesh_offsets(kind),
{
    match kind {
        InstanceType::Empty => None,
        InstanceType::Cube => Some(MeshOffsets { vertex_offset: 0, index_offset: 0 }),
        InstanceType::Triangle => Some(
            MeshOffsets {
                vertex_offset: (CUBE_VERTICES as u64) * VERTEX_STRIDE,
                index_offset: (CUBE_INDICES as u64) * INDEX_STRIDE,
            },
        ),
    }
}

/// A draw call finds its mesh where the upload put it: the base vertex of a
/// type, counted in vertices, and the start of its index range, counted in
/// indices, are the byte offsets at which its vertices and indices are
/// written. `Empty` has neither a mesh nor a place for one.
pub proof fn theorem_geometry_matches_mesh_offsets(kind: InstanceType)
    ensures
        spec_geometry(kind) is Some <==> spec_mesh_offsets(kind) is Some,
        spec_geometry(kind) is Some <==> kind != InstanceType::Empty,
        spec_geometry(kind) is Some ==> {
            let geometry = spec_geometry(kind)->0;
            let offsets = spec_mesh_offsets(kind)->0;
            &&& geometry.base_vertex * VERTEX_STRIDE == offsets.vertex_offset
            &&& geometry.index_start * INDEX_STRIDE == offsets.index_offset
            &&& geometry.index_start < geometry.index_end
        },
        spec_geometry(InstanceType::Cube)->0.index_end == spec_geometry(
            InstanceType::Triangle,
        )->0.index_start,
        spec_geometry(InstanceType::Cube)->0.base_vertex + CUBE_VERTICES == spec_geometry(
            InstanceType::Triangle,
        )->0.base_vertex,
{
}

/// The buffer sizes for a table of `capacity` slots: room for one vertex,
/// one index and one packed transform per slot. A table above
/// `MAX_CAPACITY` has none.
pub fn buffer_sizes(capacity: usize) -> (r: Option<BufferSizes>)
    ensures
        r == if capacity <= MAX_CAPACITY {
            Some(
                BufferSizes {
                    vertex_bytes: (capacity * 24) as u64,
                    index_bytes: (capacity * 2) as u64,
                    instance_bytes: (capacity * 64) as u64,
                },
            )
        } else {
            None
        },
        r is Some ==> r->0.instance_bytes == spec_buffer_offset(capacity as int),
{
    if capacity <= MAX_CAPACITY {
        let slots = capacity as u64;
        Some(
            BufferSizes {
                vertex_bytes: slots * VERTEX_STRIDE,
                index_bytes: slots * INDEX_STRIDE,
                instance_bytes: slots * INSTANCE_STRIDE,
            },
        )
    } else {
        None
    }
}

/// One write to the instance buffer: the record of `slot`, to be packed and
/// written at byte `offset`.
#[derive(Clone, Copy, PartialEq, Eq, Structural, Debug)]
pub struct InstanceUpload {
    pub slot: usize,
    pub offset: u64,
    pub instance: Instance,
}

/// The byte offset of slot `slot` in the instance buffer.
pub open spec fn spec_buffer_offset(slot: int) -> int {
    slot * 64
}

/// The write that synchronizes slot `slot` of table `v`.
pub open spec fn upload_of(v: TableView, slot: int) -> InstanceUpload {
    InstanceUpload {
        slot: slot as usize,
        offset: spec_buffer_offset(slot) as u64,
        instance: v.slots[slot],
    }
}

/// Drains the dirty queue and plans the instance-buffer writes of one frame.
///
/// Every slot that was queued gets exactly one write, however often it was
/// queued; the write carries the record as it is now and goes to byte
/// `slot * INSTANCE_STRIDE`. The order of the writes is not specified.
pub fn on_update(handler: &mut InstanceHandler) -> (uploads: Vec<InstanceUpload>)
    requires
        old(handler).wf(),
    ensures
        final(handler).wf(),
        final(handler)@ == (TableView { dirty: Set::empty(), ..old(handler)@ }),
        forall|i: int|
            0 <= i < uploads@.len() ==> old(handler)@.dirty.contains(
                (#[trigger] uploads@[i]).slot as int,
            ) && uploads@[i] == upload_of(old(handler)@, uploads@[i].slot as int),
        forall|i: int, j: int|
            0 <= i < j < uploads@.len() ==> (#[trigger] uploads@[i]).slot != (
            #[trigger] uploads@[j]).slot,
        forall|s: int| #[trigger]
            old(handler)@.dirty.contains(s) ==> exists|i: int|
                0 <= i < uploads@.len() && (#[trigger] uploads@[i]).slot as int == s,
{
    let slots = handler.drain_dirty();
    let mut uploads: Vec<InstanceUpload> = Vec::new();
    let mut i: usize = 0;
    while i < slots.len()
        invariant
            handler.wf(),
            handler@ == (TableView { dirty: Set::empty(), ..old(handler)@ }),
            i <= slots@.len(),
            uploads@.len() == i,
            forall|a: int|
                0 <= a < slots@.len() ==> (#[trigger] slots@[a]) < old(handler)@.slots.len(),
            forall|a: int|
                0 <= a < i ==> (#[trigger] uploads@[a]) == upload_of(
                    old(handler)@,
                    slots@[a] as int,
                ),
        decreases slots@.len() - i,
    {
        let slot = slots[i];
        match handler.record(slot) {
            Some(instance) => {
                uploads.push(
                    InstanceUpload { slot, offset: (slot as u64) * INSTANCE_STRIDE, instance },
                );
            },
            None => {
                return uploads;
            },
        }
        i += 1;
    }
    proof {
        assert forall|s: int| #[trigger] old(handler)@.dirty.contains(s) implies exists|a: int|
            0 <= a < uploads@.len() && (#[trigger] uploads@[a]).slot as int == s by {
            let a = choose|a: int| 0 <= a < slots@.len() && (#[trigger] slots@[a]) as int == s;
            assert(uploads@[a].slot as int == s);
        }
    }
    uploads
}

} // verus!
