//! Batched rendering: one indexed, instanced draw call per bucket.

use vstd::prelude::*;
use crate::instance::InstanceType;
use crate::instance_handler::InstanceHandler;
use crate::table_model::{
    bucket_ok, lemma_bucket_inside, lemma_occupied_bounds, slot_ok, Bucket,
};

verus! {

/// Number of vertices of the cube mesh.
pub const CUBE_VERTICES: u32 = 24;

/// Number of indices of the cube mesh.
pub const CUBE_INDICES: u32 = 36;

/// Number of vertices of the triangle-fan mesh.
pub const TRIANGLE_VERTICES: u32 = 9;

/// Number of indices of the triangle-fan mesh, its padding entry included.
pub const TRIANGLE_INDICES: u32 = 10;

/// Where the mesh of one instance type lies in the shared geometry buffers.
#[derive(Clone, Copy, PartialEq, Eq, Structural, Debug)]
pub struct Geometry {
    pub index_start: u32,
    pub index_end: u32,
    pub base_vertex: i32,
}

/// One indexed, instanced draw: the mesh of `kind`, drawn for the instances
/// in slots `instance_start..instance_end`.
#[derive(Clone, Copy, PartialEq, Eq, Structural, Debug)]
pub struct DrawCall {
    pub kind: InstanceType,
    pub geometry: Geometry,
    pub instance_start: u32,
    pub instance_end: u32,
}

/// Per-frame rendering diagnostics.
#[derive(Clone, Copy, PartialEq, Eq, Structural, Debug)]
pub struct RenderStats {
    pub draw_calls: usize,
}

/// The geometry range of each drawable type. The meshes lie one behind the
/// other in the shared buffers, the cube first: a mesh's indices begin where
/// the indices of the mesh before it end, and its base vertex is the number
/// of vertices before it.
pub open spec fn spec_geometry(kind: InstanceType) -> Option<Geometry> {
    match kind {
        InstanceType::Empty => None,
        InstanceType::Cube => Some(Geometry { index_start: 0, index_end: 36, base_vertex: 0 }),
        InstanceType::Triangle => Some(
            Geometry { index_start: 36, index_end: 46, base_vertex: 24 },
        ),
    }
}

/// Looks up the geometry range of `kind`; `Empty` has none.
pub fn geometry_of(kind: InstanceType) -> (r: Option<Geometry>)
    ensures
        r == spec_geometry(kind),
{
    match kind {
        InstanceType::Empty => None,
        InstanceType::Cube => Some(
            Geometry { index_start: 0, index_end: CUBE_INDICES, base_vertex: 0 },
        ),
        InstanceType::Triangle => Some(
            Geometry {
                index_start: CUBE_INDICES,
                index_end: CUBE_INDICES + TRIANGLE_INDICES,
                base_vertex: CUBE_VERTICES as i32,
            },
        ),
    }
}

/// The draw call that covers bucket `b`: its whole reserved range, filled or not.
pub open spec fn draw_for(b: Bucket) -> DrawCall {
    DrawCall {
        kind: b.kind,
        geometry: spec_geometry(b.kind)->0,
        instance_start: b.start as u32,
        instance_end: b.end() as u32,
    }
}

/// Plans the draw calls of one frame: exactly one per bucket, in bucket
/// order, each over the bucket's whole declared capacity. An empty table
/// gives no draw call. The number of calls is recorded in `stats`.
pub fn on_render(handler: &InstanceHandler, stats: &mut RenderStats) -> (draws: Vec<DrawCall>)
    requires
        handler.wf(),
    ensures
        draws@.len() == handler@.buckets.len(),
        forall|k: int| 0 <= k < draws@.len() ==> #[trigger] draws@[k] == draw_for(handler@.buckets[k]),
        final(stats).draw_calls == draws@.len(),
{
    let mut draws: Vec<DrawCall> = Vec::new();
    stats.draw_calls = 0;
    if handler.total_added() == 0 {
        proof {
            lemma_occupied_bounds(handler@.buckets, handler@.slots.len() as int);
        }
        return draws;
    }
    let cap = handler.capacity();
    let top = handler.high_watermark();
    let ghost bs = handler@.buckets;
    let ghost mut k: int = 0;
    let mut offset: usize = 0;
    proof {
        assert(bucket_ok(bs, 0, cap as int));
    }
    while offset <= top && offset < cap
        invariant
            handler.wf(),
            bs == handler@.buckets,
            cap == handler@.slots.len(),
            top == handler@.high_watermark,
            0 <= k <= bs.len(),
            bs.len() > 0,
            offset == if k < bs.len() {
                bs[k].start
            } else {
                bs.last().end()
            },
            draws@.len() == k,
            stats.draw_calls == k,
            forall|j: int| 0 <= j < k ==> #[trigger] draws@[j] == draw_for(bs[j]),
        decreases cap - offset,
    {
        proof {
            lemma_occupied_bounds(bs, cap as int);
            lemma_bucket_inside(bs, cap as int, bs.len() - 1);
            lemma_bucket_inside(bs, cap as int, k);
            assert(bucket_ok(bs, k, cap as int));
            assert(slot_ok(handler@.slots, bs, k, offset as int));
            if k + 1 < bs.len() {
                assert(bucket_ok(bs, k + 1, cap as int));
            }
        }
        let record = match handler.record(offset) {
            Some(record) => record,
            None => {
                return draws;
            },
        };
        match geometry_of(record.instance_type) {
            None => {
                offset += 1;
            },
            Some(geometry) => {
                draws.push(
                    DrawCall {
                        kind: record.instance_type,
                        geometry,
                        instance_start: record.start_offset as u32,
                        instance_end: (record.start_offset + record.max_allowed) as u32,
                    },
                );
                stats.draw_calls += 1;
                offset += record.max_allowed;
                proof {
                    k = k + 1;
                }
            },
        }
    }
    proof {
        if k < bs.len() {
            lemma_bucket_inside(bs, cap as int, k);
        }
    }
    draws
}

} // verus!
