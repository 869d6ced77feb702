//! The indirect draw descriptor and the counter-to-descriptor bridge: a
//! fixed four-word draw command whose instance-count field alone is
//! overwritten each frame, on the device, with the visible-count counter.

use vstd::prelude::*;

verus! {

/// Vertices rasterized per visible voxel: one cube of 6 faces, 2 triangles
/// of 3 vertices each.
pub const CUBE_VERTEX_COUNT: u32 = 36;

/// Size in bytes of the device-resident visible-count counter: one unsigned
/// 32-bit word.
pub const COUNTER_BYTES: usize = 4;

/// Size in bytes of the indirect draw descriptor: four unsigned 32-bit words.
pub const INDIRECT_ARGS_BYTES: usize = 16;

/// Byte offset of the instance-count field inside the descriptor: the second
/// word. The bridge copy lands exactly here.
pub const INSTANCE_COUNT_OFFSET: usize = 4;

/// The little-endian bytes of one unsigned 32-bit word, as device buffers
/// hold it.
pub open spec fn u32_le_bytes(x: u32) -> Seq<u8> {
    seq![
        (x as int % 256) as u8,
        ((x as int / 256) % 256) as u8,
        ((x as int / 65536) % 256) as u8,
        ((x as int / 16777216) % 256) as u8,
    ]
}

/// The indirect draw descriptor: vertex count, instance count, base vertex
/// and base instance. Only the instance count is ever mutated after
/// creation, and only by the bridge copy.
#[derive(Copy, Clone, Debug, PartialEq, Eq, Structural)]
pub struct IndirectDrawArgs {
    pub vertex_count: u32,
    pub instance_count: u32,
    pub base_vertex: u32,
    pub base_instance: u32,
}

/// The descriptor as the 16 bytes of the device buffer that holds it.
pub open spec fn args_bytes(a: IndirectDrawArgs) -> Seq<u8> {
    u32_le_bytes(a.vertex_count) + u32_le_bytes(a.instance_count) + u32_le_bytes(a.base_vertex)
        + u32_le_bytes(a.base_instance)
}

impl IndirectDrawArgs {
    /// The constant fields hold their fixed values: 36 vertices per cube, no
    /// base offsets.
    pub open spec fn wf(&self) -> bool {
        &&& self.vertex_count == CUBE_VERTEX_COUNT
        &&& self.base_vertex == 0
        &&& self.base_instance == 0
    }

    /// The descriptor as allocated at startup: zero instances until the
    /// first frame's bridge copy fills the count in.
    pub fn new() -> (a: IndirectDrawArgs)
        ensures
            a.wf(),
            a.instance_count == 0,
    {
        IndirectDrawArgs {
            vertex_count: CUBE_VERTEX_COUNT,
            instance_count: 0,
            base_vertex: 0,
            base_instance: 0,
        }
    }

    /// The bridge copy, on the descriptor as a value: overwrite the
    /// instance-count field with the counter, touching nothing else.
    pub fn set_instance_count(&mut self, count: u32)
        ensures
            final(self).instance_count == count,
            final(self).vertex_count == old(self).vertex_count,
            final(self).base_vertex == old(self).base_vertex,
            final(self).base_instance == old(self).base_instance,
    {
        self.instance_count = count;
    }

    /// The descriptor serialized for the initial buffer upload.
    pub fn encode(&self) -> (b: Vec<u8>)
        ensures
            b@ == args_bytes(*self),
            b@.len() == INDIRECT_ARGS_BYTES,
    {
        let mut b = encode_u32_le(self.vertex_count);
        let mut rest = encode_u32_le(self.instance_count);
        b.append(&mut rest);
        let mut rest = encode_u32_le(self.base_vertex);
        b.append(&mut rest);
        let mut rest = encode_u32_le(self.base_instance);
        b.append(&mut rest);
        proof {
            assert(b@ =~= args_bytes(*self));
        }
        b
    }
}

/// One unsigned 32-bit word serialized little-endian.
pub fn encode_u32_le(x: u32) -> (b: Vec<u8>)
    ensures
        b@ == u32_le_bytes(x),
        b@.len() == 4,
{
    let mut b: Vec<u8> = Vec::new();
    b.push((x % 256) as u8);
    b.push(((x / 256) % 256) as u8);
    b.push(((x / 65536) % 256) as u8);
    b.push(((x / 16777216) % 256) as u8);
    proof {
        assert(b@ =~= u32_le_bytes(x));
    }
    b
}

/// The device-to-device bridge copy on the descriptor buffer itself: the 4
/// counter bytes land at the instance-count offset; every other byte of the
/// descriptor is untouched.
pub fn patch_instance_count(buf: &mut Vec<u8>, count: u32)
    requires
        old(buf)@.len() == INDIRECT_ARGS_BYTES,
    ensures
        final(buf)@.len() == INDIRECT_ARGS_BYTES,
        forall|k: int|
            0 <= k < INDIRECT_ARGS_BYTES ==> final(buf)@[k] == (if INSTANCE_COUNT_OFFSET <= k
                < INSTANCE_COUNT_OFFSET + 4 {
                u32_le_bytes(count)[k - INSTANCE_COUNT_OFFSET]
            } else {
                old(buf)@[k]
            }),
{
    let word = encode_u32_le(count);
    buf.set(4, word[0]);
    buf.set(5, word[1]);
    buf.set(6, word[2]);
    buf.set(7, word[3]);
}

/// Patching the encoded descriptor at the instance-count offset is exactly
/// the bridge: the buffer then holds the encoding of the descriptor whose
/// instance count is the copied counter value.
pub proof fn lemma_patch_is_bridge(a: IndirectDrawArgs, count: u32, patched: Seq<u8>)
    requires
        patched.len() == INDIRECT_ARGS_BYTES,
        forall|k: int|
            0 <= k < INDIRECT_ARGS_BYTES ==> patched[k] == (if INSTANCE_COUNT_OFFSET <= k
                < INSTANCE_COUNT_OFFSET + 4 {
                u32_le_bytes(count)[k - INSTANCE_COUNT_OFFSET]
            } else {
                args_bytes(a)[k]
            }),
    ensures
        patched == args_bytes(
            IndirectDrawArgs {
                vertex_count: a.vertex_count,
                instance_count: count,
                base_vertex: a.base_vertex,
                base_instance: a.base_instance,
            },
        ),
{
    let b = args_bytes(
        IndirectDrawArgs {
            vertex_count: a.vertex_count,
            instance_count: count,
            base_vertex: a.base_vertex,
            base_instance: a.base_instance,
        },
    );
    assert forall|k: int| 0 <= k < 16 implies patched[k] == b[k] by {
        assert(args_bytes(a).len() == 16);
        assert(b.len() == 16);
    }
    assert(patched =~= b);
}

} // verus!
