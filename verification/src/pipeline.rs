//! The per-frame command stream and a model of its execution on the device
//! queue: reset the counter, dispatch generation, dispatch compaction,
//! bridge the counter into the draw descriptor. Commands recorded into one
//! stream execute in program order, so the descriptor a frame's draw reads
//! always holds that same frame's visible count.

use vstd::prelude::*;

use crate::chunk::{cell_count, valid_side};
use crate::field::{generated, DenseVoxelField};
use crate::indirect::{IndirectDrawArgs, COUNTER_BYTES, INDIRECT_ARGS_BYTES};
use crate::visibility::{
    compact, compaction_ok, count_visible, lemma_compaction_deterministic,
    lemma_count_visible_le,
};
use crate::voxel::{SparseVoxel, SPARSE_VOXEL_BYTES, VOXEL_BYTES};

verus! {

/// One step of the per-frame command stream, in the order the host records
/// them ahead of the render pass.
#[derive(Copy, Clone, Debug, PartialEq, Eq, Structural)]
pub enum FrameStep {
    /// Clear the visible-count counter to zero.
    ResetCounter,
    /// Overwrite the dense field with the procedural terrain.
    DispatchGenerate,
    /// Emit one record per visible cell, counting through the counter.
    DispatchCompact,
    /// Copy the counter into the descriptor's instance-count field.
    CopyCountToDescriptor,
}

/// The command stream of one frame: the four compute and copy steps, in the
/// only order that satisfies the reset-before-increment and
/// count-before-copy requirements.
pub fn frame_steps() -> (s: Vec<FrameStep>)
    ensures
        s@ == seq![
            FrameStep::ResetCounter,
            FrameStep::DispatchGenerate,
            FrameStep::DispatchCompact,
            FrameStep::CopyCountToDescriptor,
        ],
{
    let mut s: Vec<FrameStep> = Vec::new();
    s.push(FrameStep::ResetCounter);
    s.push(FrameStep::DispatchGenerate);
    s.push(FrameStep::DispatchCompact);
    s.push(FrameStep::CopyCountToDescriptor);
    proof {
        assert(s@ =~= seq![
            FrameStep::ResetCounter,
            FrameStep::DispatchGenerate,
            FrameStep::DispatchCompact,
            FrameStep::CopyCountToDescriptor,
        ]);
    }
    s
}

/// Size in bytes of the dense voxel field buffer: one word per cell.
pub fn voxel_buffer_size(side: u32) -> (n: u64)
    requires
        valid_side(side),
    ensures
        n == VOXEL_BYTES * cell_count(side),
{
    let cells = crate::chunk::num_cells(side);
    VOXEL_BYTES * (cells as u64)
}

/// Size in bytes of the visible-voxel record buffer, provisioned for the
/// worst case of every cell visible so that no record write can ever land
/// beyond capacity.
pub fn visible_buffer_size(side: u32) -> (n: u64)
    requires
        valid_side(side),
    ensures
        n == SPARSE_VOXEL_BYTES * cell_count(side),
{
    let cells = crate::chunk::num_cells(side);
    SPARSE_VOXEL_BYTES * (cells as u64)
}

/// Size in bytes of the visible-count counter buffer.
pub fn counter_buffer_size() -> (n: u64)
    ensures
        n == COUNTER_BYTES,
{
    COUNTER_BYTES as u64
}

/// Size in bytes of the indirect draw descriptor buffer.
pub fn indirect_buffer_size() -> (n: u64)
    ensures
        n == INDIRECT_ARGS_BYTES,
{
    INDIRECT_ARGS_BYTES as u64
}

/// The device-resident state the compute subsystem owns, and a model of how
/// the recorded command stream transforms it: the dense field, the counter,
/// the populated prefix of the visible-voxel buffer, and the descriptor.
pub struct DeviceModel {
    pub field: DenseVoxelField,
    pub counter: u32,
    pub visible: Vec<SparseVoxel>,
    pub args: IndirectDrawArgs,
}

impl DeviceModel {
    /// The chunk side length this device state was allocated for.
    pub open spec fn side(&self) -> u32 {
        self.field.spec_side()
    }

    /// Well-formed: a well-formed field, the descriptor's constant fields
    /// intact, and the record list within the buffer's capacity.
    pub open spec fn wf(&self) -> bool {
        &&& self.field.wf()
        &&& self.args.wf()
        &&& self.visible@.len() <= cell_count(self.side())
    }

    /// All device state as allocated at startup: empty field, zero counter,
    /// no records, zero-instance descriptor.
    pub fn new(side: u32) -> (m: DeviceModel)
        requires
            valid_side(side),
        ensures
            m.wf(),
            m.side() == side,
            m.counter == 0,
            m.visible@.len() == 0,
            m.args.instance_count == 0,
    {
        DeviceModel {
            field: DenseVoxelField::new(side),
            counter: 0,
            visible: Vec::new(),
            args: IndirectDrawArgs::new(),
        }
    }

    /// Clear the counter, strictly before this frame's dispatches and after
    /// the previous frame consumed its count. Touches nothing else.
    pub fn reset_counter(&mut self)
        requires
            old(self).wf(),
        ensures
            final(self).wf(),
            final(self).counter == 0,
            final(self).field == old(self).field,
            final(self).visible == old(self).visible,
            final(self).args == old(self).args,
    {
        self.counter = 0;
    }

    /// The generation dispatch: the whole field is overwritten with the
    /// procedural terrain; counter, records and descriptor are untouched.
    pub fn dispatch_generate(&mut self)
        requires
            old(self).wf(),
        ensures
            final(self).wf(),
            final(self).side() == old(self).side(),
            generated(final(self).field@, old(self).side()),
            final(self).counter == old(self).counter,
            final(self).visible == old(self).visible,
            final(self).args == old(self).args,
    {
        self.field.generate();
    }

    /// The compaction dispatch, after a reset: the visible-voxel buffer's
    /// populated prefix becomes one record per visible cell, and the counter
    /// ends at exactly the number of visible cells.
    pub fn dispatch_compact(&mut self)
        requires
            old(self).wf(),
            old(self).counter == 0,
        ensures
            final(self).wf(),
            final(self).field == old(self).field,
            final(self).args == old(self).args,
            compaction_ok(final(self).field@, final(self).side(), final(self).visible@),
            final(self).counter as int == count_visible(
                final(self).field@,
                final(self).side(),
                cell_count(final(self).side()),
            ),
            final(self).counter == final(self).visible@.len(),
    {
        let records = compact(&self.field);
        proof {
            lemma_count_visible_le(self.field@, self.field.spec_side(), cell_count(
                self.field.spec_side(),
            ));
            assert(cell_count(self.field.spec_side()) <= 128 * 128 * 128) by (nonlinear_arith)
                requires
                    0 < self.field.spec_side() <= 128;
        }
        let c = records.len();
        self.visible = records;
        self.counter = c as u32;
    }

    /// The bridge: copy the counter into the descriptor's instance-count
    /// field, sequenced after the compaction dispatch and before the draw.
    /// No other descriptor field changes.
    pub fn copy_count_to_descriptor(&mut self)
        requires
            old(self).wf(),
        ensures
            final(self).wf(),
            final(self).field == old(self).field,
            final(self).visible == old(self).visible,
            final(self).counter == old(self).counter,
            final(self).args.instance_count == old(self).counter,
            final(self).args.vertex_count == old(self).args.vertex_count,
            final(self).args.base_vertex == old(self).args.base_vertex,
            final(self).args.base_instance == old(self).args.base_instance,
    {
        let c = self.counter;
        self.args.set_instance_count(c);
    }

    /// One whole frame of compute and copy work, in recorded order. At the
    /// end, the descriptor's instance count is exactly this frame's visible
    /// count — never a stale value from an earlier frame — and the draw that
    /// reads it rasterizes 36 vertices for each of exactly that many
    /// instances.
    pub fn run_frame(&mut self)
        requires
            old(self).wf(),
        ensures
            final(self).wf(),
            final(self).side() == old(self).side(),
            generated(final(self).field@, old(self).side()),
            compaction_ok(final(self).field@, old(self).side(), final(self).visible@),
            final(self).counter as int == count_visible(
                final(self).field@,
                old(self).side(),
                cell_count(old(self).side()),
            ),
            final(self).args.instance_count == final(self).counter,
            final(self).args.wf(),
    {
        self.reset_counter();
        self.dispatch_generate();
        self.dispatch_compact();
        self.copy_count_to_descriptor();
    }
}

/// Two frames over the same chunk with the same procedural function agree:
/// the generated fields are identical, the counters are equal, and the
/// record lists hold the same set of records, whatever slot order each
/// frame's compaction produced.
pub proof fn lemma_frame_deterministic(m1: DeviceModel, m2: DeviceModel)
    requires
        m1.side() == m2.side(),
        generated(m1.field@, m1.side()),
        generated(m2.field@, m2.side()),
        compaction_ok(m1.field@, m1.side(), m1.visible@),
        compaction_ok(m2.field@, m2.side(), m2.visible@),
        m1.counter as int == count_visible(m1.field@, m1.side(), cell_count(m1.side())),
        m2.counter as int == count_visible(m2.field@, m2.side(), cell_count(m2.side())),
    ensures
        m1.field@ == m2.field@,
        m1.counter == m2.counter,
        m1.visible@.to_set() == m2.visible@.to_set(),
{
    assert(m1.field@ =~= m2.field@);
    lemma_compaction_deterministic(m1.field@, m2.field@, m1.side(), m1.visible@, m2.visible@);
}

/// Faults the presentation of a frame can surface, per the error taxonomy:
/// the first three are transient presentation errors; the last two are
/// fatal device conditions.
#[derive(Copy, Clone, Debug, PartialEq, Eq, Structural)]
pub enum PresentFault {
    /// The presentation surface was lost and must be rebuilt.
    Lost,
    /// The surface no longer matches the window and must be reconfigured.
    Outdated,
    /// Acquiring the next frame timed out.
    Timeout,
    /// The device is out of memory.
    OutOfMemory,
    /// Any other device-level failure.
    Device,
}

/// What the frame loop does about a fault.
#[derive(Copy, Clone, Debug, PartialEq, Eq, Structural)]
pub enum FaultAction {
    /// Reconfigure the surface and continue with the next frame.
    Reconfigure,
    /// Terminate the frame loop.
    Halt,
}

/// The frame loop's fault policy: transient presentation errors are retried
/// by reconfiguring the surface and continuing; every other device error
/// terminates the loop.
pub fn fault_action(f: PresentFault) -> (a: FaultAction)
    ensures
        a == FaultAction::Reconfigure <==> (f == PresentFault::Lost || f == PresentFault::Outdated
            || f == PresentFault::Timeout),
        a == FaultAction::Halt <==> (f == PresentFault::OutOfMemory || f == PresentFault::Device),
{
    match f {
        PresentFault::Lost => FaultAction::Reconfigure,
        PresentFault::Outdated => FaultAction::Reconfigure,
        PresentFault::Timeout => FaultAction::Reconfigure,
        PresentFault::OutOfMemory => FaultAction::Halt,
        PresentFault::Device => FaultAction::Halt,
    }
}

} // verus!
