//! The indirect draw descriptor, the counter bridge, the frame command
//! stream, and the fault policy of the frame loop.

use voxel_cull::indirect::{encode_u32_le, patch_instance_count, IndirectDrawArgs};
use voxel_cull::pipeline::{
    fault_action, frame_steps, DeviceModel, FaultAction, FrameStep, PresentFault,
};
use voxel_cull::visibility::compact;

#[test]
fn u32_encodes_little_endian() {
    assert_eq!(encode_u32_le(0), vec![0, 0, 0, 0]);
    assert_eq!(encode_u32_le(36), vec![36, 0, 0, 0]);
    assert_eq!(encode_u32_le(0xDEAD_BEEF), vec![0xEF, 0xBE, 0xAD, 0xDE]);
    assert_eq!(encode_u32_le(u32::MAX), vec![0xFF, 0xFF, 0xFF, 0xFF]);
}

#[test]
fn descriptor_starts_with_36_vertices_and_0_instances() {
    let args = IndirectDrawArgs::new();
    assert_eq!(args.vertex_count, 36);
    assert_eq!(args.instance_count, 0);
    assert_eq!(args.base_vertex, 0);
    assert_eq!(args.base_instance, 0);
    assert_eq!(args.encode(), vec![36, 0, 0, 0, 0, 0, 0, 0, 0, 0, 0, 0, 0, 0, 0, 0]);
}

#[test]
fn bridge_overwrites_only_the_instance_count() {
    let mut args = IndirectDrawArgs::new();
    args.set_instance_count(0x0102_0304);
    assert_eq!(args.vertex_count, 36);
    assert_eq!(args.instance_count, 0x0102_0304);
    let bytes = args.encode();
    assert_eq!(&bytes[0..4], &[36, 0, 0, 0]);
    assert_eq!(&bytes[4..8], &[4, 3, 2, 1]);
    assert_eq!(&bytes[8..16], &[0, 0, 0, 0, 0, 0, 0, 0]);
}

#[test]
fn patching_the_buffer_is_the_bridge() {
    let args = IndirectDrawArgs::new();
    let mut buf = args.encode();
    patch_instance_count(&mut buf, 56);
    let mut patched = args;
    patched.set_instance_count(56);
    assert_eq!(buf, patched.encode());
    assert_eq!(&buf[0..4], &[36, 0, 0, 0]);
    assert_eq!(&buf[4..8], &[56, 0, 0, 0]);
}

#[test]
fn frame_records_the_four_steps_in_order() {
    let steps = frame_steps();
    assert_eq!(
        steps,
        vec![
            FrameStep::ResetCounter,
            FrameStep::DispatchGenerate,
            FrameStep::DispatchCompact,
            FrameStep::CopyCountToDescriptor,
        ]
    );
}

#[test]
fn empty_chunk_draws_zero_instances() {
    // No generation dispatch: the field stays wholly unoccupied, the counter
    // ends at zero, and the descriptor draws zero instances.
    let mut model = DeviceModel::new(4);
    model.reset_counter();
    model.dispatch_compact();
    model.copy_count_to_descriptor();
    assert_eq!(model.counter, 0);
    assert_eq!(model.visible.len(), 0);
    assert_eq!(model.args.instance_count, 0);
    assert_eq!(model.args.vertex_count, 36);
}

#[test]
fn frame_bridges_the_fresh_count() {
    let mut model = DeviceModel::new(8);
    // A stale instance count from elsewhere must not survive a frame.
    model.args.set_instance_count(999);
    model.run_frame();
    assert_eq!(model.args.instance_count, model.counter);
    assert_eq!(model.counter as usize, model.visible.len());
    let records = compact(&model.field);
    assert_eq!(model.visible, records);
    assert_eq!(model.args.vertex_count, 36);
}

#[test]
fn two_frames_agree_on_count_and_records() {
    let mut a = DeviceModel::new(8);
    let mut b = DeviceModel::new(8);
    a.run_frame();
    a.run_frame();
    b.run_frame();
    assert_eq!(a.counter, b.counter);
    assert_eq!(a.args.instance_count, b.args.instance_count);
    assert_eq!(a.visible, b.visible);
}

#[test]
fn transient_faults_reconfigure_and_fatal_faults_halt() {
    assert_eq!(fault_action(PresentFault::Lost), FaultAction::Reconfigure);
    assert_eq!(fault_action(PresentFault::Outdated), FaultAction::Reconfigure);
    assert_eq!(fault_action(PresentFault::Timeout), FaultAction::Reconfigure);
    assert_eq!(fault_action(PresentFault::OutOfMemory), FaultAction::Halt);
    assert_eq!(fault_action(PresentFault::Device), FaultAction::Halt);
}
