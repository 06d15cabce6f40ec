use voxel_engine::error::RenderError;
use voxel_engine::geometry::VertexBufferView;
use voxel_engine::pipeline::{create_pipeline_state, create_root_signature};
use voxel_engine::recorder::{
    populate_command_list, transition_barrier, CommandRecorder, GpuCommand, ResourceState,
    DRAW_VERTEX_COUNT,
};
use voxel_engine::sync::FrameSynchronizer;

fn fresh_recorder(width: u32, height: u32) -> CommandRecorder {
    let root_signature = create_root_signature();
    let pipeline = create_pipeline_state(&vec![1, 2, 3], &vec![4, 5]).unwrap();
    CommandRecorder::new(width, height, root_signature, pipeline)
}

fn view() -> VertexBufferView {
    VertexBufferView { stride_in_bytes: 28, size_in_bytes: 84 }
}

#[test]
fn transition_barrier_builds_the_command() {
    let c = transition_barrier(1, ResourceState::Presentable, ResourceState::RenderTargetWritable);
    assert_eq!(
        c,
        GpuCommand::Transition {
            buffer: 1,
            state_before: ResourceState::Presentable,
            state_after: ResourceState::RenderTargetWritable,
        }
    );
}

#[test]
fn recorded_sequence_is_exact() {
    let mut recorder = fresh_recorder(800, 600);
    let mut sync = FrameSynchronizer::new();
    let token = sync.wait_for_slot(0);
    populate_command_list(&mut recorder, &token, 0, &view()).unwrap();
    let expected = vec![
        GpuCommand::SetRootSignature,
        GpuCommand::SetViewport { width: 800, height: 600 },
        GpuCommand::SetScissorRect { width: 800, height: 600 },
        GpuCommand::Transition {
            buffer: 0,
            state_before: ResourceState::Presentable,
            state_after: ResourceState::RenderTargetWritable,
        },
        GpuCommand::BindRenderTarget { buffer: 0 },
        GpuCommand::ClearRenderTarget { buffer: 0 },
        GpuCommand::SetTopologyTriangleList,
        GpuCommand::BindVertexBuffer { stride_in_bytes: 28, size_in_bytes: 84 },
        GpuCommand::DrawInstanced { vertex_count: DRAW_VERTEX_COUNT, instance_count: 1 },
        GpuCommand::Transition {
            buffer: 0,
            state_before: ResourceState::RenderTargetWritable,
            state_after: ResourceState::Presentable,
        },
    ];
    assert_eq!(recorder.recorded(), &expected);
    assert!(recorder.list_closed);
}

#[test]
fn barrier_pair_is_balanced() {
    let mut recorder = fresh_recorder(640, 480);
    let mut sync = FrameSynchronizer::new();
    let token = sync.wait_for_slot(0);
    populate_command_list(&mut recorder, &token, 1, &view()).unwrap();
    let to_render = GpuCommand::Transition {
        buffer: 1,
        state_before: ResourceState::Presentable,
        state_after: ResourceState::RenderTargetWritable,
    };
    let to_present = GpuCommand::Transition {
        buffer: 1,
        state_before: ResourceState::RenderTargetWritable,
        state_after: ResourceState::Presentable,
    };
    let commands = recorder.recorded();
    let opens: Vec<usize> =
        (0..commands.len()).filter(|&i| commands[i] == to_render).collect();
    let closes: Vec<usize> =
        (0..commands.len()).filter(|&i| commands[i] == to_present).collect();
    // Exactly one of each, and the render-target barrier comes first.
    assert_eq!(opens.len(), 1);
    assert_eq!(closes.len(), 1);
    assert!(opens[0] < closes[0]);
}

#[test]
fn recording_before_the_gate_fails() {
    let mut recorder = fresh_recorder(800, 600);
    let mut sync = FrameSynchronizer::new();
    // A token for counter 0, while the recorder's contents are in
    // flight until counter 5: the reset must be refused.
    let token = sync.wait_for_slot(0);
    recorder.mark_submitted(5);
    let before = recorder.recorded().clone();
    let r = populate_command_list(&mut recorder, &token, 0, &view());
    assert_eq!(r, Err(RenderError::RecordingError));
    assert_eq!(recorder.recorded(), &before);
}

#[test]
fn a_fresh_token_satisfies_a_completed_gate() {
    let mut recorder = fresh_recorder(800, 600);
    let mut sync = FrameSynchronizer::new();
    let c = sync.signal_and_advance();
    recorder.mark_submitted(c);
    let token = sync.wait_for_slot(c);
    assert!(populate_command_list(&mut recorder, &token, 0, &view()).is_ok());
}
