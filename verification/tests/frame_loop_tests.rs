use voxel_engine::device::AdapterInfo;
use voxel_engine::error::RenderError;
use voxel_engine::geometry::Vertex;
use voxel_engine::pipeline::create_pipeline_state;
use voxel_engine::recorder::{GpuCommand, ResourceState};
use voxel_engine::sample::Sample;
use voxel_engine::surface::{FrameSurface, WindowInfo, FRAME_COUNT};

fn hardware_adapters() -> Vec<AdapterInfo> {
    vec![AdapterInfo { software: false, supports_feature_level: true }]
}

fn triangle() -> Vec<Vertex> {
    let lanes: [u32; 3] = [0x3e80_0000, 0xbe80_0000, 0x0000_0000];
    lanes
        .iter()
        .map(|&p| Vertex {
            position_x_bits: p,
            position_y_bits: p,
            position_z_bits: 0,
            color_r_bits: 0x3f80_0000,
            color_g_bits: 0,
            color_b_bits: 0,
            color_a_bits: 0x3f80_0000,
        })
        .collect()
}

fn bound_sample(width: u32, height: u32) -> Sample {
    let mut sample = Sample::new(&hardware_adapters()).unwrap();
    let window = WindowInfo { width, height };
    sample.bind_to_window(&window, &vec![1, 2, 3], &vec![4, 5, 6], &triangle()).unwrap();
    sample
}

#[test]
fn title_is_fixed() {
    let sample = Sample::new(&hardware_adapters()).unwrap();
    assert_eq!(sample.title(), "D3D12 Hello Triangle");
}

#[test]
fn frame_count_is_two() {
    assert_eq!(FRAME_COUNT, 2);
}

#[test]
fn bind_zero_size_is_unsupported() {
    let mut sample = Sample::new(&hardware_adapters()).unwrap();
    let window = WindowInfo { width: 0, height: 600 };
    let r = sample.bind_to_window(&window, &vec![1], &vec![1], &triangle());
    assert_eq!(r, Err(RenderError::PresentationUnsupported));
    assert!(sample.resources.is_none());
}

#[test]
fn bind_missing_shader_is_fatal() {
    let mut sample = Sample::new(&hardware_adapters()).unwrap();
    let window = WindowInfo { width: 800, height: 600 };
    let r = sample.bind_to_window(&window, &vec![], &vec![1], &triangle());
    assert_eq!(r, Err(RenderError::MissingShader));
}

#[test]
fn bind_empty_geometry_fails_allocation() {
    let mut sample = Sample::new(&hardware_adapters()).unwrap();
    let window = WindowInfo { width: 800, height: 600 };
    let r = sample.bind_to_window(&window, &vec![1], &vec![1], &vec![]);
    assert_eq!(r, Err(RenderError::AllocationError));
}

#[test]
fn missing_shader_stage_errors() {
    assert_eq!(
        create_pipeline_state(&vec![], &vec![1]),
        Err(RenderError::MissingShader)
    );
    assert_eq!(
        create_pipeline_state(&vec![1], &vec![]),
        Err(RenderError::MissingShader)
    );
    let p = create_pipeline_state(&vec![1, 2], &vec![3]).unwrap();
    assert_eq!(p.vs_size, 2);
    assert_eq!(p.ps_size, 1);
}

#[test]
fn bind_reports_engine_index() {
    let sample = bound_sample(800, 600);
    let res = sample.resources.as_ref().unwrap();
    assert_eq!(res.frame_index, 0);
    assert_eq!(res.frame_index, res.surface.current_index());
    assert_eq!(res.sync.fence_value, 1);
}

#[test]
fn one_hundred_twenty_frames_reach_the_counter() {
    // Bind to an 800x600 window and run 120 frames: nothing fails and
    // the fence counter reaches exactly 120 at steady state.
    let mut sample = bound_sample(800, 600);
    sample.run(120).unwrap();
    let res = sample.resources.as_ref().unwrap();
    assert_eq!(res.sync.fence.get_completed_value(), 120);
    assert_eq!(res.sync.fence_value, 121);
}

#[test]
fn cpu_blocks_when_gpu_lags_a_frame() {
    // The GPU completes nothing on its own between submissions, so at
    // every wait it lags the CPU by one frame: the CPU must block in
    // the wait rather than reuse the buffer early.
    let mut sample = bound_sample(800, 600);
    {
        let res = sample.resources.as_ref().unwrap();
        assert_eq!(res.sync.fence.get_completed_value(), 0);
        assert_eq!(res.sync.fence_value, 1);
    }
    sample.render().unwrap();
    let res = sample.resources.as_ref().unwrap();
    // The wait blocked (once), and only then did the frame retire.
    assert_eq!(res.sync.blocked_waits, 1);
    assert_eq!(res.sync.fence.get_completed_value(), 1);
    // The reset gate for the next frame is satisfied, not skipped.
    assert!(res.slot_token.value() >= res.recorder.busy_until);
}

#[test]
fn every_frame_blocks_once() {
    let mut sample = bound_sample(320, 240);
    sample.run(7).unwrap();
    let res = sample.resources.as_ref().unwrap();
    assert_eq!(res.sync.blocked_waits, 7);
}

#[test]
fn recording_uses_the_reported_index() {
    // Frame by frame, the buffer the commands target must be the index
    // the engine reported at the start of that frame.
    let mut sample = bound_sample(800, 600);
    let mut reported = sample.resources.as_ref().unwrap().frame_index;
    for _ in 0..4 {
        sample.render().unwrap();
        let res = sample.resources.as_ref().unwrap();
        let recorded_target = match res.recorder.recorded()[3] {
            GpuCommand::Transition { buffer, state_before, state_after } => {
                assert_eq!(state_before, ResourceState::Presentable);
                assert_eq!(state_after, ResourceState::RenderTargetWritable);
                buffer
            }
            ref c => panic!("expected a transition barrier, found {:?}", c),
        };
        assert_eq!(recorded_target, reported);
        // The index was re-queried after the present, never cached.
        assert_eq!(res.frame_index, res.surface.current_index());
        assert_ne!(res.frame_index, reported);
        reported = res.frame_index;
    }
}

#[test]
fn unbound_render_is_a_no_op() {
    let mut sample = Sample::new(&hardware_adapters()).unwrap();
    assert_eq!(sample.render(), Ok(()));
}

#[test]
fn lost_surface_fails_present() {
    let mut sample = bound_sample(800, 600);
    sample.render().unwrap();
    sample.resources.as_mut().unwrap().surface.invalidate();
    assert_eq!(sample.render(), Err(RenderError::PresentLost));
}

#[test]
fn surface_flips_between_two_buffers() {
    let window = WindowInfo { width: 16, height: 16 };
    let mut surface = FrameSurface::bind(&window).unwrap();
    assert_eq!(surface.current_index(), 0);
    surface.present(1).unwrap();
    assert_eq!(surface.current_index(), 1);
    surface.present(1).unwrap();
    assert_eq!(surface.current_index(), 0);
}
