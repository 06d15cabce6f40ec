//! The command recorder: one reusable command buffer and its backing
//! allocator, re-recorded with a fixed sequence of GPU operations every
//! frame.
//!
//! The recorded sequence is pinned down exactly by [`frame_commands`]:
//! bind state, move the target image from presentable to
//! render-target-writable, clear and draw, move it back, close. The
//! allocator may be reset only once the fence protocol confirms that
//! the previous use of the command buffer has fully completed on the
//! GPU; that permission is a [`SlotToken`], issued only by the frame
//! synchronizer, and recording without it fails and leaves the recorder
//! untouched so the caller can drop the frame.

use vstd::prelude::*;
use crate::error::RenderError;
use crate::geometry::VertexBufferView;
use crate::pipeline::PipelineState;
use crate::pipeline::RootSignature;
use crate::surface::FRAME_COUNT;
use crate::sync::SlotToken;

verus! {

/// Number of vertices in the single non-indexed draw.
pub const DRAW_VERTEX_COUNT: u32 = 3;

/// The two access states a target image moves between: the presentation
/// engine and the render pipeline require mutually exclusive access.
#[derive(Clone, Copy, PartialEq, Eq, Structural, Debug)]
pub enum ResourceState {
    /// The image may be presented.
    Presentable,
    /// The image may be written as a render target.
    RenderTargetWritable,
}

/// One recorded GPU operation.
#[derive(Clone, Copy, PartialEq, Eq, Structural, Debug)]
pub enum GpuCommand {
    /// Bind the root signature.
    SetRootSignature,
    /// Bind the viewport covering the whole surface.
    SetViewport { width: u32, height: u32 },
    /// Bind the clip rectangle covering the whole surface.
    SetScissorRect { width: u32, height: u32 },
    /// Resource-state transition barrier on one target image.
    Transition { buffer: u32, state_before: ResourceState, state_after: ResourceState },
    /// Bind the render-target view of one target image.
    BindRenderTarget { buffer: u32 },
    /// Clear one target image to the fixed clear color.
    ClearRenderTarget { buffer: u32 },
    /// Set the primitive topology to triangle list.
    SetTopologyTriangleList,
    /// Bind the static geometry through its input-assembler view.
    BindVertexBuffer { stride_in_bytes: u32, size_in_bytes: u32 },
    /// One non-indexed draw.
    DrawInstanced { vertex_count: u32, instance_count: u32 },
}

/// Build a resource-state transition barrier for one target image.
pub fn transition_barrier(buffer: u32, state_before: ResourceState, state_after: ResourceState) -> (
    c: GpuCommand)
    ensures
        c == (GpuCommand::Transition { buffer, state_before, state_after }),
{
    GpuCommand::Transition { buffer, state_before, state_after }
}

/// The barrier that hands `buffer` to the render pipeline.
pub open spec fn is_to_render_target(c: GpuCommand, buffer: u32) -> bool {
    c == (GpuCommand::Transition {
        buffer,
        state_before: ResourceState::Presentable,
        state_after: ResourceState::RenderTargetWritable,
    })
}

/// The barrier that returns `buffer` to the presentation engine.
pub open spec fn is_to_presentable(c: GpuCommand, buffer: u32) -> bool {
    c == (GpuCommand::Transition {
        buffer,
        state_before: ResourceState::RenderTargetWritable,
        state_after: ResourceState::Presentable,
    })
}

/// The transition barriers for `buffer` in `s` form one balanced pair:
/// exactly one barrier moves it to render-target-writable, exactly one
/// moves it back to presentable, and the former comes first.
pub open spec fn barriers_balanced(s: Seq<GpuCommand>, buffer: u32) -> bool {
    exists|k: int, m: int|
        {
            &&& 0 <= k < m < s.len()
            &&& is_to_render_target(s[k], buffer)
            &&& is_to_presentable(s[m], buffer)
            &&& forall|j: int| 0 <= j < s.len() && j != k ==> !is_to_render_target(s[j], buffer)
            &&& forall|j: int| 0 <= j < s.len() && j != m ==> !is_to_presentable(s[j], buffer)
        }
}

/// The fixed per-frame command sequence, in the one order the GPU-visible
/// state admits: state binding, barrier to render target, clear and draw,
/// barrier back to presentable.
pub open spec fn frame_commands(
    buffer: u32,
    width: u32,
    height: u32,
    stride_in_bytes: u32,
    size_in_bytes: u32,
) -> Seq<GpuCommand> {
    seq![
        GpuCommand::SetRootSignature,
        GpuCommand::SetViewport { width, height },
        GpuCommand::SetScissorRect { width, height },
        GpuCommand::Transition {
            buffer,
            state_before: ResourceState::Presentable,
            state_after: ResourceState::RenderTargetWritable,
        },
        GpuCommand::BindRenderTarget { buffer },
        GpuCommand::ClearRenderTarget { buffer },
        GpuCommand::SetTopologyTriangleList,
        GpuCommand::BindVertexBuffer { stride_in_bytes, size_in_bytes },
        GpuCommand::DrawInstanced { vertex_count: DRAW_VERTEX_COUNT, instance_count: 1 },
        GpuCommand::Transition {
            buffer,
            state_before: ResourceState::RenderTargetWritable,
            state_after: ResourceState::Presentable,
        },
    ]
}

/// Law: the per-frame sequence keeps its transition-barrier pair
/// balanced — the one barrier handing the target image to the render
/// pipeline is followed, later in the same frame, by exactly one
/// barrier returning it to the presentation engine.
pub proof fn lemma_frame_barriers_balanced(
    buffer: u32,
    width: u32,
    height: u32,
    stride_in_bytes: u32,
    size_in_bytes: u32,
)
    ensures
        barriers_balanced(frame_commands(buffer, width, height, stride_in_bytes, size_in_bytes), buffer),
{
    let s = frame_commands(buffer, width, height, stride_in_bytes, size_in_bytes);
    assert(is_to_render_target(s[3], buffer));
    assert(is_to_presentable(s[9], buffer));
    assert forall|j: int| 0 <= j < s.len() && j != 3 implies !is_to_render_target(
        s[j],
        buffer,
    ) by {
        assert(s.len() == 10);
    }
    assert forall|j: int| 0 <= j < s.len() && j != 9 implies !is_to_presentable(s[j], buffer) by {
        assert(s.len() == 10);
    }
}

/// The command recorder: the reusable command buffer's recorded
/// contents, whether the buffer is closed for submission, the fence
/// counter gating the next allocator reset, and the compiled-in state
/// it binds every frame.
pub struct CommandRecorder {
    /// The command buffer's current contents, overwritten every frame.
    pub commands: Vec<GpuCommand>,
    /// The command buffer is closed: finalized for submission, no
    /// further recording until the next reset.
    pub list_closed: bool,
    /// The fence counter that must complete before the allocator may be
    /// reset again; updated at each submission.
    pub busy_until: u64,
    /// Viewport and clip width, from the bound surface.
    pub width: u32,
    /// Viewport and clip height, from the bound surface.
    pub height: u32,
    /// The root signature bound every frame.
    pub root_signature: RootSignature,
    /// The pipeline state bound at every reset.
    pub pipeline: PipelineState,
}

impl CommandRecorder {
    /// The recorder covers a nonzero surface.
    pub open spec fn wf(self) -> bool {
        &&& self.width > 0
        &&& self.height > 0
    }

    /// Create the command buffer and its allocator. As created the
    /// buffer is closed and empty: nothing has been submitted, so the
    /// first reset is gated on counter 0, which every token satisfies.
    pub fn new(width: u32, height: u32, root_signature: RootSignature, pipeline: PipelineState) -> (
        r: CommandRecorder)
        requires
            width > 0,
            height > 0,
        ensures
            r.wf(),
            r.commands@ == Seq::<GpuCommand>::empty(),
            r.list_closed,
            r.busy_until == 0,
            r.width == width,
            r.height == height,
            r.root_signature == root_signature,
            r.pipeline == pipeline,
    {
        CommandRecorder {
            commands: Vec::new(),
            list_closed: true,
            busy_until: 0,
            width,
            height,
            root_signature,
            pipeline,
        }
    }

    /// The recorded commands, for submission.
    pub fn recorded(&self) -> (r: &Vec<GpuCommand>)
        ensures
            r@ == self.commands@,
    {
        &self.commands
    }

    /// The command buffer was handed to the GPU queue: its contents are
    /// in flight until the fence completes `gate`, so the allocator may
    /// not be reset before then.
    pub fn mark_submitted(&mut self, gate: u64)
        ensures
            final(self).busy_until == gate,
            final(self).commands@ == old(self).commands@,
            final(self).list_closed == old(self).list_closed,
            final(self).width == old(self).width,
            final(self).height == old(self).height,
            final(self).root_signature == old(self).root_signature,
            final(self).pipeline == old(self).pipeline,
    {
        self.busy_until = gate;
    }
}

/// Reset the allocator and command buffer and record one frame: the
/// exact sequence [`frame_commands`] targeting `buffer`, closed at the
/// end for submission.
///
/// The reset is legal only once the fence protocol has confirmed that
/// the previous use of the command buffer completed on the GPU, which
/// is what `token` witnesses. A token behind the recorder's gate fails
/// with `RecordingError` and leaves the recorder untouched: the caller
/// must not submit, and treats the frame as dropped.
pub fn populate_command_list(
    recorder: &mut CommandRecorder,
    token: &SlotToken,
    buffer: u32,
    vbv: &VertexBufferView,
) -> (r: Result<(), RenderError>)
    requires
        old(recorder).wf(),
        buffer < FRAME_COUNT,
    ensures
        final(recorder).wf(),
        final(recorder).busy_until == old(recorder).busy_until,
        final(recorder).width == old(recorder).width,
        final(recorder).height == old(recorder).height,
        final(recorder).root_signature == old(recorder).root_signature,
        final(recorder).pipeline == old(recorder).pipeline,
        match r {
            Ok(()) => {
                &&& token.counter() >= old(recorder).busy_until
                &&& final(recorder).commands@ == frame_commands(
                    buffer,
                    old(recorder).width,
                    old(recorder).height,
                    vbv.stride_in_bytes,
                    vbv.size_in_bytes,
                )
                &&& final(recorder).list_closed
                &&& barriers_balanced(final(recorder).commands@, buffer)
            },
            Err(e) => {
                &&& e == RenderError::RecordingError
                &&& token.counter() < old(recorder).busy_until
                &&& final(recorder).commands@ == old(recorder).commands@
                &&& final(recorder).list_closed == old(recorder).list_closed
            },
        },
{
    if token.value() < recorder.busy_until {
        return Err(RenderError::RecordingError);
    }
    // Allocator and command-buffer reset: the previous frame's contents
    // are discarded and the default pipeline state is bound.
    recorder.commands = Vec::new();
    recorder.list_closed = false;
    recorder.commands.push(GpuCommand::SetRootSignature);
    recorder.commands.push(GpuCommand::SetViewport { width: recorder.width, height: recorder.height });
    recorder.commands.push(
        GpuCommand::SetScissorRect { width: recorder.width, height: recorder.height },
    );
    let to_render = transition_barrier(
        buffer,
        ResourceState::Presentable,
        ResourceState::RenderTargetWritable,
    );
    recorder.commands.push(to_render);
    recorder.commands.push(GpuCommand::BindRenderTarget { buffer });
    recorder.commands.push(GpuCommand::ClearRenderTarget { buffer });
    recorder.commands.push(GpuCommand::SetTopologyTriangleList);
    recorder.commands.push(
        GpuCommand::BindVertexBuffer {
            stride_in_bytes: vbv.stride_in_bytes,
            size_in_bytes: vbv.size_in_bytes,
        },
    );
    recorder.commands.push(
        GpuCommand::DrawInstanced { vertex_count: DRAW_VERTEX_COUNT, instance_count: 1 },
    );
    let to_present = transition_barrier(
        buffer,
        ResourceState::RenderTargetWritable,
        ResourceState::Presentable,
    );
    recorder.commands.push(to_present);
    recorder.list_closed = true;
    proof {
        assert(recorder.commands@ =~= frame_commands(
            buffer,
            old(recorder).width,
            old(recorder).height,
            vbv.stride_in_bytes,
            vbv.size_in_bytes,
        ));
        lemma_frame_barriers_balanced(
            buffer,
            old(recorder).width,
            old(recorder).height,
            vbv.stride_in_bytes,
            vbv.size_in_bytes,
        );
    }
    Ok(())
}

} // verus!
