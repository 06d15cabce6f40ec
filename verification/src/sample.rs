//! The renderer itself: device acquisition, window binding, and the
//! per-frame loop.
//!
//! One logical thread drives every frame: record the fixed command
//! sequence into the buffer the engine reported current, submit, make
//! the submission's contents off-limits until its fence counter
//! completes, present, then signal and wait for the GPU before touching
//! anything again. The wait is the only suspension point, and its
//! token is what entitles the next frame to reset the allocator.

use vstd::prelude::*;
use crate::device::AdapterInfo;
use crate::device::DeviceContext;
use crate::device::create_device;
use crate::device::suitable;
use crate::error::RenderError;
use crate::geometry::VERTEX_STRIDE;
use crate::geometry::Vertex;
use crate::geometry::VertexBuffer;
use crate::geometry::create_vertex_buffer;
use crate::geometry::vertices_bytes;
use crate::pipeline::create_pipeline_state;
use crate::pipeline::create_root_signature;
use crate::recorder::CommandRecorder;
use crate::recorder::GpuCommand;
use crate::recorder::barriers_balanced;
use crate::recorder::frame_commands;
use crate::recorder::populate_command_list;
use crate::surface::FrameSurface;
use crate::surface::WindowInfo;
use crate::sync::FramePhase;
use crate::sync::FrameSynchronizer;
use crate::sync::SlotToken;
use crate::sync::phase;

verus! {

/// Everything that exists only while bound to a window: the surface,
/// the recorder, the synchronizer, the uploaded geometry, the cached
/// frame index, and the token of the last completed wait.
pub struct Resources {
    /// The double-buffered presentation surface.
    pub surface: FrameSurface,
    /// The reusable command buffer and allocator.
    pub recorder: CommandRecorder,
    /// The fence protocol state.
    pub sync: FrameSynchronizer,
    /// The one-time-uploaded vertex buffer.
    pub vertex_buffer: VertexBuffer,
    /// The back-buffer index to record into this frame: the engine's
    /// report, refreshed immediately after each present.
    pub frame_index: u32,
    /// Witness that the fence reached the counter gating the next
    /// allocator reset.
    pub slot_token: SlotToken,
}

impl Resources {
    /// The frame invariant. In particular: the cached frame index is
    /// the engine's current report; the reset token is truthful (the
    /// fence really completed its counter) and at or past the
    /// recorder's reset barrier, so recording never races in-flight
    /// GPU work, and that barrier sits below the next counter to be
    /// signaled.
    pub open spec fn wf(self) -> bool {
        &&& self.surface.wf()
        &&& self.recorder.wf()
        &&& self.sync.wf()
        &&& self.vertex_buffer.wf()
        &&& self.frame_index == self.surface.engine_index
        &&& self.recorder.width == self.surface.width
        &&& self.recorder.height == self.surface.height
        &&& self.slot_token.counter() >= self.recorder.busy_until
        &&& self.sync.fence.completed >= self.slot_token.counter()
        &&& self.recorder.busy_until < self.sync.fence_value
    }

    /// Drive one frame: record, submit, present, then signal the fence
    /// and wait for the GPU to catch up.
    ///
    /// On success the frame is fully retired: the counter advanced by
    /// one, the fence completed exactly the signaled value (the CPU
    /// blocked for it — the stop-the-world wait means the GPU is always
    /// one frame behind at the signal), and the frame index was
    /// re-queried from the engine, which flipped to the other buffer.
    /// The commands were recorded into the buffer the engine reported
    /// current at the start of the frame, never a stale index. Fails
    /// with `PresentLost` — after recording, before signaling — exactly
    /// when the surface was invalidated externally.
    pub fn render_frame(&mut self) -> (r: Result<(), RenderError>)
        requires
            old(self).wf(),
            old(self).sync.fence_value < u64::MAX,
        ensures
            match r {
                Ok(()) => {
                    &&& final(self).wf()
                    &&& !old(self).surface.lost
                    &&& final(self).surface.lost == old(self).surface.lost
                    &&& final(self).surface.width == old(self).surface.width
                    &&& final(self).surface.height == old(self).surface.height
                    &&& final(self).surface.engine_index == 1 - old(self).surface.engine_index
                    &&& final(self).frame_index == final(self).surface.engine_index
                    &&& final(self).recorder.commands@ == frame_commands(
                        old(self).frame_index,
                        old(self).surface.width,
                        old(self).surface.height,
                        old(self).vertex_buffer.vbv.stride_in_bytes,
                        old(self).vertex_buffer.vbv.size_in_bytes,
                    )
                    &&& final(self).recorder.list_closed
                    &&& barriers_balanced(final(self).recorder.commands@, old(self).frame_index)
                    &&& final(self).recorder.busy_until == old(self).sync.fence_value
                    &&& final(self).sync.fence_value == old(self).sync.fence_value + 1
                    &&& final(self).sync.fence.completed == old(self).sync.fence_value
                    &&& final(self).sync.fence.completed >= old(self).sync.fence.completed
                    &&& final(self).sync.blocked_waits == old(self).sync.blocked_waits + 1
                    &&& final(self).vertex_buffer == old(self).vertex_buffer
                    &&& phase(final(self).sync.fence, final(self).slot_token.counter())
                        == FramePhase::Idle
                },
                Err(e) => {
                    &&& e == RenderError::PresentLost
                    &&& old(self).surface.lost
                    &&& final(self).surface == old(self).surface
                    &&& final(self).sync == old(self).sync
                    &&& final(self).frame_index == old(self).frame_index
                    &&& final(self).vertex_buffer == old(self).vertex_buffer
                    &&& final(self).recorder.busy_until == old(self).sync.fence_value
                },
            },
    {
        let buffer = self.frame_index;
        let vbv = self.vertex_buffer.vbv;
        let gate = self.sync.fence_value;
        match populate_command_list(&mut self.recorder, &self.slot_token, buffer, &vbv) {
            Ok(()) => {},
            Err(e) => {
                // The frame invariant puts the token at or past the
                // recorder's gate, so recording cannot be refused.
                proof {
                    assert(false);
                }
                return Err(e);
            },
        }
        // Execute the command list: the queue now owns the recorded
        // contents until the counter about to be signaled completes.
        self.recorder.mark_submitted(gate);
        // Present the frame.
        match self.surface.present(1) {
            Ok(()) => {},
            Err(e) => {
                return Err(e);
            },
        }
        wait_for_previous_frame(self);
        Ok(())
    }
}

/// Signal the fence at the current counter value, block until the GPU
/// completes it, and re-query the engine for the current back-buffer
/// index.
///
/// Waiting for the frame to complete before continuing is a deliberate
/// simplicity trade-off: the CPU stops fully once per frame instead of
/// pipelining. The fence's completed-value lands exactly on the
/// signaled counter, the stored token witnesses it, and the frame index
/// is the engine's fresh report — never computed locally.
pub fn wait_for_previous_frame(resources: &mut Resources)
    requires
        old(resources).sync.wf(),
        old(resources).sync.fence_value < u64::MAX,
        old(resources).surface.wf(),
    ensures
        final(resources).sync.wf(),
        final(resources).surface == old(resources).surface,
        final(resources).recorder == old(resources).recorder,
        final(resources).vertex_buffer == old(resources).vertex_buffer,
        final(resources).sync.fence_value == old(resources).sync.fence_value + 1,
        final(resources).sync.fence.signaled == old(resources).sync.fence_value,
        final(resources).sync.fence.completed == old(resources).sync.fence_value,
        final(resources).sync.fence.completed >= old(resources).sync.fence.completed,
        final(resources).sync.blocked_waits == old(resources).sync.blocked_waits + 1,
        final(resources).slot_token.counter() == old(resources).sync.fence_value,
        final(resources).frame_index == old(resources).surface.engine_index,
{
    // Signal and increment the fence value.
    let fence = resources.sync.signal_and_advance();
    // Wait until the frame is finished on the GPU.
    let token = resources.sync.wait_for_slot(fence);
    resources.slot_token = token;
    resources.frame_index = resources.surface.current_index();
}

/// The renderer: the process-lifetime device context, plus the
/// window-bound resources once a window is bound.
pub struct Sample {
    /// The adapter and logical device, created once.
    pub device: DeviceContext,
    /// The window-bound state; `None` until a window is bound.
    pub resources: Option<Resources>,
}

impl Sample {
    /// Unbound, or bound with the frame invariant intact.
    pub open spec fn wf(self) -> bool {
        match self.resources {
            None => true,
            Some(res) => res.wf(),
        }
    }

    /// Acquire the device on the first suitable hardware adapter. Not
    /// yet bound to any window. Fails — fatally, with no retry — with
    /// `NoSuitableAdapter` exactly when no reported adapter qualifies.
    pub fn new(adapters: &Vec<AdapterInfo>) -> (r: Result<Sample, RenderError>)
        ensures
            match r {
                Ok(s) => {
                    &&& s.wf()
                    &&& s.resources matches None
                    &&& s.device.adapter_index < adapters@.len()
                    &&& suitable(adapters@[s.device.adapter_index as int])
                    &&& forall|j: int|
                        0 <= j < s.device.adapter_index ==> !suitable(adapters@[j])
                },
                Err(e) => {
                    &&& e == RenderError::NoSuitableAdapter
                    &&& forall|j: int| 0 <= j < adapters@.len() ==> !suitable(adapters@[j])
                },
            },
    {
        match create_device(adapters) {
            Ok(device) => Ok(Sample { device, resources: None }),
            Err(e) => Err(e),
        }
    }

    /// The window title of the sample.
    pub fn title(&self) -> (t: String)
        ensures
            t@ == "D3D12 Hello Triangle"@,
    {
        "D3D12 Hello Triangle".to_string()
    }

    /// Bind to a window: create the buffer chain sized to the window's
    /// physical pixels, the command recorder with the compiled-in root
    /// signature and the supplied shader stages, the uploaded geometry,
    /// and a fresh synchronizer whose counter starts at 1.
    ///
    /// The startup failures come in creation order, each fatal:
    /// `PresentationUnsupported` for a zero-sized window, then
    /// `MissingShader` for an absent shader stage, then
    /// `AllocationError` for an unallocatable vertex buffer. On failure
    /// nothing is bound and the renderer is unchanged.
    pub fn bind_to_window(
        &mut self,
        window: &WindowInfo,
        vs_bytecode: &Vec<u8>,
        ps_bytecode: &Vec<u8>,
        vertices: &Vec<Vertex>,
    ) -> (r: Result<(), RenderError>)
        ensures
            final(self).device == old(self).device,
            match r {
                Ok(()) => {
                    &&& window.width > 0 && window.height > 0
                    &&& vs_bytecode@.len() > 0 && ps_bytecode@.len() > 0
                    &&& vertices@.len() > 0
                    &&& VERTEX_STRIDE * vertices@.len() <= u32::MAX
                    &&& final(self).wf()
                    &&& match final(self).resources {
                        Some(res) => {
                            &&& res.surface.width == window.width
                            &&& res.surface.height == window.height
                            &&& res.surface.engine_index == 0
                            &&& !res.surface.lost
                            &&& res.frame_index == 0
                            &&& res.sync.fence_value == 1
                            &&& res.sync.fence.completed == 0
                            &&& res.sync.fence.signaled == 0
                            &&& res.sync.blocked_waits == 0
                            &&& res.recorder.commands@ == Seq::<GpuCommand>::empty()
                            &&& res.recorder.list_closed
                            &&& res.recorder.busy_until == 0
                            &&& res.recorder.pipeline.vs_size == vs_bytecode@.len()
                            &&& res.recorder.pipeline.ps_size == ps_bytecode@.len()
                            &&& res.recorder.root_signature.allows_input_assembler_layout
                            &&& res.vertex_buffer.data@ == vertices_bytes(vertices@)
                            &&& res.vertex_buffer.vbv.stride_in_bytes == VERTEX_STRIDE
                            &&& res.vertex_buffer.vbv.size_in_bytes == VERTEX_STRIDE
                                * vertices@.len()
                            &&& res.slot_token.counter() == 0
                            &&& phase(res.sync.fence, res.slot_token.counter())
                                == FramePhase::Idle
                        },
                        None => false,
                    }
                },
                Err(e) => {
                    &&& *final(self) == *old(self)
                    &&& (window.width == 0 || window.height == 0 || vs_bytecode@.len() == 0
                        || ps_bytecode@.len() == 0 || vertices@.len() == 0 || VERTEX_STRIDE
                        * vertices@.len() > u32::MAX)
                    &&& e == (if window.width == 0 || window.height == 0 {
                        RenderError::PresentationUnsupported
                    } else if vs_bytecode@.len() == 0 || ps_bytecode@.len() == 0 {
                        RenderError::MissingShader
                    } else {
                        RenderError::AllocationError
                    })
                },
            },
    {
        let surface = match FrameSurface::bind(window) {
            Ok(s) => s,
            Err(e) => {
                return Err(e);
            },
        };
        let root_signature = create_root_signature();
        let pipeline = match create_pipeline_state(vs_bytecode, ps_bytecode) {
            Ok(p) => p,
            Err(e) => {
                return Err(e);
            },
        };
        let recorder = CommandRecorder::new(surface.width, surface.height, root_signature, pipeline);
        let vertex_buffer = match create_vertex_buffer(vertices) {
            Ok(b) => b,
            Err(e) => {
                return Err(e);
            },
        };
        let mut sync = FrameSynchronizer::new();
        // Nothing has been submitted, so counter 0 has trivially
        // completed: the first frame's allocator reset is free.
        let slot_token = sync.wait_for_slot(0);
        let frame_index = surface.current_index();
        self.resources = Some(
            Resources { surface, recorder, sync, vertex_buffer, frame_index, slot_token },
        );
        Ok(())
    }

    /// Render one frame, if bound; unbound, do nothing.
    pub fn render(&mut self) -> (r: Result<(), RenderError>)
        requires
            old(self).wf(),
            match old(self).resources {
                Some(res) => res.sync.fence_value < u64::MAX,
                None => true,
            },
        ensures
            final(self).device == old(self).device,
            match old(self).resources {
                None => r == Ok::<(), RenderError>(()) && *final(self) == *old(self),
                Some(res) => match (r, final(self).resources) {
                    (Ok(()), Some(res2)) => {
                        &&& final(self).wf()
                        &&& !res.surface.lost
                        &&& res2.surface.lost == res.surface.lost
                        &&& res2.surface.width == res.surface.width
                        &&& res2.surface.height == res.surface.height
                        &&& res2.surface.engine_index == 1 - res.surface.engine_index
                        &&& res2.frame_index == res2.surface.engine_index
                        &&& res2.recorder.commands@ == frame_commands(
                            res.frame_index,
                            res.surface.width,
                            res.surface.height,
                            res.vertex_buffer.vbv.stride_in_bytes,
                            res.vertex_buffer.vbv.size_in_bytes,
                        )
                        &&& res2.recorder.list_closed
                        &&& barriers_balanced(res2.recorder.commands@, res.frame_index)
                        &&& res2.recorder.busy_until == res.sync.fence_value
                        &&& res2.sync.fence_value == res.sync.fence_value + 1
                        &&& res2.sync.fence.completed == res.sync.fence_value
                        &&& res2.sync.fence.completed >= res.sync.fence.completed
                        &&& res2.sync.blocked_waits == res.sync.blocked_waits + 1
                        &&& res2.vertex_buffer == res.vertex_buffer
                        &&& phase(res2.sync.fence, res2.slot_token.counter())
                            == FramePhase::Idle
                    },
                    (Err(e), Some(res2)) => {
                        &&& e == RenderError::PresentLost
                        &&& res.surface.lost
                        &&& res2.surface == res.surface
                        &&& res2.sync == res.sync
                        &&& res2.frame_index == res.frame_index
                        &&& res2.vertex_buffer == res.vertex_buffer
                    },
                    _ => false,
                },
            },
    {
        match &mut self.resources {
            None => Ok(()),
            Some(res) => res.render_frame(),
        }
    }

    /// Drive `frames` consecutive frames on a live surface. None fails,
    /// and at the end the counters sit exactly where the stop-the-world
    /// protocol puts them: the fence counter advanced by one per frame,
    /// the GPU completed every frame but holds the counter one behind
    /// the next signal, and every frame's wait blocked.
    pub fn run(&mut self, frames: u64) -> (r: Result<(), RenderError>)
        requires
            old(self).wf(),
            match old(self).resources {
                Some(res) => {
                    &&& res.sync.fence_value + frames <= u64::MAX
                    &&& !res.surface.lost
                },
                None => false,
            },
        ensures
            r == Ok::<(), RenderError>(()),
            final(self).wf(),
            final(self).device == old(self).device,
            match (old(self).resources, final(self).resources) {
                (Some(res), Some(res2)) => {
                    &&& res2.sync.fence_value == res.sync.fence_value + frames
                    &&& res2.sync.blocked_waits == res.sync.blocked_waits + frames
                    &&& frames > 0 ==> res2.sync.fence.completed == res.sync.fence_value + frames
                        - 1
                    &&& frames == 0 ==> res2.sync.fence.completed == res.sync.fence.completed
                    &&& res2.surface.width == res.surface.width
                    &&& res2.surface.height == res.surface.height
                    &&& !res2.surface.lost
                },
                _ => false,
            },
    {
        let ghost res0 = old(self).resources->Some_0;
        let mut i: u64 = 0;
        while i < frames
            invariant
                i <= frames,
                self.wf(),
                match self.resources {
                    Some(res) => {
                        &&& res.sync.fence_value == res0.sync.fence_value + i
                        &&& res.sync.blocked_waits == res0.sync.blocked_waits + i
                        &&& i > 0 ==> res.sync.fence.completed == res0.sync.fence_value + i - 1
                        &&& i == 0 ==> res.sync.fence.completed == res0.sync.fence.completed
                        &&& res.surface.width == res0.surface.width
                        &&& res.surface.height == res0.surface.height
                        &&& !res.surface.lost
                    },
                    None => false,
                },
                res0.sync.fence_value + frames <= u64::MAX,
                self.device == old(self).device,
            decreases frames - i,
        {
            let r = self.render();
            proof {
                assert(r matches Ok(()));
            }
            i = i + 1;
        }
        Ok(())
    }
}

} // verus!
