use vstd::prelude::*;

use crate::gpu;
use crate::quad::{encode_quads, uploaded_count, Quad, MAX_QUADS, QUAD_BYTES};
use crate::render::Renderer;

verus! {

/// A scene snapshot: the ordered quads to draw this frame. The caller
/// rebuilds it every frame; the renderer reads it only for the duration of
/// one draw call and keeps no part of it afterwards.
pub struct Scene {
    pub quads: Vec<Quad>,
}

/// Why a frame was skipped. Per-frame errors are recoverable: the caller
/// reports them and tries again on the next redraw request.
#[derive(Clone, Copy, PartialEq, Eq, Structural, Debug)]
pub enum DrawError {
    /// The surface had no presentable texture (outdated, lost, or timed
    /// out). Nothing was uploaded, recorded, or submitted for this frame.
    SurfaceAcquire,
}

/// What one presented frame did: how many instances the single draw call
/// issued, and how many bytes the upload wrote into the storage buffer at
/// offset 0.
#[derive(Clone, Copy, PartialEq, Eq, Structural, Debug)]
pub struct FrameReport {
    pub instances: u32,
    pub bytes_written: usize,
}

/// Renders one frame into an already-acquired surface texture: writes the
/// byte image of the leading `uploaded_count` quads into the storage buffer
/// at offset 0, records a single render pass that clears the frame and
/// issues one instanced draw of a 4-vertex strip per uploaded quad, submits
/// the commands, and presents the frame. Taking the acquired texture as an
/// argument keeps submission unreachable for a frame whose acquisition
/// failed.
fn render_to_frame(renderer: &Renderer<'_>, frame: wgpu::SurfaceTexture, quads: &Vec<Quad>) -> (rep:
    FrameReport)
    ensures
        rep.instances as int == uploaded_count(quads@.len() as int),
        rep.bytes_written as int == uploaded_count(quads@.len() as int) * QUAD_BYTES,
{
    let view = gpu::create_frame_view(&frame);

    let bytes = encode_quads(quads);
    let instances: u32 = if quads.len() <= MAX_QUADS {
        quads.len() as u32
    } else {
        MAX_QUADS as u32
    };
    proof {
        let count = uploaded_count(quads@.len() as int);
        assert(count * QUAD_BYTES % 4 == 0) by (nonlinear_arith)
            requires
                0 <= count,
                QUAD_BYTES == 28,
        ;
    }
    gpu::write_quads_buffer(&renderer.queue, &renderer.quads_buffer, &bytes);

    let mut encoder = gpu::create_encoder(&renderer.device);
    {
        let mut pass = gpu::begin_clear_pass(&mut encoder, &view);
        gpu::pass_set_bind_group(&mut pass, &renderer.quads_bind_group);
        gpu::pass_set_pipeline(&mut pass, &renderer.quads_pipeline);
        gpu::pass_draw_strip(&mut pass, instances);
    }
    let commands = gpu::finish_encoder(encoder);
    gpu::submit_commands(&renderer.queue, commands);
    gpu::present_frame(frame);

    FrameReport { instances, bytes_written: bytes.len() }
}

impl Scene {
    /// Draws one frame of this scene. On success the report says exactly
    /// what the frame protocol did: one instance per quad — the whole scene
    /// while it fits the buffer's capacity, the leading `MAX_QUADS`
    /// otherwise — and `QUAD_BYTES` bytes uploaded per instance, at offset
    /// 0. An empty scene presents a valid cleared frame with zero
    /// instances. When no texture can be acquired the frame is skipped:
    /// the error is returned and no commands are recorded or submitted.
    pub fn draw(&self, renderer: &Renderer<'_>) -> (r: Result<FrameReport, DrawError>)
        ensures
            r matches Ok(rep) ==> rep.instances as int == uploaded_count(self.quads@.len() as int)
                && rep.bytes_written as int == uploaded_count(self.quads@.len() as int)
                * QUAD_BYTES,
            r matches Err(e) ==> e == DrawError::SurfaceAcquire,
    {
        let frame = match gpu::acquire_texture(&renderer.surface) {
            Ok(f) => f,
            Err(_) => {
                return Err(DrawError::SurfaceAcquire);
            },
        };
        Ok(render_to_frame(renderer, frame, &self.quads))
    }
}

} // verus!
