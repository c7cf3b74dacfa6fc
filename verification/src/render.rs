use vstd::prelude::*;

use crate::gpu;
use crate::quad::{encode_quads, zero_quad, Quad, MAX_QUADS};
use crate::surface::{clamp_dim, clamp_dimension, resized_size};

verus! {

/// Why the renderer could not be built. Every variant is fatal: there is no
/// degraded mode for a renderer without a GPU.
#[derive(Clone, Copy, PartialEq, Eq, Structural, Debug)]
pub enum InitError {
    /// No presentable surface could be built for the window.
    SurfaceCreation,
    /// No adapter compatible with the window's surface exists.
    NoAdapter,
    /// The adapter refused the device request.
    DeviceRequest,
    /// The adapter reports no format or configuration for this surface.
    SurfaceUnsupported,
}

/// The GPU context and quad pipeline: every GPU object the renderer owns,
/// together with the surface size it last applied. The GPU handles live
/// exactly as long as this value; `width` and `height` mirror the surface
/// configuration in force and are kept at least 1.
pub struct Renderer<'window> {
    pub quads_pipeline: wgpu::RenderPipeline,
    pub adapter: wgpu::Adapter,
    pub surface: wgpu::Surface<'window>,
    pub surface_config: wgpu::SurfaceConfiguration,
    pub device: wgpu::Device,
    pub queue: wgpu::Queue,
    pub quads_buffer: wgpu::Buffer,
    pub quads_bind_group: wgpu::BindGroup,
    /// Width of the configuration applied to the surface, in pixels.
    pub width: u32,
    /// Height of the configuration applied to the surface, in pixels.
    pub height: u32,
}

/// The WGSL for the quad pipeline. The vertex stage fetches the record for
/// the current instance from the storage buffer — seven tightly packed
/// 32-bit floats, matching the byte image the library uploads — and expands
/// one corner of a 4-vertex triangle strip from the quad's position and
/// size; the fragment stage fills with the quad's color at full opacity.
pub fn shader_source() -> (s: &'static str) {
    "
struct Quad {
    pos_x: f32,
    pos_y: f32,
    size_x: f32,
    size_y: f32,
    color_r: f32,
    color_g: f32,
    color_b: f32,
}

@group(0) @binding(0) var<storage, read> quads: array<Quad>;

struct VsOut {
    @builtin(position) clip_position: vec4<f32>,
    @location(0) color: vec3<f32>,
}

@vertex
fn vs_main(
    @builtin(vertex_index) vertex_index: u32,
    @builtin(instance_index) instance_index: u32,
) -> VsOut {
    let q = quads[instance_index];
    let corner = vec2<f32>(f32(vertex_index & 1u), f32(vertex_index >> 1u));
    let p = vec2<f32>(q.pos_x, q.pos_y) + corner * vec2<f32>(q.size_x, q.size_y);
    var out: VsOut;
    out.clip_position = vec4<f32>(p, f32(0), f32(1));
    out.color = vec3<f32>(q.color_r, q.color_g, q.color_b);
    return out;
}

@fragment
fn fs_main(in: VsOut) -> @location(0) vec4<f32> {
    return vec4<f32>(in.color, f32(1));
}
"
}

/// A scene of `MAX_QUADS` zero-valued records: the storage buffer's initial
/// contents.
fn zeroed_scene() -> (v: Vec<Quad>)
    ensures
        v@.len() == MAX_QUADS,
        forall|k: int| 0 <= k < v@.len() ==> v@[k] == zero_quad(),
{
    let mut v: Vec<Quad> = Vec::new();
    let mut i: usize = 0;
    while i < MAX_QUADS
        invariant
            i <= MAX_QUADS,
            v@.len() == i,
            forall|k: int| 0 <= k < i ==> v@[k] == zero_quad(),
        decreases MAX_QUADS - i,
    {
        v.push(Quad::zero());
        i = i + 1;
    }
    v
}

impl<'window> Renderer<'window> {
    /// The renderer's invariant: the size applied to the surface is never
    /// zero in either dimension.
    pub open spec fn wf(&self) -> bool {
        1 <= self.width && 1 <= self.height
    }

    /// Builds the whole renderer for a window: selects an adapter that can
    /// present to it (preferring a high-performance one), requests a device
    /// and queue, builds the quad pipeline, its bind group and its
    /// zero-initialized fixed-capacity storage buffer, and applies an
    /// initial surface configuration of the window's current size, clamped
    /// to at least 1×1. Every failure to acquire a GPU resource is returned
    /// as the matching `InitError`.
    pub fn new(
        wgpu_instance: &wgpu::Instance,
        window: &'window winit::window::Window,
    ) -> (r: Result<Renderer<'window>, InitError>)
        ensures
            r matches Ok(rend) ==> rend.wf(),
    {
        let surface = match gpu::create_window_surface(wgpu_instance, window) {
            Ok(s) => s,
            Err(_) => {
                return Err(InitError::SurfaceCreation);
            },
        };
        let adapter = match gpu::request_high_performance_adapter(wgpu_instance, &surface) {
            Ok(a) => a,
            Err(_) => {
                return Err(InitError::NoAdapter);
            },
        };
        let (device, queue) = match gpu::request_device_and_queue(&adapter) {
            Ok(p) => p,
            Err(_) => {
                return Err(InitError::DeviceRequest);
            },
        };

        let bind_group_layout = gpu::create_quads_bind_group_layout(&device);
        let pipeline_layout = gpu::create_quads_pipeline_layout(&device, &bind_group_layout);

        let swapchain_format = match gpu::first_surface_format(&surface, &adapter) {
            Some(f) => f,
            None => {
                return Err(InitError::SurfaceUnsupported);
            },
        };

        let initial_scene = zeroed_scene();
        let contents = encode_quads(&initial_scene);
        let quads_buffer = gpu::create_quads_buffer(&device, &contents);
        let quads_bind_group = gpu::create_quads_bind_group(
            &device,
            &bind_group_layout,
            &quads_buffer,
        );

        let shader = gpu::create_shader_module(&device, shader_source());
        let quads_pipeline = gpu::create_quads_render_pipeline(
            &device,
            &pipeline_layout,
            &shader,
            &swapchain_format,
        );

        let (window_width, window_height) = gpu::window_inner_size(window);
        let width = clamp_dimension(window_width);
        let height = clamp_dimension(window_height);
        let mut surface_config = match gpu::default_surface_config(
            &surface,
            &adapter,
            width,
            height,
        ) {
            Some(c) => c,
            None => {
                return Err(InitError::SurfaceUnsupported);
            },
        };
        gpu::configure_surface(&surface, &device, &mut surface_config, width, height);

        Ok(
            Renderer {
                quads_pipeline,
                adapter,
                surface,
                surface_config,
                device,
                queue,
                quads_buffer,
                quads_bind_group,
                width,
                height,
            },
        )
    }

    /// Stores the requested size — each dimension raised to the 1-pixel
    /// floor the surface needs — and re-applies the surface configuration.
    /// The new size depends only on the request, so repeating the same
    /// request changes nothing beyond re-applying the configuration already
    /// in force. Only the surface is reconfigured: every GPU handle the
    /// renderer owns is kept, not recreated.
    pub fn update_surface_size(&mut self, width: u32, height: u32)
        ensures
            (final(self).width, final(self).height) == resized_size(
                (old(self).width, old(self).height),
                width,
                height,
            ),
            final(self).width == clamp_dim(width),
            final(self).height == clamp_dim(height),
            final(self).wf(),
            final(self).adapter == old(self).adapter,
            final(self).device == old(self).device,
            final(self).queue == old(self).queue,
            final(self).surface == old(self).surface,
            final(self).quads_pipeline == old(self).quads_pipeline,
            final(self).quads_buffer == old(self).quads_buffer,
            final(self).quads_bind_group == old(self).quads_bind_group,
    {
        let w = clamp_dimension(width);
        let h = clamp_dimension(height);
        self.width = w;
        self.height = h;
        gpu::configure_surface(&self.surface, &self.device, &mut self.surface_config, w, h);
    }
}

} // verus!
