//! The trusted boundary to the GPU API.
//!
//! Every call into wgpu (and the one winit query the renderer needs) goes
//! through this module: each wrapper makes exactly one GPU-API call, and the
//! rest of the library is verified against these declarations. GPU handles
//! are opaque here; what the renderer decides — sizes, byte images, instance
//! counts — is computed in verified code and handed to these wrappers.

use vstd::prelude::*;
use wgpu::util::DeviceExt;

use crate::quad::BUFFER_BYTES;

verus! {

#[verifier::external_type_specification]
#[verifier::external_body]
pub struct ExInstance(wgpu::Instance);

#[verifier::external_type_specification]
#[verifier::external_body]
pub struct ExAdapter(wgpu::Adapter);

#[verifier::external_type_specification]
#[verifier::external_body]
pub struct ExDevice(wgpu::Device);

#[verifier::external_type_specification]
#[verifier::external_body]
pub struct ExQueue(wgpu::Queue);

#[verifier::external_type_specification]
#[verifier::external_body]
pub struct ExSurface<'a>(wgpu::Surface<'a>);

#[verifier::external_type_specification]
#[verifier::external_body]
#[verifier::reject_recursive_types(V)]
pub struct ExSurfaceConfiguration<V>(wgpu_types::SurfaceConfiguration<V>);

#[verifier::external_type_specification]
#[verifier::external_body]
pub struct ExTextureFormat(wgpu::TextureFormat);

#[verifier::external_type_specification]
#[verifier::external_body]
pub struct ExBindGroupLayout(wgpu::BindGroupLayout);

#[verifier::external_type_specification]
#[verifier::external_body]
pub struct ExPipelineLayout(wgpu::PipelineLayout);

#[verifier::external_type_specification]
#[verifier::external_body]
pub struct ExRenderPipeline(wgpu::RenderPipeline);

#[verifier::external_type_specification]
#[verifier::external_body]
pub struct ExShaderModule(wgpu::ShaderModule);

#[verifier::external_type_specification]
#[verifier::external_body]
pub struct ExBuffer(wgpu::Buffer);

#[verifier::external_type_specification]
#[verifier::external_body]
pub struct ExBindGroup(wgpu::BindGroup);

#[verifier::external_type_specification]
#[verifier::external_body]
pub struct ExCommandEncoder(wgpu::CommandEncoder);

#[verifier::external_type_specification]
#[verifier::external_body]
pub struct ExCommandBuffer(wgpu::CommandBuffer);

#[verifier::external_type_specification]
#[verifier::external_body]
pub struct ExRenderPass<'a>(wgpu::RenderPass<'a>);

#[verifier::external_type_specification]
#[verifier::external_body]
pub struct ExTextureView(wgpu::TextureView);

#[verifier::external_type_specification]
#[verifier::external_body]
pub struct ExSurfaceTexture(wgpu::SurfaceTexture);

#[verifier::external_type_specification]
#[verifier::external_body]
pub struct ExSurfaceError(wgpu::SurfaceError);

#[verifier::external_type_specification]
#[verifier::external_body]
pub struct ExCreateSurfaceError(wgpu::CreateSurfaceError);

#[verifier::external_type_specification]
#[verifier::external_body]
pub struct ExRequestDeviceError(wgpu::RequestDeviceError);

#[verifier::external_type_specification]
#[verifier::external_body]
pub struct ExRequestAdapterError(wgpu::RequestAdapterError);

#[verifier::external_type_specification]
#[verifier::external_body]
pub struct ExWindow(winit::window::Window);

/// Relies on wgpu's Instance::create_surface: builds the presentable surface
/// for the given window, or reports why none could be built.
#[verifier::external_body]
pub(crate) fn create_window_surface<'w>(
    instance: &wgpu::Instance,
    window: &'w winit::window::Window,
) -> (r: Result<wgpu::Surface<'w>, wgpu::CreateSurfaceError>) {
    instance.create_surface(window)
}

/// Relies on wgpu's Instance::request_adapter: yields an adapter able to
/// present to the given surface, preferring a high-performance one, or the
/// refusal when no compatible adapter exists. The choice depends on the
/// machine, so nothing more is stated of the result.
#[verifier::external_body]
pub(crate) fn request_high_performance_adapter(
    instance: &wgpu::Instance,
    surface: &wgpu::Surface<'_>,
) -> (r: Result<wgpu::Adapter, wgpu::RequestAdapterError>) {
    pollster::block_on(instance.request_adapter(&wgpu::RequestAdapterOptions {
        power_preference: wgpu::PowerPreference::HighPerformance,
        force_fallback_adapter: false,
        compatible_surface: Some(surface),
    }))
}

/// Relies on wgpu's Adapter::request_device: yields the logical device and
/// its command queue, requested with default features and with limits capped
/// to what the adapter reports, or the adapter's refusal.
#[verifier::external_body]
pub(crate) fn request_device_and_queue(adapter: &wgpu::Adapter) -> (r: Result<
    (wgpu::Device, wgpu::Queue),
    wgpu::RequestDeviceError,
>) {
    pollster::block_on(adapter.request_device(&wgpu::DeviceDescriptor {
        label: Some("device"),
        required_features: wgpu::Features::empty(),
        required_limits: wgpu::Limits::default().using_resolution(adapter.limits()),
        ..Default::default()
    }))
}

/// Relies on wgpu's Device::create_bind_group_layout: one binding, a
/// read-only storage buffer visible to the vertex and fragment stages.
#[verifier::external_body]
pub(crate) fn create_quads_bind_group_layout(device: &wgpu::Device) -> (r:
    wgpu::BindGroupLayout) {
    device.create_bind_group_layout(&wgpu::BindGroupLayoutDescriptor {
        label: Some("quads"),
        entries: &[wgpu::BindGroupLayoutEntry {
            binding: 0, visibility: wgpu::ShaderStages::all(), count: None,
            ty: wgpu::BindingType::Buffer {
                ty: wgpu::BufferBindingType::Storage { read_only: true },
                has_dynamic_offset: false, min_binding_size: None },
        }],
    })
}

/// Relies on wgpu's Device::create_pipeline_layout: a layout over the one
/// quad bind-group layout, with no push constants.
#[verifier::external_body]
pub(crate) fn create_quads_pipeline_layout(
    device: &wgpu::Device,
    bind_group_layout: &wgpu::BindGroupLayout,
) -> (r: wgpu::PipelineLayout) {
    device.create_pipeline_layout(&wgpu::PipelineLayoutDescriptor {
        label: None,
        bind_group_layouts: &[bind_group_layout],
        push_constant_ranges: &[],
    })
}

/// Relies on wgpu's Surface::get_capabilities: yields the first supported
/// surface format — the implementation default — or None when the adapter
/// cannot present to this surface at all.
#[verifier::external_body]
pub(crate) fn first_surface_format(
    surface: &wgpu::Surface<'_>,
    adapter: &wgpu::Adapter,
) -> (r: Option<wgpu::TextureFormat>) {
    surface.get_capabilities(adapter).formats.first().copied()
}

/// Relies on wgpu's DeviceExt::create_buffer_init: the returned buffer is
/// allocated with exactly the given bytes as its initial contents and is
/// usable as a storage buffer and as a copy destination.
#[verifier::external_body]
pub(crate) fn create_quads_buffer(device: &wgpu::Device, contents: &Vec<u8>) -> (r:
    wgpu::Buffer) {
    device.create_buffer_init(&wgpu::util::BufferInitDescriptor {
        label: Some("Quads Buffer"),
        contents: contents.as_slice(),
        usage: wgpu::BufferUsages::STORAGE | wgpu::BufferUsages::COPY_DST,
    })
}

/// Relies on wgpu's Device::create_bind_group: binds the storage buffer,
/// whole, to binding 0 of the given layout.
#[verifier::external_body]
pub(crate) fn create_quads_bind_group(
    device: &wgpu::Device,
    layout: &wgpu::BindGroupLayout,
    buffer: &wgpu::Buffer,
) -> (r: wgpu::BindGroup) {
    device.create_bind_group(&wgpu::BindGroupDescriptor {
        label: Some("quads"),
        layout,
        entries: &[wgpu::BindGroupEntry {
            binding: 0,
            resource: wgpu::BindingResource::Buffer(wgpu::BufferBinding {
                buffer, offset: 0, size: None }),
        }],
    })
}

/// Relies on wgpu's Device::create_shader_module: compiles the given WGSL
/// source. Malformed source is a startup defect that wgpu reports as a
/// validation error on first use of the module.
#[verifier::external_body]
pub(crate) fn create_shader_module(device: &wgpu::Device, source: &str) -> (r:
    wgpu::ShaderModule) {
    device.create_shader_module(wgpu::ShaderModuleDescriptor {
        label: Some("shader"),
        source: wgpu::ShaderSource::Wgsl(source.into()),
    })
}

/// Relies on wgpu's Device::create_render_pipeline: a triangle-strip
/// pipeline over the given layout, with the module's vertex and fragment
/// entry points, one color target of the given format, no vertex buffers,
/// no depth/stencil, no multisampling.
#[verifier::external_body]
pub(crate) fn create_quads_render_pipeline(
    device: &wgpu::Device,
    layout: &wgpu::PipelineLayout,
    shader: &wgpu::ShaderModule,
    format: &wgpu::TextureFormat,
) -> (r: wgpu::RenderPipeline) {
    device.create_render_pipeline(&wgpu::RenderPipelineDescriptor {
        label: None, layout: Some(layout), depth_stencil: None, multiview: None, cache: None,
        multisample: wgpu::MultisampleState::default(),
        vertex: wgpu::VertexState { module: shader, entry_point: Some("vs_main"),
            compilation_options: Default::default(), buffers: &[] },
        fragment: Some(wgpu::FragmentState { module: shader, entry_point: Some("fs_main"),
            compilation_options: Default::default(), targets: &[Some((*format).into())] }),
        primitive: wgpu::PrimitiveState { topology: wgpu::PrimitiveTopology::TriangleStrip,
            ..Default::default() },
    })
}

/// Relies on winit's Window::inner_size: the window's current pixel size,
/// as (width, height). The value depends on the window system, so nothing is
/// stated of it.
#[verifier::external_body]
pub(crate) fn window_inner_size(window: &winit::window::Window) -> (r: (u32, u32)) {
    let size = window.inner_size();
    (size.width, size.height)
}

/// Relies on wgpu's Surface::get_default_config: a configuration of the
/// surface's default format and present mode carrying exactly the given
/// width and height, or None when the adapter cannot present to this
/// surface.
#[verifier::external_body]
pub(crate) fn default_surface_config(
    surface: &wgpu::Surface<'_>,
    adapter: &wgpu::Adapter,
    width: u32,
    height: u32,
) -> (r: Option<wgpu::SurfaceConfiguration>)
    requires
        1 <= width,
        1 <= height,
{
    surface.get_default_config(adapter, width, height)
}

/// Relies on wgpu's Surface::configure: stores the given width and height in
/// the configuration and applies exactly that configuration to the surface.
/// The caller keeps width and height at least 1; a zero-sized configuration
/// is a fatal GPU-API error.
#[verifier::external_body]
pub(crate) fn configure_surface(
    surface: &wgpu::Surface<'_>,
    device: &wgpu::Device,
    config: &mut wgpu::SurfaceConfiguration,
    width: u32,
    height: u32,
)
    requires
        1 <= width,
        1 <= height,
{
    config.width = width;
    config.height = height;
    surface.configure(device, config);
}

/// Relies on wgpu's Surface::get_current_texture: the next presentable
/// texture, or the surface's error (outdated, lost, timed out, or out of
/// memory). Whether acquisition succeeds depends on the window system and
/// driver, so nothing more is stated of the outcome.
#[verifier::external_body]
pub(crate) fn acquire_texture(surface: &wgpu::Surface<'_>) -> (r: Result<
    wgpu::SurfaceTexture,
    wgpu::SurfaceError,
>) {
    surface.get_current_texture()
}

/// Relies on wgpu's Texture::create_view: a default render-target view over
/// the acquired frame's texture.
#[verifier::external_body]
pub(crate) fn create_frame_view(frame: &wgpu::SurfaceTexture) -> (r: wgpu::TextureView) {
    frame.texture.create_view(&wgpu::TextureViewDescriptor::default())
}

/// Relies on wgpu's Queue::write_buffer: schedules exactly the given bytes
/// to be written into the buffer at offset 0, ordered before any command
/// buffer submitted to the same queue afterwards. The caller keeps the byte
/// count within the buffer's capacity and 4-byte aligned; anything else
/// makes wgpu raise a validation error.
#[verifier::external_body]
pub(crate) fn write_quads_buffer(queue: &wgpu::Queue, buffer: &wgpu::Buffer, bytes: &Vec<u8>)
    requires
        bytes@.len() <= BUFFER_BYTES,
        bytes@.len() % 4 == 0,
{
    queue.write_buffer(buffer, 0, bytes.as_slice());
}

/// Relies on wgpu's Device::create_command_encoder: a fresh encoder with
/// nothing recorded.
#[verifier::external_body]
pub(crate) fn create_encoder(device: &wgpu::Device) -> (r: wgpu::CommandEncoder) {
    device.create_command_encoder(&wgpu::CommandEncoderDescriptor { label: None })
}

/// Relies on wgpu's CommandEncoder::begin_render_pass: a pass with the given
/// view as its single color attachment, cleared to the fixed green
/// background at the start of the pass and stored after it.
#[verifier::external_body]
pub(crate) fn begin_clear_pass<'p>(
    encoder: &'p mut wgpu::CommandEncoder,
    view: &wgpu::TextureView,
) -> (r: wgpu::RenderPass<'p>) {
    encoder.begin_render_pass(&wgpu::RenderPassDescriptor {
        label: None, depth_stencil_attachment: None, timestamp_writes: None,
        occlusion_query_set: None,
        color_attachments: &[Some(wgpu::RenderPassColorAttachment {
            view, resolve_target: None,
            ops: wgpu::Operations { load: wgpu::LoadOp::Clear(wgpu::Color::GREEN),
                store: wgpu::StoreOp::Store },
        })],
    })
}

/// Relies on wgpu's RenderPass::set_bind_group: binds the quad bind group to
/// slot 0 for the rest of the pass.
#[verifier::external_body]
pub(crate) fn pass_set_bind_group(pass: &mut wgpu::RenderPass<'_>, group: &wgpu::BindGroup) {
    pass.set_bind_group(0, group, &[]);
}

/// Relies on wgpu's RenderPass::set_pipeline: makes the given pipeline the
/// one the pass draws with.
#[verifier::external_body]
pub(crate) fn pass_set_pipeline(pass: &mut wgpu::RenderPass<'_>, pipeline: &wgpu::RenderPipeline) {
    pass.set_pipeline(pipeline);
}

/// Relies on wgpu's RenderPass::draw: records one draw of vertices 0..4 —
/// one 4-vertex strip per instance — over instances 0..`instances`, exactly
/// the given instance count.
#[verifier::external_body]
pub(crate) fn pass_draw_strip(pass: &mut wgpu::RenderPass<'_>, instances: u32) {
    pass.draw(0..4, 0..instances);
}

/// Relies on wgpu's CommandEncoder::finish: closes the encoder into a
/// command buffer holding what was recorded.
#[verifier::external_body]
pub(crate) fn finish_encoder(encoder: wgpu::CommandEncoder) -> (r: wgpu::CommandBuffer) {
    encoder.finish()
}

/// Relies on wgpu's Queue::submit: hands the one command buffer to the
/// device for execution, ordered after every buffer write scheduled on this
/// queue before the call.
#[verifier::external_body]
pub(crate) fn submit_commands(queue: &wgpu::Queue, commands: wgpu::CommandBuffer) {
    queue.submit(Some(commands));
}

/// Relies on wgpu's SurfaceTexture::present: schedules the acquired frame
/// for presentation on the window.
#[verifier::external_body]
pub(crate) fn present_frame(frame: wgpu::SurfaceTexture) {
    frame.present();
}

} // verus!
