use instanced_quads::context::{
    AdapterRequest, Backends, ContextState, DeviceRequest, GraphicsContext, PowerPreference,
    Request,
};
use instanced_quads::error::{exit_status, FrameError, InitError, Outcome};
use instanced_quads::geometry::GeometryStore;
use instanced_quads::instance::InstanceStore;
use instanced_quads::pipeline::{
    build_pipeline, BlendDescriptor, BlendFactor, BlendOperation, ColorState, CullMode,
    FixedState, FrontFace, IndexFormat, PrimitiveTopology, RasterizationState,
};
use instanced_quads::shader::{entry_point, shader_words, SPIRV_MAGIC};
use instanced_quads::surface::{create_swap_chain, TextureFormat};
use instanced_quads::uniforms::{FrameUniforms, Uniforms};

fn little_endian_blob(words: &[u32]) -> Vec<u8> {
    let mut blob = Vec::new();
    for w in words {
        blob.extend_from_slice(&w.to_le_bytes());
    }
    blob
}

fn big_endian_blob(words: &[u32]) -> Vec<u8> {
    let mut blob = Vec::new();
    for w in words {
        blob.extend_from_slice(&w.to_be_bytes());
    }
    blob
}

#[test]
fn context_asks_for_adapter_then_device() {
    let mut context = GraphicsContext::new();
    assert_eq!(context.state(), ContextState::NeedAdapter);
    assert_eq!(
        context.pending(),
        Some(Request::Adapter(AdapterRequest {
            power_preference: PowerPreference::Default,
            backends: Backends { vulkan: true, gl: false, metal: true, dx12: true, dx11: false },
        }))
    );
    assert_eq!(context.resolve(true), Ok(()));
    assert_eq!(context.state(), ContextState::NeedDevice);
    assert_eq!(
        context.pending(),
        Some(Request::Device(DeviceRequest { anisotropic_filtering: false }))
    );
    assert_eq!(context.resolve(true), Ok(()));
    assert_eq!(context.state(), ContextState::Ready);
    assert_eq!(context.pending(), None);
    assert_eq!(context.resolve(false), Ok(()));
    assert_eq!(context.state(), ContextState::Ready);
}

#[test]
fn missing_adapter_is_fatal_and_not_retried() {
    let mut context = GraphicsContext::new();
    assert_eq!(context.resolve(false), Err(InitError::NoAdapter));
    assert_eq!(context.state(), ContextState::Failed(InitError::NoAdapter));
    assert_eq!(context.pending(), None);
    assert_eq!(context.resolve(true), Err(InitError::NoAdapter));
    assert_eq!(context.state(), ContextState::Failed(InitError::NoAdapter));
}

#[test]
fn missing_device_is_fatal_and_not_retried() {
    let mut context = GraphicsContext::new();
    assert_eq!(context.resolve(true), Ok(()));
    assert_eq!(context.resolve(false), Err(InitError::NoDevice));
    assert_eq!(context.pending(), None);
    assert_eq!(context.resolve(true), Err(InitError::NoDevice));
}

#[test]
fn exit_status_names_each_outcome() {
    assert_eq!(exit_status(Outcome::Quit), 0);
    assert_eq!(exit_status(Outcome::Init(InitError::NoAdapter)), 10);
    assert_eq!(exit_status(Outcome::Init(InitError::NoDevice)), 11);
    assert_eq!(exit_status(Outcome::Init(InitError::ShaderModule)), 12);
    assert_eq!(exit_status(Outcome::Init(InitError::Pipeline)), 13);
    assert_eq!(exit_status(Outcome::Frame(FrameError::SurfaceLost)), 20);
    assert_eq!(exit_status(Outcome::Frame(FrameError::ResizeFailed)), 21);
}

#[test]
fn shader_words_reads_a_little_endian_binary() {
    let words = [SPIRV_MAGIC, 0x0001_0000, 0xDEAD_BEEF, 0, 7];
    assert_eq!(shader_words(&little_endian_blob(&words)), Ok(words.to_vec()));
}

#[test]
fn shader_words_reads_a_big_endian_binary() {
    let words = [SPIRV_MAGIC, 0x0001_0000, 0xDEAD_BEEF, 0, 7];
    assert_eq!(shader_words(&big_endian_blob(&words)), Ok(words.to_vec()));
}

#[test]
fn shader_words_reads_a_binary_of_one_word() {
    assert_eq!(shader_words(&vec![0x03, 0x02, 0x23, 0x07]), Ok(vec![SPIRV_MAGIC]));
    assert_eq!(shader_words(&vec![0x07, 0x23, 0x02, 0x03]), Ok(vec![SPIRV_MAGIC]));
}

#[test]
fn shader_words_refuses_what_is_no_binary() {
    assert_eq!(shader_words(&vec![]), Err(InitError::ShaderModule));
    assert_eq!(shader_words(&vec![0x03, 0x02, 0x23]), Err(InitError::ShaderModule));
    assert_eq!(
        shader_words(&vec![0x03, 0x02, 0x23, 0x07, 0x00]),
        Err(InitError::ShaderModule)
    );
    assert_eq!(shader_words(&vec![0x03, 0x02, 0x23, 0x08]), Err(InitError::ShaderModule));
    assert_eq!(shader_words(&vec![0x07, 0x23, 0x03, 0x02]), Err(InitError::ShaderModule));
    assert_eq!(shader_words(&vec![0, 0, 0, 0, 3, 2, 0x23, 7]), Err(InitError::ShaderModule));
}

#[test]
fn entry_point_is_main() {
    assert_eq!(entry_point(), "main");
}

#[test]
fn pipeline_has_the_fixed_settings() {
    let vertex = little_endian_blob(&[SPIRV_MAGIC, 1, 2, 3]);
    let fragment = big_endian_blob(&[SPIRV_MAGIC, 4, 5]);
    let geometry = GeometryStore::new();
    let instances = InstanceStore::fixed();
    let uniforms = FrameUniforms::new(Uniforms::fixed());
    let pipeline = build_pipeline(
        &vertex,
        &fragment,
        uniforms.layout_entries(),
        geometry.layout(),
        instances.layout(),
    )
    .unwrap();
    assert_eq!(*pipeline.vertex_shader(), vec![SPIRV_MAGIC, 1, 2, 3]);
    assert_eq!(*pipeline.fragment_shader(), vec![SPIRV_MAGIC, 4, 5]);
    assert_eq!(*pipeline.bind_group_layout(), uniforms.layout_entries());
    assert_eq!(*pipeline.vertex_buffers(), vec![geometry.layout(), instances.layout()]);
    let replace = BlendDescriptor {
        src_factor: BlendFactor::One,
        dst_factor: BlendFactor::Zero,
        operation: BlendOperation::Add,
    };
    assert_eq!(
        pipeline.fixed(),
        FixedState {
            primitive_topology: PrimitiveTopology::TriangleList,
            rasterization: RasterizationState {
                front_face: FrontFace::Ccw,
                cull_mode: CullMode::Off,
                depth_bias: 0,
                depth_bias_slope_scale: 0.0f32.to_bits(),
                depth_bias_clamp: 0.0f32.to_bits(),
            },
            color: ColorState {
                format: TextureFormat::Bgra8UnormSrgb,
                color_blend: replace,
                alpha_blend: replace,
                write_all: true,
            },
            depth_stencil: false,
            index_format: IndexFormat::Uint16,
            sample_count: 1,
            sample_mask: !0,
            alpha_to_coverage_enabled: false,
        }
    );
}

#[test]
fn pipeline_fits_the_surface_of_every_size() {
    let blob = little_endian_blob(&[SPIRV_MAGIC]);
    let pipeline = build_pipeline(
        &blob,
        &blob,
        FrameUniforms::new(Uniforms::fixed()).layout_entries(),
        GeometryStore::new().layout(),
        InstanceStore::fixed().layout(),
    )
    .unwrap();
    for (w, h) in [(640u32, 480u32), (800, 600), (1, 1), (u32::MAX, u32::MAX)] {
        assert!(pipeline.compatible_with(create_swap_chain(w, h)));
    }
    let mut other = create_swap_chain(640, 480);
    other.format = TextureFormat::Rgba8Unorm;
    assert!(!pipeline.compatible_with(other));
}

#[test]
fn pipeline_is_refused_for_a_bad_shader() {
    let good = little_endian_blob(&[SPIRV_MAGIC, 1]);
    let bad = vec![1u8, 2, 3];
    let layouts = || {
        (
            FrameUniforms::new(Uniforms::fixed()).layout_entries(),
            GeometryStore::new().layout(),
            InstanceStore::fixed().layout(),
        )
    };
    let (b, v, i) = layouts();
    assert_eq!(build_pipeline(&bad, &good, b, v, i), Err(InitError::ShaderModule));
    let (b, v, i) = layouts();
    assert_eq!(build_pipeline(&good, &bad, b, v, i), Err(InitError::ShaderModule));
    let (b, v, i) = layouts();
    assert!(build_pipeline(&good, &good, b, v, i).is_ok());
}
