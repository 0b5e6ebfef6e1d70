use shaderx_wgpu::gfx::gfx_state::{
    clock_since_epoch, Color, CommonUniformBuffer, Draw, Frame, GfxState, Limits, PhysicalSize, RenderPass,
    SurfaceCapabilities, SurfaceConfiguration, SurfaceFormat, COMMON_BUFFER_BINDING,
    COMMON_BUFFER_SIZE, MAXIMUM_FRAME_LATENCY,
};
use shaderx_wgpu::gfx::pipeline::{Pipeline, PipelineCreateDesc};
use shaderx_wgpu::gfx::uniform_buffer::UniformBuffer;

const SECOND: u128 = 1_000_000_000;
const CREATED: u128 = 1_700_000_000 * SECOND;
const RED: Color = Color { r: 255, g: 0, b: 0, a: 255 };
const TRIANGLE: Draw = Draw { first_vertex: 0, end_vertex: 3, first_instance: 0, end_instance: 1 };
const SOURCE: &str = "@vertex fn vs_main() {} @fragment fn fs_main() {}";

fn capabilities(srgb: &[bool]) -> SurfaceCapabilities {
    SurfaceCapabilities {
        formats: srgb.iter().map(|&srgb| SurfaceFormat { srgb }).collect(),
        present_modes: 2,
        alpha_modes: 1,
    }
}

fn fresh() -> GfxState {
    GfxState::new_at(
        PhysicalSize { width: 800, height: 600 },
        &capabilities(&[false, true, true]),
        Limits { max_texture_dimension_2d: 2048 },
        CREATED,
    )
}

fn configured() -> GfxState {
    let mut gfx = fresh();
    gfx.resize(PhysicalSize { width: 800, height: 600 });
    gfx
}

fn pass(frame: Frame) -> RenderPass {
    match frame {
        Frame::Rendered(pass) => pass,
        Frame::Skipped => panic!("the frame was skipped"),
    }
}

#[test]
fn preferred_format_is_the_first_srgb() {
    assert_eq!(capabilities(&[false, true, true]).preferred_format(), 1);
    assert_eq!(capabilities(&[true, false]).preferred_format(), 0);
    assert_eq!(capabilities(&[false, false, false, true]).preferred_format(), 3);
}

#[test]
fn preferred_format_falls_back_to_the_first() {
    assert_eq!(capabilities(&[false, false, false]).preferred_format(), 0);
    assert_eq!(capabilities(&[false]).preferred_format(), 0);
}

#[test]
fn new_state_is_unconfigured_and_has_no_pipeline() {
    let gfx = fresh();
    assert!(!gfx.surface_configured());
    assert!(gfx.pipeline().is_none());
    assert_eq!(gfx.size(), PhysicalSize { width: 800, height: 600 });
    assert_eq!(gfx.limits(), Limits { max_texture_dimension_2d: 2048 });
    assert_eq!(gfx.last_frame_time(), CREATED);
    assert_eq!(gfx.common_buffer_data(), CommonUniformBuffer { time: 0, delta_time: 0 });
    assert_eq!(
        gfx.config(),
        SurfaceConfiguration {
            format: 1,
            width: 800,
            height: 600,
            present_mode: 0,
            alpha_mode: 0,
            desired_maximum_frame_latency: 2,
        }
    );
}

#[test]
fn new_state_holds_the_common_record_in_slot_zero() {
    let gfx = fresh();
    assert_eq!(COMMON_BUFFER_SIZE, 16);
    assert_eq!(COMMON_BUFFER_BINDING, 0);
    assert_eq!(MAXIMUM_FRAME_LATENCY, 2);
    assert_eq!(
        gfx.common_buffer(),
        UniformBuffer {
            contents: CommonUniformBuffer { time: 0, delta_time: 0 },
            size: 16,
            binding: 0,
        }
    );
}

#[test]
fn new_state_keeps_an_unclamped_window_size() {
    let gfx = GfxState::new_at(
        PhysicalSize { width: 5000, height: 0 },
        &capabilities(&[true]),
        Limits { max_texture_dimension_2d: 2048 },
        0,
    );
    assert_eq!(gfx.config().width, 5000);
    assert_eq!(gfx.config().height, 0);
    assert!(!gfx.surface_configured());
}

#[test]
fn new_reads_the_clock() {
    let gfx = GfxState::new(
        PhysicalSize { width: 10, height: 10 },
        &capabilities(&[true]),
        Limits { max_texture_dimension_2d: 2048 },
    );
    // Any clock of this century is far past the year 2001.
    assert!(gfx.last_frame_time() > 1_000_000_000 * SECOND);
    assert!(!gfx.surface_configured());
    assert_eq!(gfx.common_buffer_data(), CommonUniformBuffer { time: 0, delta_time: 0 });
}

#[test]
fn resize_with_zero_width_is_ignored() {
    let mut gfx = fresh();
    let before = gfx.config();
    assert_eq!(gfx.resize(PhysicalSize { width: 0, height: 480 }), None);
    assert!(!gfx.surface_configured());
    assert_eq!(gfx.config(), before);
    assert_eq!(gfx.size(), PhysicalSize { width: 800, height: 600 });
}

#[test]
fn resize_with_zero_height_is_ignored() {
    let mut gfx = fresh();
    let before = gfx.config();
    assert_eq!(gfx.resize(PhysicalSize { width: 640, height: 0 }), None);
    assert_eq!(gfx.resize(PhysicalSize { width: 0, height: 0 }), None);
    assert!(!gfx.surface_configured());
    assert_eq!(gfx.config(), before);
}

#[test]
fn resize_to_zero_keeps_a_configured_surface_configured() {
    let mut gfx = configured();
    let before = gfx.config();
    assert_eq!(gfx.resize(PhysicalSize { width: 0, height: 100 }), None);
    assert!(gfx.surface_configured());
    assert_eq!(gfx.config(), before);
    assert_eq!(gfx.size(), PhysicalSize { width: 800, height: 600 });
}

#[test]
fn resize_configures_the_surface() {
    let mut gfx = fresh();
    let applied = gfx.resize(PhysicalSize { width: 1024, height: 768 });
    let expected = SurfaceConfiguration {
        format: 1,
        width: 1024,
        height: 768,
        present_mode: 0,
        alpha_mode: 0,
        desired_maximum_frame_latency: 2,
    };
    assert_eq!(applied, Some(expected));
    assert_eq!(gfx.config(), expected);
    assert!(gfx.surface_configured());
    assert_eq!(gfx.size(), PhysicalSize { width: 1024, height: 768 });
}

#[test]
fn resize_clamps_each_side_to_the_limit() {
    let mut gfx = fresh();
    let applied = gfx.resize(PhysicalSize { width: 4000, height: 100 }).unwrap();
    assert_eq!((applied.width, applied.height), (2048, 100));
    let applied = gfx.resize(PhysicalSize { width: 100, height: 2049 }).unwrap();
    assert_eq!((applied.width, applied.height), (100, 2048));
    let applied = gfx.resize(PhysicalSize { width: u32::MAX, height: u32::MAX }).unwrap();
    assert_eq!((applied.width, applied.height), (2048, 2048));
    // The size asked for is remembered as it was.
    assert_eq!(gfx.size(), PhysicalSize { width: u32::MAX, height: u32::MAX });
}

#[test]
fn resize_at_the_limit_is_not_clamped() {
    let mut gfx = fresh();
    let applied = gfx.resize(PhysicalSize { width: 2048, height: 2047 }).unwrap();
    assert_eq!((applied.width, applied.height), (2048, 2047));
    let applied = gfx.resize(PhysicalSize { width: 1, height: 1 }).unwrap();
    assert_eq!((applied.width, applied.height), (1, 1));
}

#[test]
fn resize_twice_with_one_size_gives_one_configuration() {
    let mut gfx = fresh();
    let size = PhysicalSize { width: 300, height: 200 };
    let first = gfx.resize(size);
    let second = gfx.resize(size);
    assert_eq!(first, second);
    assert_eq!(gfx.size(), size);
    assert!(gfx.surface_configured());
}

#[test]
fn render_before_configure_is_skipped() {
    let mut gfx = fresh();
    assert_eq!(gfx.render_at(CREATED + SECOND), Frame::Skipped);
    assert_eq!(gfx.last_frame_time(), CREATED);
    assert_eq!(gfx.common_buffer_data(), CommonUniformBuffer { time: 0, delta_time: 0 });
    assert_eq!(gfx.render(), Frame::Skipped);
    assert_eq!(gfx.last_frame_time(), CREATED);
}

#[test]
fn render_before_configure_is_skipped_even_with_a_pipeline() {
    let mut gfx = fresh();
    gfx.update_shader(SOURCE);
    gfx.resize(PhysicalSize { width: 0, height: 10 });
    assert_eq!(gfx.render_at(CREATED + SECOND), Frame::Skipped);
    assert_eq!(gfx.last_frame_time(), CREATED);
}

#[test]
fn render_without_pipeline_only_clears() {
    let mut gfx = configured();
    let frame = gfx.render_at(CREATED + SECOND);
    assert_eq!(
        frame,
        Frame::Rendered(RenderPass {
            uniforms: CommonUniformBuffer { time: SECOND, delta_time: SECOND },
            clear_color: RED,
            bind_group: 0,
            draw: None,
        })
    );
}

#[test]
fn render_with_pipeline_draws_one_triangle() {
    let mut gfx = configured();
    gfx.update_shader(SOURCE);
    let frame = gfx.render_at(CREATED + 3 * SECOND);
    assert_eq!(
        frame,
        Frame::Rendered(RenderPass {
            uniforms: CommonUniformBuffer { time: 3 * SECOND, delta_time: 3 * SECOND },
            clear_color: RED,
            bind_group: 0,
            draw: Some(TRIANGLE),
        })
    );
}

#[test]
fn render_accumulates_time_and_reports_the_delta() {
    let mut gfx = configured();
    let first = pass(gfx.render_at(CREATED + 16_000_000));
    assert_eq!(first.uniforms, CommonUniformBuffer { time: 16_000_000, delta_time: 16_000_000 });
    let second = pass(gfx.render_at(CREATED + 49_000_000));
    assert_eq!(second.uniforms, CommonUniformBuffer { time: 49_000_000, delta_time: 33_000_000 });
    let third = pass(gfx.render_at(CREATED + 49_000_001));
    assert_eq!(third.uniforms, CommonUniformBuffer { time: 49_000_001, delta_time: 1 });
    assert_eq!(gfx.last_frame_time(), CREATED + 49_000_001);
    assert_eq!(gfx.common_buffer_data(), third.uniforms);
    assert_eq!(gfx.common_buffer().contents, third.uniforms);
}

#[test]
fn render_at_the_same_clock_has_zero_delta() {
    let mut gfx = configured();
    pass(gfx.render_at(CREATED + SECOND));
    let again = pass(gfx.render_at(CREATED + SECOND));
    assert_eq!(again.uniforms, CommonUniformBuffer { time: SECOND, delta_time: 0 });
}

#[test]
fn render_with_a_clock_that_stepped_back_has_zero_delta() {
    let mut gfx = configured();
    pass(gfx.render_at(CREATED + 5 * SECOND));
    let back = pass(gfx.render_at(CREATED + 2 * SECOND));
    assert_eq!(back.uniforms, CommonUniformBuffer { time: 5 * SECOND, delta_time: 0 });
    assert_eq!(gfx.last_frame_time(), CREATED + 5 * SECOND);
    let on = pass(gfx.render_at(CREATED + 6 * SECOND));
    assert_eq!(on.uniforms, CommonUniformBuffer { time: 6 * SECOND, delta_time: SECOND });
    let before_creation = pass(gfx.render_at(0));
    assert_eq!(before_creation.uniforms, CommonUniformBuffer { time: 6 * SECOND, delta_time: 0 });
}

#[test]
fn skipped_frames_do_not_move_the_frame_clock() {
    let mut gfx = fresh();
    assert_eq!(gfx.render_at(CREATED + 10 * SECOND), Frame::Skipped);
    gfx.resize(PhysicalSize { width: 10, height: 10 });
    let first = pass(gfx.render_at(CREATED + 11 * SECOND));
    // The first frame counts from the creation of the state.
    assert_eq!(first.uniforms, CommonUniformBuffer { time: 11 * SECOND, delta_time: 11 * SECOND });
    assert_eq!(gfx.last_frame_time() - CREATED, first.uniforms.time);
}

#[test]
fn render_reads_a_clock_that_does_not_run_back() {
    let mut gfx = GfxState::new(
        PhysicalSize { width: 10, height: 10 },
        &capabilities(&[true]),
        Limits { max_texture_dimension_2d: 2048 },
    );
    gfx.resize(PhysicalSize { width: 10, height: 10 });
    let created = gfx.last_frame_time();
    let first = pass(gfx.render());
    let after_first = gfx.last_frame_time();
    let second = pass(gfx.render());
    let after_second = gfx.last_frame_time();
    assert!(created <= after_first && after_first <= after_second);
    assert_eq!(first.uniforms.time, after_first - created);
    assert_eq!(first.uniforms.delta_time, after_first - created);
    assert_eq!(second.uniforms.delta_time, after_second - after_first);
    assert_eq!(second.uniforms.time, after_second - created);
    assert_eq!(first.draw, None);
    assert_eq!(first.clear_color, RED);
}

#[test]
fn render_leaves_pipeline_and_configuration_alone() {
    let mut gfx = configured();
    gfx.update_shader(SOURCE);
    let config = gfx.config();
    let pipeline = gfx.pipeline().cloned();
    gfx.render_at(CREATED + SECOND);
    assert_eq!(gfx.config(), config);
    assert_eq!(gfx.pipeline().cloned(), pipeline);
    assert!(gfx.surface_configured());
}

#[test]
fn update_shader_builds_the_pipeline_of_the_source() {
    let mut gfx = fresh();
    gfx.update_shader(SOURCE);
    let expected = Pipeline::new(&PipelineCreateDesc {
        format: 1,
        shader_source: SOURCE,
        bind_group_layouts: &vec![0],
    });
    assert_eq!(gfx.pipeline(), Some(&expected));
}

#[test]
fn update_shader_replaces_the_pipeline_whole() {
    let mut gfx = configured();
    gfx.update_shader("first");
    gfx.update_shader("second");
    let pipeline = gfx.pipeline().unwrap();
    assert_eq!(pipeline.shader_source, "second");
    assert_eq!(
        pipeline,
        &Pipeline::new(&PipelineCreateDesc {
            format: 1,
            shader_source: "second",
            bind_group_layouts: &vec![0],
        })
    );
}

#[test]
fn update_shader_changes_nothing_else() {
    let mut gfx = configured();
    gfx.render_at(CREATED + SECOND);
    let config = gfx.config();
    let size = gfx.size();
    let data = gfx.common_buffer_data();
    gfx.update_shader(SOURCE);
    assert_eq!(gfx.config(), config);
    assert_eq!(gfx.size(), size);
    assert_eq!(gfx.common_buffer_data(), data);
    assert_eq!(gfx.last_frame_time(), CREATED + SECOND);
    assert!(gfx.surface_configured());
}

#[test]
fn resize_keeps_the_pipeline() {
    let mut gfx = fresh();
    gfx.update_shader(SOURCE);
    gfx.resize(PhysicalSize { width: 64, height: 64 });
    assert_eq!(gfx.pipeline().unwrap().shader_source, SOURCE);
    assert_eq!(pass(gfx.render_at(CREATED)).draw, Some(TRIANGLE));
}

#[test]
fn clock_before_the_epoch_counts_as_the_epoch() {
    assert_eq!(clock_since_epoch(None), 0);
    assert_eq!(clock_since_epoch(Some(0)), 0);
    assert_eq!(clock_since_epoch(Some(CREATED)), CREATED);
    assert_eq!(clock_since_epoch(Some(u128::MAX)), u128::MAX);
}
