//! Tests of the individual components: surface configuration, adapter and
//! device negotiation, pipeline construction, and frame classification.

use triangle_demo::frame::AcquireFailure;
use triangle_demo::graphics::{GraphicsContext, PowerPreference, SetupError};
use triangle_demo::pipeline::{PipelineBuilder, PrimitiveTopology};
use triangle_demo::surface::{
    AlphaMode, PixelFormat, PresentMode, SurfaceConfig, SurfaceManager, DESIRED_FRAME_LATENCY,
};

#[test]
fn surface_config_has_fixed_parameters() {
    let config = SurfaceConfig::new(1280, 720);
    assert_eq!(config.format, PixelFormat::Bgra8UnormSrgb);
    assert_eq!(config.present_mode, PresentMode::Fifo);
    assert_eq!(config.alpha_mode, AlphaMode::Auto);
    assert_eq!(config.frame_latency, DESIRED_FRAME_LATENCY);
    assert_eq!(config.view_formats, vec![PixelFormat::Bgra8Unorm]);
    assert_eq!(config.width, 1280);
    assert_eq!(config.height, 720);
}

#[test]
fn surface_config_clamps_each_zero_dimension() {
    let config = SurfaceConfig::new(0, 0);
    assert_eq!(config.width, 1);
    assert_eq!(config.height, 1);
    let config = SurfaceConfig::new(0, 7);
    assert_eq!(config.width, 1);
    assert_eq!(config.height, 7);
    let config = SurfaceConfig::new(7, 0);
    assert_eq!(config.width, 7);
    assert_eq!(config.height, 1);
}

#[test]
fn surface_config_keeps_largest_dimensions() {
    let config = SurfaceConfig::new(u32::MAX, u32::MAX);
    assert_eq!(config.width, u32::MAX);
    assert_eq!(config.height, u32::MAX);
}

#[test]
fn surface_manager_replaces_configuration_on_reconfigure() {
    let mut manager = SurfaceManager::configure(100, 50);
    assert_eq!(manager.config().width, 100);
    assert_eq!(manager.config().height, 50);
    manager.reconfigure(0, 400);
    assert_eq!(manager.config().width, 1);
    assert_eq!(manager.config().height, 400);
    assert_eq!(manager.config().format, PixelFormat::Bgra8UnormSrgb);
}

#[test]
fn adapter_request_prefers_high_performance_without_fallback() {
    let request = GraphicsContext::adapter_request();
    assert_eq!(request.power_preference, PowerPreference::HighPerformance);
    assert!(!request.force_fallback_adapter);
    assert!(request.compatible_with_surface);
}

#[test]
fn missing_adapter_is_adapter_not_found() {
    assert_eq!(
        GraphicsContext::create(false, false),
        Err(SetupError::AdapterNotFound)
    );
    assert_eq!(
        GraphicsContext::create(false, true),
        Err(SetupError::AdapterNotFound)
    );
}

#[test]
fn failed_device_negotiation_is_device_creation_failed() {
    assert_eq!(
        GraphicsContext::create(true, false),
        Err(SetupError::DeviceCreationFailed)
    );
}

#[test]
fn successful_negotiation_yields_a_context() {
    let context = GraphicsContext::create(true, true).unwrap();
    assert!(context.default_features_and_limits);
}

#[test]
fn pipeline_captures_the_surface_format() {
    let pipeline = PipelineBuilder::build(PixelFormat::Bgra8UnormSrgb);
    assert_eq!(pipeline.output_format, PixelFormat::Bgra8UnormSrgb);
    let pipeline = PipelineBuilder::build(PixelFormat::Bgra8Unorm);
    assert_eq!(pipeline.output_format, PixelFormat::Bgra8Unorm);
}

#[test]
fn pipeline_has_fixed_function_shape() {
    let pipeline = PipelineBuilder::build(PixelFormat::Bgra8UnormSrgb);
    assert_eq!(pipeline.topology, PrimitiveTopology::TriangleList);
    assert_eq!(pipeline.vertex_buffer_count, 0);
    assert_eq!(pipeline.bind_group_count, 0);
    assert!(!pipeline.has_depth_stencil);
    assert_eq!(pipeline.sample_count, 1);
}

#[test]
fn shader_entry_points_are_named() {
    assert_eq!(PipelineBuilder::vertex_entry_point(), "vs_main");
    assert_eq!(PipelineBuilder::fragment_entry_point(), "fs_main");
}

#[test]
fn acquire_failures_classify_into_recoverable_and_fatal() {
    assert!(AcquireFailure::Timeout.recoverable());
    assert!(AcquireFailure::Outdated.recoverable());
    assert!(!AcquireFailure::Lost.recoverable());
    assert!(!AcquireFailure::OutOfMemory.recoverable());
}
