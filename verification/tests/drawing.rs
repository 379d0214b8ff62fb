use vis_runtime::commands::{
    background_color, create_dynamicstate, record_commands, Command, Rgba, Viewport, VERTEX_COUNT,
};
use vis_runtime::shaders::{build_shaders, ShaderFault};
use vis_runtime::swapchain::Extent;

#[test]
fn background_is_opaque_blue() {
    assert_eq!(background_color(), Rgba { red: 0, green: 0, blue: 255, alpha: 255 });
}

#[test]
fn viewport_covers_the_surface() {
    let viewport = create_dynamicstate(Extent { width: 800, height: 600 });
    assert_eq!(
        viewport,
        Viewport {
            left: 0,
            top: 0,
            dimensions: Extent { width: 800, height: 600 },
            min_depth: 0,
            max_depth: 1,
        }
    );
}

#[test]
fn a_frame_is_three_commands() {
    let viewport = create_dynamicstate(Extent { width: 64, height: 32 });
    let commands = record_commands(2, viewport);
    assert_eq!(
        commands,
        vec![
            Command::BeginRenderPass {
                framebuffer: 2,
                clear: Rgba { red: 0, green: 0, blue: 255, alpha: 255 },
            },
            Command::Draw { viewport, vertices: 3 },
            Command::EndRenderPass,
        ]
    );
    assert_eq!(VERTEX_COUNT, 3);
}

#[test]
fn shaders_come_as_fragment_then_vertex() {
    let fragment: Result<&str, u32> = Ok("fragment");
    let vertex: Result<u8, u32> = Ok(7);
    let shaders = build_shaders(fragment, vertex);
    assert!(matches!(shaders, Ok(("fragment", 7))));
}

#[test]
fn failed_fragment_stage_is_named() {
    let fragment: Result<&str, u32> = Err(1);
    let vertex: Result<u8, u32> = Ok(7);
    assert!(matches!(build_shaders(fragment, vertex), Err(ShaderFault::Fragment(1))));
}

#[test]
fn failed_vertex_stage_is_named() {
    let fragment: Result<&str, u32> = Ok("fragment");
    let vertex: Result<u8, u32> = Err(2);
    assert!(matches!(build_shaders(fragment, vertex), Err(ShaderFault::Vertex(2))));
}

#[test]
fn fragment_stage_is_named_where_both_failed() {
    let fragment: Result<&str, u32> = Err(1);
    let vertex: Result<u8, u32> = Err(2);
    assert!(matches!(build_shaders(fragment, vertex), Err(ShaderFault::Fragment(1))));
}
