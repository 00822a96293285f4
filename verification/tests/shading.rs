use quad_render::buffers::create_uniform_buffer;
use quad_render::color::{ClearOptions, Color};
use quad_render::frame::{quad_covers, setup, shade_pixel};
use quad_render::scalar::Fixed;
use quad_render::shader::{fragment_main, vertex_main, Position, TexCoord};

fn f(thousandths: i32) -> Fixed {
    Fixed::new(thousandths)
}

fn rgba(r: i32, g: i32, b: i32, a: i32) -> Color {
    Color::new(f(r), f(g), f(b), f(a))
}

#[test]
fn vertex_stage_flips_y_and_fixes_w() {
    // Position (0.5, 0.25, 0.0) comes out as (0.5, -0.25, 0.0, 1.0).
    let position = Position { x: f(500), y: f(250), z: f(0) };
    let texcoord = TexCoord { u: f(1000), v: f(0) };
    let (clip, varying) = vertex_main(position, texcoord);
    assert_eq!(clip.x, f(500));
    assert_eq!(clip.y, f(-250));
    assert_eq!(clip.z, f(0));
    assert_eq!(clip.w, f(1000));
    assert_eq!(varying, texcoord);
}

#[test]
fn y_flip_inverts_vertical_ordering() {
    // The corner at y = -1 was below the corner at y = 1; after the flip it
    // is above it.
    let low = Position { x: f(0), y: f(-1000), z: f(0) };
    let high = Position { x: f(0), y: f(1000), z: f(0) };
    let tc = TexCoord { u: f(0), v: f(0) };
    let (low_clip, _) = vertex_main(low, tc);
    let (high_clip, _) = vertex_main(high, tc);
    assert!(low.y.thousandths < high.y.thousandths);
    assert!(low_clip.y.thousandths > high_clip.y.thousandths);
}

#[test]
fn fragment_stage_outputs_the_uniform_unchanged() {
    // Round trip: the color written into the uniform block is the color the
    // fragment stage emits, whatever the texture coordinate says.
    let uniform = vec![f(250), f(500), f(750), f(1000)];
    let out = fragment_main(TexCoord { u: f(123), v: f(456) }, &uniform);
    assert_eq!(out, rgba(250, 500, 750, 1000));
    let out2 = fragment_main(TexCoord { u: f(0), v: f(0) }, &uniform);
    assert_eq!(out2, out);
}

#[test]
fn uniform_block_holds_exactly_four_scalars() {
    let state = setup();
    assert_eq!(state.uniform.data.len(), 4);
    assert_eq!(state.pipeline.uniform_components, 4);
}

#[test]
fn default_frame_is_red_inside_and_clear_color_outside() {
    // With the default uniform [1, 0, 0, 1] and the default clear color
    // (0.1, 0.2, 0.3, 1.0): every covered pixel is opaque red, every other
    // pixel keeps the clear color.
    let state = setup();
    assert_eq!(state.clear_options.color, Some(rgba(100, 200, 300, 1000)));

    let inside = [(0, 0), (1000, 1000), (-1000, 1000), (999, -999)];
    for (x, y) in inside {
        let c = shade_pixel(f(x), f(y), &state.uniform, state.clear_options);
        assert_eq!(c, Some(rgba(1000, 0, 0, 1000)));
    }

    let outside = [(1001, 0), (0, -1500), (-2000, 2000)];
    for (x, y) in outside {
        let c = shade_pixel(f(x), f(y), &state.uniform, state.clear_options);
        assert_eq!(c, Some(rgba(100, 200, 300, 1000)));
    }
}

#[test]
fn uncleared_pass_leaves_uncovered_pixels_empty() {
    let uniform = create_uniform_buffer(1, "u_data".to_string(), vec![f(0); 4]);
    let c = shade_pixel(f(5000), f(0), &uniform, ClearOptions::none());
    assert_eq!(c, None);
}

#[test]
fn quad_covers_its_corners_and_not_beyond() {
    assert!(quad_covers(f(1000), f(1000)));
    assert!(quad_covers(f(-1000), f(-1000)));
    assert!(!quad_covers(f(-1001), f(0)));
    assert!(!quad_covers(f(0), f(1001)));
}
