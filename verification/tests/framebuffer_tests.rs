use rust_global_offensive::color::Color;
use rust_global_offensive::framebuffer::Framebuffer;
use rust_global_offensive::helpers::draw_filled_circle;

fn pixel(fb: &Framebuffer, x: u32, y: u32) -> Color {
    let i = ((y * fb.width + x) * 4) as usize;
    let b = &fb.color_buffer;
    Color::new(b[i], b[i + 1], b[i + 2], b[i + 3])
}

fn painted(fb: &Framebuffer, color: Color) -> Vec<(u32, u32)> {
    let mut out = Vec::new();
    for y in 0..fb.height {
        for x in 0..fb.width {
            if pixel(fb, x, y) == color {
                out.push((x, y));
            }
        }
    }
    out
}

const RED: Color = Color { r: 255, g: 0, b: 0, a: 255 };

#[test]
fn new_framebuffer_is_opaque_black() {
    let fb = Framebuffer::new(4, 3);
    assert_eq!(fb.color_buffer.len(), 48);
    for chunk in fb.color_buffer.chunks(4) {
        assert_eq!(chunk, &[0, 0, 0, 255]);
    }
    assert_eq!(fb.background_color, Color::black());
    assert_eq!(fb.current_color, Color::white());
}

#[test]
fn set_pixel_color_writes_one_pixel() {
    let mut fb = Framebuffer::new(4, 3);
    fb.set_pixel_color(2, 1, RED);
    assert_eq!(pixel(&fb, 2, 1), RED);
    assert_eq!(painted(&fb, RED), vec![(2, 1)]);
    assert_eq!(&fb.color_buffer[24..28], &[255, 0, 0, 255]);
}

#[test]
fn writes_outside_are_ignored() {
    let mut fb = Framebuffer::new(4, 3);
    let before = fb.color_buffer.clone();
    fb.set_pixel_color(4, 0, RED);
    fb.set_pixel_color(0, 3, RED);
    fb.blend_pixel_color(9, 9, RED);
    assert_eq!(fb.color_buffer, before);
}

#[test]
fn set_pixel_uses_current_color() {
    let mut fb = Framebuffer::new(2, 2);
    fb.set_current_color(RED);
    fb.set_pixel(1, 1);
    assert_eq!(pixel(&fb, 1, 1), RED);
    assert_eq!(pixel(&fb, 0, 0), Color::black());
}

#[test]
fn clear_paints_background() {
    let mut fb = Framebuffer::new(3, 2);
    fb.set_pixel_color(1, 1, RED);
    let sky = Color::new(135, 206, 235, 255);
    fb.set_background_color(sky);
    fb.clear();
    assert_eq!(painted(&fb, sky).len(), 6);
    assert_eq!(fb.current_color, Color::white());
}

#[test]
fn blend_mixes_by_alpha() {
    let mut fb = Framebuffer::new(2, 1);
    fb.set_pixel_color(0, 0, Color::new(10, 20, 30, 40));
    fb.blend_pixel_color(0, 0, Color::new(200, 100, 50, 128));
    // (200*128 + 10*127)/255 = 105, (100*128 + 20*127)/255 = 60, (50*128 + 30*127)/255 = 40
    assert_eq!(pixel(&fb, 0, 0), Color::new(105, 60, 40, 255));
    assert_eq!(pixel(&fb, 1, 0), Color::black());
}

#[test]
fn blend_transparent_changes_nothing() {
    let mut fb = Framebuffer::new(2, 1);
    let before = fb.color_buffer.clone();
    fb.blend_pixel_color(0, 0, Color::new(200, 100, 50, 0));
    assert_eq!(fb.color_buffer, before);
}

#[test]
fn blend_opaque_is_set() {
    let mut blended = Framebuffer::new(2, 2);
    let mut set = Framebuffer::new(2, 2);
    let color = Color::new(1, 2, 3, 255);
    blended.blend_pixel_color(1, 0, color);
    set.set_pixel_color(1, 0, color);
    assert_eq!(blended.color_buffer, set.color_buffer);
}

/// Each column's half height, as the game computes it with an f32 square root.
fn half_heights(radius: i32) -> Vec<i32> {
    (-radius..=radius)
        .map(|dx| ((radius * radius - dx * dx) as f32).sqrt() as i32)
        .collect()
}

fn circle(fb: &mut Framebuffer, center_x: i32, center_y: i32, radius: i32, color: Color) {
    draw_filled_circle(fb, center_x, center_y, radius, &half_heights(radius), color);
}

#[test]
fn filled_circle_paints_the_disk() {
    let mut fb = Framebuffer::new(11, 11);
    circle(&mut fb, 5, 5, 2, RED);
    let cells = painted(&fb, RED);
    assert_eq!(cells.len(), 13);
    for (x, y) in cells {
        let (dx, dy) = (x as i32 - 5, y as i32 - 5);
        assert!(dx * dx + dy * dy <= 4);
    }
    assert_eq!(fb.current_color, RED);
}

#[test]
fn circle_columns_follow_the_half_heights() {
    let mut fb = Framebuffer::new(5, 7);
    draw_filled_circle(&mut fb, 2, 3, 1, &vec![0, 3, 1], RED);
    assert_eq!(
        painted(&fb, RED),
        vec![(2, 0), (2, 1), (2, 2), (3, 2), (1, 3), (2, 3), (3, 3), (2, 4), (3, 4), (2, 5), (2, 6)]
    );
}

#[test]
fn large_circle_keeps_float_rounding() {
    // 8192^2 - 1 rounds up to 2^26 in f32, whose root is 8192
    assert_eq!(half_heights(8192)[8193], 8192);
    let mut fb = Framebuffer::new(2, 8193);
    circle(&mut fb, 0, 0, 8192, RED);
    assert_eq!(pixel(&fb, 1, 8192), RED);
    assert_eq!(pixel(&fb, 0, 8192), RED);
}

#[test]
fn circle_of_radius_zero_is_one_pixel() {
    let mut fb = Framebuffer::new(3, 3);
    circle(&mut fb, 1, 2, 0, RED);
    assert_eq!(painted(&fb, RED), vec![(1, 2)]);
}

#[test]
fn circle_is_clipped_at_the_edges() {
    let mut fb = Framebuffer::new(4, 4);
    circle(&mut fb, 0, 0, 1, RED);
    assert_eq!(painted(&fb, RED), vec![(0, 0), (1, 0), (0, 1)]);
}

#[test]
fn negative_radius_draws_nothing() {
    let mut fb = Framebuffer::new(4, 4);
    draw_filled_circle(&mut fb, 2, 2, -3, &Vec::new(), RED);
    assert!(painted(&fb, RED).is_empty());
    assert_eq!(fb.current_color, Color::white());
}

#[test]
fn circle_off_screen_keeps_current_color() {
    let mut fb = Framebuffer::new(4, 4);
    circle(&mut fb, -5, -5, 3, RED);
    assert!(painted(&fb, RED).is_empty());
    assert_eq!(fb.current_color, Color::white());
    // off to the right: nothing visible, but its points have no negative coordinate
    circle(&mut fb, 50, 1, 1, RED);
    assert!(painted(&fb, RED).is_empty());
    assert_eq!(fb.current_color, RED);
}
