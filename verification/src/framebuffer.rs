use vstd::prelude::*;

use crate::color::{blended, Color};

verus! {

/// The color of pixel number `p` of an RGBA byte buffer (four bytes a pixel).
pub open spec fn color_at(buffer: Seq<u8>, p: int) -> Color {
    Color { r: buffer[4 * p], g: buffer[4 * p + 1], b: buffer[4 * p + 2], a: buffer[4 * p + 3] }
}

/// A pixel (`x`, `y`) of a `width` x `height` image has a number below
/// `width * height`: its row times the width, plus its column.
pub proof fn lemma_pixel_number(x: int, y: int, width: int, height: int)
    requires
        0 <= x < width,
        0 <= y < height,
    ensures
        0 <= y * width + x < width * height,
{
    assert(0 <= y * width + x < width * height) by (nonlinear_arith)
        requires
            0 <= x < width,
            0 <= y < height,
    ;
}

/// Two pixels of a row-major image have the same number only if they are
/// the same pixel.
pub proof fn lemma_pixel_number_unique(x1: int, y1: int, x2: int, y2: int, width: int)
    requires
        0 <= x1 < width,
        0 <= x2 < width,
        0 <= y1,
        0 <= y2,
        y1 * width + x1 == y2 * width + x2,
    ensures
        x1 == x2,
        y1 == y2,
{
    if y1 < y2 {
        assert(y1 * width + width <= y2 * width) by (nonlinear_arith)
            requires
                y1 < y2,
                0 <= width,
        ;
    } else if y2 < y1 {
        assert(y2 * width + width <= y1 * width) by (nonlinear_arith)
            requires
                y2 < y1,
                0 <= width,
        ;
    }
}

/// A software framebuffer: `width` x `height` RGBA pixels in row-major order
/// (four bytes a pixel: red, green, blue, alpha),
/// with the color that `clear` paints and the color that `set_pixel` paints.
pub struct Framebuffer {
    pub width: u32,
    pub height: u32,
    pub color_buffer: Vec<u8>,
    pub background_color: Color,
    pub current_color: Color,
}

impl Framebuffer {
    /// The buffer holds exactly the four bytes of each pixel.
    pub open spec fn wf(&self) -> bool {
        self.color_buffer@.len() == self.width * self.height * 4
    }

    pub open spec fn in_bounds(&self, x: int, y: int) -> bool {
        0 <= x < self.width && 0 <= y < self.height
    }

    /// The color of pixel (`x`, `y`).
    pub open spec fn pixel(&self, x: int, y: int) -> Color {
        color_at(self.color_buffer@, y * self.width + x)
    }

    /// A framebuffer of the given size whose pixels are all opaque black; it
    /// clears to black and draws in white.
    pub fn new(width: u32, height: u32) -> (fb: Framebuffer)
        requires
            width * height * 4 <= usize::MAX,
        ensures
            fb.wf(),
            fb.width == width,
            fb.height == height,
            fb.background_color == Color::black(),
            fb.current_color == Color::white(),
            forall|x: int, y: int| fb.in_bounds(x, y) ==> #[trigger] fb.pixel(x, y) == Color::black(),
    {
        proof {
            assert(width * height <= width * height * 4);
        }
        let pixels = (width as usize) * (height as usize);
        let mut color_buffer: Vec<u8> = Vec::new();
        let mut p: usize = 0;
        while p < pixels
            invariant
                p <= pixels,
                pixels == width * height,
                pixels * 4 <= usize::MAX,
                color_buffer@.len() == p * 4,
                forall|q: int| 0 <= q < p ==> #[trigger] color_at(color_buffer@, q) == Color::black(),
            decreases pixels - p,
        {
            let ghost before = color_buffer@;
            color_buffer.push(0);
            color_buffer.push(0);
            color_buffer.push(0);
            color_buffer.push(255);
            assert(color_at(color_buffer@, p as int) == Color::black());
            assert forall|q: int| 0 <= q < p implies #[trigger] color_at(color_buffer@, q)
                == color_at(before, q) by {
                assert(color_buffer@[4 * q] == before[4 * q]);
                assert(color_buffer@[4 * q + 1] == before[4 * q + 1]);
                assert(color_buffer@[4 * q + 2] == before[4 * q + 2]);
                assert(color_buffer@[4 * q + 3] == before[4 * q + 3]);
            }
            p += 1;
        }
        let fb = Framebuffer {
            width,
            height,
            color_buffer,
            background_color: Color::black(),
            current_color: Color::white(),
        };
        assert forall|x: int, y: int| fb.in_bounds(x, y) implies #[trigger] fb.pixel(x, y)
            == Color::black() by {
            lemma_pixel_number(x, y, width as int, height as int);
        }
        fb
    }

    /// Writes `color` as pixel number `p` of the buffer, leaving every other
    /// pixel as it was.
    fn write_pixel(&mut self, p: usize, color: Color)
        requires
            4 * p + 4 <= old(self).color_buffer@.len(),
        ensures
            final(self).color_buffer@.len() == old(self).color_buffer@.len(),
            final(self).width == old(self).width,
            final(self).height == old(self).height,
            final(self).background_color == old(self).background_color,
            final(self).current_color == old(self).current_color,
            color_at(final(self).color_buffer@, p as int) == color,
            forall|q: int|
                0 <= q < final(self).color_buffer@.len() / 4 && q != p ==> #[trigger] color_at(
                    final(self).color_buffer@,
                    q,
                ) == color_at(old(self).color_buffer@, q),
    {
        let len = self.color_buffer.len();
        assert(4 * p + 4 <= len);
        let i = p * 4;
        self.color_buffer.set(i, color.r);
        self.color_buffer.set(i + 1, color.g);
        self.color_buffer.set(i + 2, color.b);
        self.color_buffer.set(i + 3, color.a);
    }

    /// Paints every pixel with the background color.
    pub fn clear(&mut self)
        requires
            old(self).wf(),
        ensures
            final(self).wf(),
            final(self).width == old(self).width,
            final(self).height == old(self).height,
            final(self).background_color == old(self).background_color,
            final(self).current_color == old(self).current_color,
            forall|x: int, y: int| #[trigger]
                final(self).in_bounds(x, y) ==> final(self).pixel(x, y) == old(self).background_color,
    {
        let len = self.color_buffer.len();
        proof {
            assert(self.width * self.height <= self.width * self.height * 4);
        }
        let pixels = (self.width as usize) * (self.height as usize);
        let color = self.background_color;
        let mut p: usize = 0;
        while p < pixels
            invariant
                p <= pixels,
                pixels == self.width * self.height,
                self.color_buffer@.len() == len,
                len == self.width * self.height * 4,
                self.background_color == color,
                self.width == old(self).width,
                self.height == old(self).height,
                self.background_color == old(self).background_color,
                self.current_color == old(self).current_color,
                forall|q: int| 0 <= q < p ==> #[trigger] color_at(self.color_buffer@, q) == color,
            decreases pixels - p,
        {
            self.write_pixel(p, color);
            p += 1;
        }
        proof {
            assert forall|x: int, y: int| #[trigger]
                self.in_bounds(x, y) implies self.pixel(x, y) == color by {
                lemma_pixel_number(x, y, self.width as int, self.height as int);
            }
        }
    }

    /// Paints pixel (`x`, `y`) with the current color; a pixel outside the
    /// framebuffer is ignored.
    pub fn set_pixel(&mut self, x: u32, y: u32)
        requires
            old(self).wf(),
        ensures
            final(self).wf(),
            final(self).width == old(self).width,
            final(self).height == old(self).height,
            final(self).background_color == old(self).background_color,
            final(self).current_color == old(self).current_color,
            forall|px: int, py: int| #[trigger]
                final(self).in_bounds(px, py) ==> final(self).pixel(px, py) == if px == x && py
                    == y {
                    old(self).current_color
                } else {
                    old(self).pixel(px, py)
                },
    {
        let color = self.current_color;
        self.set_pixel_color(x, y, color);
    }

    /// Paints pixel (`x`, `y`) with `color`; a pixel outside the framebuffer
    /// is ignored.
    pub fn set_pixel_color(&mut self, x: u32, y: u32, color: Color)
        requires
            old(self).wf(),
        ensures
            final(self).wf(),
            final(self).width == old(self).width,
            final(self).height == old(self).height,
            final(self).background_color == old(self).background_color,
            final(self).current_color == old(self).current_color,
            forall|px: int, py: int| #[trigger]
                final(self).in_bounds(px, py) ==> final(self).pixel(px, py) == if px == x && py
                    == y {
                    color
                } else {
                    old(self).pixel(px, py)
                },
    {
        if x < self.width && y < self.height {
            proof {
                lemma_pixel_number(x as int, y as int, self.width as int, self.height as int);
            }
            let buffer_len = self.color_buffer.len();
            assert(y * self.width + x < buffer_len);
            let p = (y as usize) * (self.width as usize) + (x as usize);
            self.write_pixel(p, color);
            proof {
                assert forall|px: int, py: int| #[trigger]
                    self.in_bounds(px, py) implies self.pixel(px, py) == if px == x && py == y {
                    color
                } else {
                    old(self).pixel(px, py)
                } by {
                    lemma_pixel_number(px, py, self.width as int, self.height as int);
                    if px != x || py != y {
                        if py * self.width + px == p {
                            lemma_pixel_number_unique(
                                px,
                                py,
                                x as int,
                                y as int,
                                self.width as int,
                            );
                        }
                        assert(color_at(self.color_buffer@, py * self.width + px) == color_at(
                            old(self).color_buffer@,
                            py * self.width + px,
                        ));
                    }
                }
            }
        }
    }

    /// Draws `color` over pixel (`x`, `y`) with `color`'s opacity, leaving
    /// the pixel opaque; a transparent color, or a pixel outside the
    /// framebuffer, changes nothing.
    pub fn blend_pixel_color(&mut self, x: u32, y: u32, color: Color)
        requires
            old(self).wf(),
        ensures
            final(self).wf(),
            final(self).width == old(self).width,
            final(self).height == old(self).height,
            final(self).background_color == old(self).background_color,
            final(self).current_color == old(self).current_color,
            forall|px: int, py: int| #[trigger]
                final(self).in_bounds(px, py) ==> final(self).pixel(px, py) == if px == x && py
                    == y && color.a != 0 {
                    blended(color, old(self).pixel(px, py))
                } else {
                    old(self).pixel(px, py)
                },
    {
        if x >= self.width || y >= self.height || color.a == 0 {
            return;
        }
        if color.a == 255 {
            self.set_pixel_color(x, y, color);
            return;
        }
        proof {
            lemma_pixel_number(x as int, y as int, self.width as int, self.height as int);
        }
        let buffer_len = self.color_buffer.len();
        assert(y * self.width + x < buffer_len);
        let p = (y as usize) * (self.width as usize) + (x as usize);
        let i = p * 4;
        let alpha = color.a as u16;
        let inverse_alpha = 255 - alpha;
        let under = Color {
            r: self.color_buffer[i],
            g: self.color_buffer[i + 1],
            b: self.color_buffer[i + 2],
            a: self.color_buffer[i + 3],
        };
        let r = Self::blend_channel(color.r, under.r, alpha);
        let g = Self::blend_channel(color.g, under.g, alpha);
        let b = Self::blend_channel(color.b, under.b, alpha);
        self.write_pixel(p, Color { r, g, b, a: 255 });
        proof {
            assert(under == old(self).pixel(x as int, y as int));
            assert forall|px: int, py: int| #[trigger]
                self.in_bounds(px, py) implies self.pixel(px, py) == if px == x && py == y
                && color.a != 0 {
                blended(color, old(self).pixel(px, py))
            } else {
                old(self).pixel(px, py)
            } by {
                lemma_pixel_number(px, py, self.width as int, self.height as int);
                if px != x || py != y {
                    if py * self.width + px == p {
                        lemma_pixel_number_unique(px, py, x as int, y as int, self.width as int);
                    }
                    assert(color_at(self.color_buffer@, py * self.width + px) == color_at(
                        old(self).color_buffer@,
                        py * self.width + px,
                    ));
                }
            }
        }
    }

    /// One channel of `src` drawn with opacity `alpha` over `dst`.
    fn blend_channel(src: u8, dst: u8, alpha: u16) -> (c: u8)
        requires
            alpha <= 255,
        ensures
            c == crate::color::blend_channel(src, dst, alpha as u8),
    {
        let inverse_alpha = 255 - alpha;
        assert(src * alpha + dst * inverse_alpha <= 255 * 255) by (nonlinear_arith)
            requires
                src <= 255,
                dst <= 255,
                alpha <= 255,
                inverse_alpha == 255 - alpha,
        ;
        ((src as u16 * alpha + dst as u16 * inverse_alpha) / 255) as u8
    }

    pub fn set_background_color(&mut self, color: Color)
        ensures
            *final(self) == (Framebuffer { background_color: color, ..*old(self) }),
    {
        self.background_color = color;
    }

    pub fn set_current_color(&mut self, color: Color)
        ensures
            *final(self) == (Framebuffer { current_color: color, ..*old(self) }),
    {
        self.current_color = color;
    }
}

} // verus!
