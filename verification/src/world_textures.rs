use vstd::prelude::*;

use crate::color::Color;

verus! {

/// A texture kept in memory as rows of colors, sampled while drawing.
pub struct CpuTexture {
    width: usize,
    height: usize,
    pixels: Vec<Color>,
}

impl CpuTexture {
    #[verifier::type_invariant]
    spec fn well_formed(self) -> bool {
        self.pixels@.len() == self.width * self.height
    }

    pub closed spec fn texture_width(&self) -> usize {
        self.width
    }

    pub closed spec fn texture_height(&self) -> usize {
        self.height
    }

    /// The colors, row by row.
    pub closed spec fn texels(&self) -> Seq<Color> {
        self.pixels@
    }

    /// A texture of `width` x `height` colors given row by row; `None` when
    /// `pixels` does not hold exactly that many.
    pub fn new(width: usize, height: usize, pixels: Vec<Color>) -> (t: Option<CpuTexture>)
        ensures
            t is Some <==> pixels@.len() == width * height,
            t matches Some(t) ==> t.texture_width() == width && t.texture_height() == height
                && t.texels() == pixels@,
    {
        if width.checked_mul(height) == Some(pixels.len()) {
            Some(CpuTexture { width, height, pixels })
        } else {
            None
        }
    }

    pub fn width(&self) -> (w: usize)
        ensures
            w == self.texture_width(),
    {
        self.width
    }

    pub fn height(&self) -> (h: usize)
        ensures
            h == self.texture_height(),
    {
        self.height
    }

    /// The color at column `x` and row `y`, coordinates past the last column
    /// or row being moved back onto it.
    pub fn texel(&self, x: usize, y: usize) -> (c: Color)
        requires
            self.texture_width() > 0,
            self.texture_height() > 0,
        ensures
            ({
                let column = if x < self.texture_width() {
                    x as int
                } else {
                    self.texture_width() - 1
                };
                let row = if y < self.texture_height() {
                    y as int
                } else {
                    self.texture_height() - 1
                };
                c == self.texels()[row * self.texture_width() + column]
            }),
    {
        proof {
            use_type_invariant(self);
        }
        let column = if x < self.width {
            x
        } else {
            self.width - 1
        };
        let row = if y < self.height {
            y
        } else {
            self.height - 1
        };
        assert(row * self.width + column < self.width * self.height) by (nonlinear_arith)
            requires
                row < self.height,
                column < self.width,
        ;
        let count = self.pixels.len();
        assert(row * self.width + column < count);
        self.pixels[row * self.width + column]
    }
}

/// Whether `symbol` is a corner wall, drawn with bricks.
pub open spec fn brick_symbol(symbol: char) -> bool {
    symbol == '┌' || symbol == '┐' || symbol == '┘' || symbol == '└'
}

/// Whether `symbol` is a junction wall, drawn with concrete.
pub open spec fn concrete_symbol(symbol: char) -> bool {
    symbol == '┴' || symbol == '┬' || symbol == '├' || symbol == '┤'
}

/// Whether `symbol` is a wall end, drawn with the second wall texture.
pub open spec fn wall_end_symbol(symbol: char) -> bool {
    symbol == '╶' || symbol == '╴' || symbol == '╵' || symbol == '╷'
}

/// The textures of the world.
pub struct WorldTextures {
    pub box_texture: CpuTexture,
    pub floor: CpuTexture,
    pub bricks: CpuTexture,
    pub concrete: CpuTexture,
    pub wall1: CpuTexture,
    pub wall2: CpuTexture,
    pub defuse_site: CpuTexture,
}

impl WorldTextures {
    /// The texture of the wall symbol `symbol`.
    pub open spec fn wall_texture(&self, symbol: char) -> CpuTexture {
        if symbol == 'B' {
            self.box_texture
        } else if brick_symbol(symbol) {
            self.bricks
        } else if concrete_symbol(symbol) {
            self.concrete
        } else if wall_end_symbol(symbol) {
            self.wall2
        } else {
            self.wall1
        }
    }

    /// The texture a wall of symbol `symbol` is drawn with: boxes with the box
    /// texture, corners with bricks, junctions with concrete, wall ends with
    /// the second wall texture and every other wall with the first.
    pub fn wall_for(&self, symbol: char) -> (t: &CpuTexture)
        ensures
            *t == self.wall_texture(symbol),
    {
        match symbol {
            'B' => &self.box_texture,
            '┌' | '┐' | '┘' | '└' => &self.bricks,
            '┴' | '┬' | '├' | '┤' => &self.concrete,
            '╶' | '╴' | '╵' | '╷' => &self.wall2,
            _ => &self.wall1,
        }
    }
}

} // verus!
