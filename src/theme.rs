use vstd::prelude::*;
use crate::geom::{clamp64, Vector};
use crate::scene::Color;

verus! {

/// Process-wide look: the default font size, the window background, and the
/// average advance of one character of the default font, in percent of the font
/// size, by which text is measured.
#[derive(Clone, Copy, Debug, PartialEq, Eq, Structural)]
pub struct Theme {
    pub font_size: u32,
    pub bg_color: Color,
    pub char_width_percent: u32,
}

/// The width of `len` characters at `size`.
pub open spec fn text_width(len: nat, size: nat, percent: nat) -> int {
    clamp64((len * size * percent / 100) as int)
}

impl Theme {
    pub open spec fn spec_new() -> Theme {
        Theme {
            font_size: 14,
            bg_color: Color { r: 255, g: 255, b: 255, a: 255 },
            char_width_percent: 50,
        }
    }

    pub fn new() -> (r: Theme)
        ensures
            r == Theme::spec_new(),
    {
        Theme {
            font_size: 14,
            bg_color: Color { r: 255, g: 255, b: 255, a: 255 },
            char_width_percent: 50,
        }
    }

    /// The extent of `text` drawn at `size`: one average advance per byte of the
    /// text (`len` counts bytes), and the font size as its height.
    pub fn measure_text(&self, text: &str, size: u32) -> (r: Vector)
        ensures
            r.x == text_width(text.len() as nat, size as nat, self.char_width_percent as nat),
            r.y == size,
    {
        let len = text.len() as u128;
        proof {
            assert(len * size <= 0xffff_ffff_ffff_ffffu128 * 0xffff_ffff) by (nonlinear_arith)
                requires
                    len <= 0xffff_ffff_ffff_ffff,
                    size <= 0xffff_ffff,
            ;
        }
        let a = len * size as u128;
        proof {
            assert(a * self.char_width_percent <= 0xffff_ffff_ffff_ffffu128 * 0xffff_ffff * 0xffff_ffff)
                by (nonlinear_arith)
                requires
                    a <= 0xffff_ffff_ffff_ffffu128 * 0xffff_ffff,
                    self.char_width_percent <= 0xffff_ffff,
            ;
        }
        let w = a * self.char_width_percent as u128 / 100;
        let x = if w > i64::MAX as u128 {
            i64::MAX
        } else {
            w as i64
        };
        Vector { x, y: size as i64 }
    }
}

} // verus!
