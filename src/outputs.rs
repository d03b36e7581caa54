use vstd::prelude::*;

use crate::geometry::Rect;

verus! {

/// What one frame asks of the rendering and audio subsystems: drawing
/// commands, texture uploads as (data, slot), texture draws as (rectangle,
/// slot, depth), glyph commands and sound commands, for a screen of aspect
/// ratio `aspect` (fixed point). Depths are fixed point as well.
#[derive(Debug)]
pub struct FrameOutputs<Draw, Texture, Glyph, Sound> {
    pub aspect: i64,
    pub canvas: Vec<Draw>,
    pub set_texture: Vec<(Texture, usize)>,
    pub draw_texture: Vec<(Rect, usize, i64)>,
    pub glyphs: Vec<Glyph>,
    pub sounds: Vec<Sound>,
}

impl<Draw, Texture, Glyph, Sound> FrameOutputs<Draw, Texture, Glyph, Sound> {
    /// Empty requests for a screen of aspect ratio `a`.
    pub fn new(a: i64) -> (r: Self)
        ensures
            r.aspect == a,
            r.canvas@.len() == 0,
            r.set_texture@.len() == 0,
            r.draw_texture@.len() == 0,
            r.glyphs@.len() == 0,
            r.sounds@.len() == 0,
    {
        FrameOutputs {
            aspect: a,
            canvas: Vec::new(),
            set_texture: Vec::new(),
            draw_texture: Vec::new(),
            glyphs: Vec::new(),
            sounds: Vec::new(),
        }
    }
}

} // verus!
