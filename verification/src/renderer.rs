//! What the bar draws, as the state hands it to the renderer.

use vstd::prelude::*;

verus! {

/// One as the bit pattern of a single precision number: the width of a gap
/// between two items, in units of the bar's height.
pub const ONE: u32 = 0x3f80_0000;

/// Opaque white.
pub const WHITE: u32 = 0xffff_ffff;

/// Opaque dark grey.
pub const DARK: u32 = 0xff11_1111;

/// Opaque black.
pub const BLACK: u32 = 0xff00_0000;

/// One item of the bar. Sizes are bit patterns of single precision numbers,
/// colours are four bytes from alpha down to blue.
#[derive(Debug, Clone)]
pub enum Renderable {
    Text { text: String, fg: u32, bg: u32 },
    Space(u32),
    Box { fg: u32, bg: u32, width: u32, height: u32, skip: u32 },
}

/// An item of the bar as a mathematical value.
pub enum Drawn {
    Text { text: Seq<char>, fg: u32, bg: u32 },
    Space(u32),
    Box { fg: u32, bg: u32, width: u32, height: u32, skip: u32 },
}

impl View for Renderable {
    type V = Drawn;

    open spec fn view(&self) -> Drawn {
        match *self {
            Renderable::Text { text, fg, bg } => Drawn::Text { text: text@, fg, bg },
            Renderable::Space(width) => Drawn::Space(width),
            Renderable::Box { fg, bg, width, height, skip } => Drawn::Box {
                fg,
                bg,
                width,
                height,
                skip,
            },
        }
    }
}

/// The items of `items`, each as a mathematical value.
pub open spec fn drawn(items: Seq<Renderable>) -> Seq<Drawn> {
    Seq::new(items.len(), |i: int| items[i]@)
}

/// The three parts of the bar.
#[derive(Debug, Clone)]
pub struct RenderState {
    pub left: Vec<Renderable>,
    pub center: Vec<Renderable>,
    pub right: Vec<Renderable>,
}

} // verus!
