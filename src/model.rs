use vstd::prelude::*;

verus! {

/// What a card summarizes.
#[derive(Debug, Clone, Copy, PartialEq, Eq, Structural)]
pub enum CardType {
    Memo,
    Task,
}

/// The canvas corner from which cards stack.
#[derive(Debug, Clone, Copy, PartialEq, Eq, Structural)]
pub enum CardPosition {
    BottomRight,
    BottomLeft,
    TopRight,
    TopLeft,
}

/// One card to draw on the wallpaper.
#[derive(Debug, Clone)]
pub struct WallpaperCard {
    pub title: String,
    pub content: String,
    pub card_type: CardType,
    pub is_pinned: bool,
}

/// How the cards are drawn.
///
/// `card_opacity_permille` is the card opacity in thousandths: `1000` is
/// fully opaque. `blur_background` is carried for the host application and
/// changes nothing in the drawing.
#[derive(Debug, Clone)]
pub struct RenderOptions {
    pub cards: Vec<WallpaperCard>,
    pub position: CardPosition,
    pub card_width: u32,
    pub card_opacity_permille: u32,
    pub blur_background: bool,
    pub is_dark_mode: bool,
}

impl Default for RenderOptions {
    /// No cards, bottom-right corner, 280 pixels wide, opacity 0.85, dark mode.
    fn default() -> (r: RenderOptions)
        ensures
            r.cards@.len() == 0,
            r.position == CardPosition::BottomRight,
            r.card_width == 280,
            r.card_opacity_permille == 850,
            !r.blur_background,
            r.is_dark_mode,
    {
        RenderOptions {
            cards: Vec::new(),
            position: CardPosition::BottomRight,
            card_width: 280,
            card_opacity_permille: 850,
            blur_background: false,
            is_dark_mode: true,
        }
    }
}

/// A task as the host application stores it.
#[derive(Debug, Clone)]
pub struct Task {
    pub id: Option<i64>,
    pub text: String,
    pub important: bool,
    pub urgent: bool,
    pub completed: bool,
    pub created_at: Option<String>,
    pub updated_at: Option<String>,
}

/// A straight (non-premultiplied) 8-bit RGBA color.
#[derive(Debug, Clone, Copy, PartialEq, Eq, Structural)]
pub struct Rgba {
    pub r: u8,
    pub g: u8,
    pub b: u8,
    pub a: u8,
}

} // verus!
