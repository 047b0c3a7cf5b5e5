use vstd::prelude::*;
use vstd::string::StrSliceExecFns;
use crate::model::{CardPosition, CardType, RenderOptions, Rgba, WallpaperCard};

verus! {

/// Distance between the card stack and the canvas edges.
pub const OUTER_MARGIN: u32 = 32;

/// Vertical gap between two neighbouring cards.
pub const CARD_MARGIN: u64 = 12;

/// Space above and below the text inside a card.
pub const CARD_PADDING: u64 = 16;

/// Corner radius of a card.
pub const CORNER_RADIUS: u32 = 16;

/// Height reserved for a non-empty title.
pub const TITLE_HEIGHT: u64 = 24;

/// Height of one estimated line of content.
pub const LINE_HEIGHT: u64 = 20;

/// Characters of content assumed to fit on one line.
pub const CHARS_PER_LINE: u64 = 30;

/// Cards past this many are not drawn.
pub const MAX_CARDS: usize = 4;

/// Radius of the pin indicator.
pub const PIN_RADIUS: u32 = 6;

/// Distance of the pin's center from the card's top and right edges.
pub const PIN_INSET: i128 = 12;

/// Width of a card's outline.
pub const STROKE_WIDTH: u32 = 1;

/// Pin indicator on a pinned card: a filled circle.
#[derive(Debug, Clone, Copy, PartialEq, Eq, Structural)]
pub struct Pin {
    pub cx: i128,
    pub cy: i128,
    pub radius: u32,
    pub color: Rgba,
}

/// Everything needed to rasterize one card: its box, a rounded-rectangle
/// fill, a rounded-rectangle outline and an optional pin indicator.
#[derive(Debug, Clone, Copy, PartialEq, Eq, Structural)]
pub struct CardDraw {
    pub x: i128,
    pub y: i128,
    pub width: u32,
    pub height: u64,
    pub radius: u32,
    pub fill: Rgba,
    pub stroke: Rgba,
    pub stroke_width: u32,
    pub pin: Option<Pin>,
}

/// One step of an outline.
#[derive(Debug, Clone, Copy, PartialEq, Eq, Structural)]
pub enum PathOp {
    MoveTo { x: i128, y: i128 },
    LineTo { x: i128, y: i128 },
    QuadTo { cx: i128, cy: i128, x: i128, y: i128 },
    Close,
}

/// Lines of content estimated for a text of `n` characters: `ceil(n / 30)`, at least one.
pub open spec fn content_lines(n: nat) -> nat {
    if n == 0 {
        1
    } else {
        ((n + 29) / 30) as nat
    }
}

/// Estimated height of a card: title band, content band and padding.
pub open spec fn card_height(card: WallpaperCard) -> nat {
    (if card.title@.len() == 0 { 0nat } else { 24nat })
        + content_lines(card.content@.len()) * 20 + 32
}

/// Height taken by the first `i` cards of a stack, each with its following gap.
pub open spec fn stack_extent(cards: Seq<WallpaperCard>, i: nat) -> nat
    decreases i,
{
    if i == 0 || i > cards.len() {
        0
    } else {
        stack_extent(cards, (i - 1) as nat) + card_height(cards[i - 1]) + 12
    }
}

pub open spec fn is_bottom(p: CardPosition) -> bool {
    p == CardPosition::BottomRight || p == CardPosition::BottomLeft
}

pub open spec fn is_right(p: CardPosition) -> bool {
    p == CardPosition::BottomRight || p == CardPosition::TopRight
}

/// Left edge of every card.
pub open spec fn card_left(p: CardPosition, canvas_width: u32, card_width: u32) -> int {
    if is_right(p) {
        canvas_width - card_width - 32
    } else {
        32
    }
}

/// Top edge of card `i`: bottom stacks grow upward from the bottom margin,
/// top stacks grow downward from the top margin, both in input order.
pub open spec fn card_top(
    p: CardPosition,
    canvas_height: u32,
    cards: Seq<WallpaperCard>,
    i: nat,
) -> int {
    if is_bottom(p) {
        canvas_height - 32 - stack_extent(cards, i) - card_height(cards[i as int])
    } else {
        32 + stack_extent(cards, i) as int
    }
}

/// Alpha of the card fill: the opacity scaled to 40 (dark mode) or 30,
/// rounded down and capped at 255.
pub open spec fn fill_alpha(opacity_permille: u32, dark: bool) -> u8 {
    let scaled = opacity_permille * (if dark { 40int } else { 30int }) / 1000;
    if scaled > 255 {
        255
    } else {
        scaled as u8
    }
}

/// Card fill: a light tint in dark mode, a dark tint otherwise.
pub open spec fn fill_color(opacity_permille: u32, dark: bool) -> Rgba {
    if dark {
        Rgba { r: 255, g: 255, b: 255, a: fill_alpha(opacity_permille, dark) }
    } else {
        Rgba { r: 0, g: 0, b: 0, a: fill_alpha(opacity_permille, dark) }
    }
}

/// Card outline color.
pub open spec fn stroke_color(dark: bool) -> Rgba {
    if dark {
        Rgba { r: 255, g: 255, b: 255, a: 50 }
    } else {
        Rgba { r: 0, g: 0, b: 0, a: 20 }
    }
}

/// Pin color: amber for memos, blue for tasks.
pub open spec fn pin_color(kind: CardType) -> Rgba {
    match kind {
        CardType::Memo => Rgba { r: 251, g: 191, b: 36, a: 255 },
        CardType::Task => Rgba { r: 96, g: 165, b: 250, a: 255 },
    }
}

/// How card `i` of the options is drawn on a canvas of the given size.
pub open spec fn card_draw(options: RenderOptions, canvas_width: u32, canvas_height: u32, i: int) -> CardDraw {
    let card = options.cards@[i];
    let x = card_left(options.position, canvas_width, options.card_width);
    let y = card_top(options.position, canvas_height, options.cards@, i as nat);
    CardDraw {
        x: x as i128,
        y: y as i128,
        width: options.card_width,
        height: card_height(card) as u64,
        radius: 16,
        fill: fill_color(options.card_opacity_permille, options.is_dark_mode),
        stroke: stroke_color(options.is_dark_mode),
        stroke_width: 1,
        pin: if card.is_pinned {
            Some(Pin { cx: (x + options.card_width - 12) as i128, cy: (y + 12) as i128, radius: 6, color: pin_color(card.card_type) })
        } else {
            None
        },
    }
}

/// Number of cards that are drawn: the first four at most.
pub open spec fn drawn_count(options: RenderOptions) -> nat {
    if options.cards@.len() < 4 {
        options.cards@.len()
    } else {
        4
    }
}

/// The cards drawn for the options, in input order.
pub open spec fn card_plan(options: RenderOptions, canvas_width: u32, canvas_height: u32) -> Seq<CardDraw> {
    Seq::new(drawn_count(options), |i: int| card_draw(options, canvas_width, canvas_height, i))
}

/// Estimated height of a card: 24 pixels of title when the title is not
/// empty, 20 pixels per estimated line of content, and the padding.
pub fn calculate_card_height(card: &WallpaperCard) -> (r: u64)
    ensures
        r == card_height(*card),
{
    let title_height: u64 = if card.title.as_str().is_empty() { 0 } else { TITLE_HEIGHT };
    let len: usize = card.content.as_str().unicode_len();
    let n: u64 = len as u64;
    let lines: u64 = if n == 0 { 1 } else { (n - 1) / CHARS_PER_LINE + 1 };
    assert(lines == content_lines(n as nat)) by {
        if n > 0 {
            assert((n - 1) as int / 30 + 1 == (n + 29) as int / 30) by (nonlinear_arith)
                requires n > 0;
        }
    }
    assert(lines * 20 <= 0xffff_ffff_ffff_ffffu64 - 56) by (nonlinear_arith)
        requires
            n <= 0xffff_ffff_ffff_ffffu64,
            n == 0 ==> lines == 1,
            n > 0 ==> lines == (n - 1) / 30 + 1;
    title_height + lines * LINE_HEIGHT + 2 * CARD_PADDING
}

/// The outline of a rounded rectangle: four edges joined by quadratic corners
/// of the given radius, clockwise from just past the top-left corner, closed.
pub open spec fn rounded_rect_ops(x: int, y: int, w: int, h: int, r: int) -> Seq<PathOp> {
    seq![
        PathOp::MoveTo { x: (x + r) as i128, y: y as i128 },
        PathOp::LineTo { x: (x + w - r) as i128, y: y as i128 },
        PathOp::QuadTo { cx: (x + w) as i128, cy: y as i128, x: (x + w) as i128, y: (y + r) as i128 },
        PathOp::LineTo { x: (x + w) as i128, y: (y + h - r) as i128 },
        PathOp::QuadTo { cx: (x + w) as i128, cy: (y + h) as i128, x: (x + w - r) as i128, y: (y + h) as i128 },
        PathOp::LineTo { x: (x + r) as i128, y: (y + h) as i128 },
        PathOp::QuadTo { cx: x as i128, cy: (y + h) as i128, x: x as i128, y: (y + h - r) as i128 },
        PathOp::LineTo { x: x as i128, y: (y + r) as i128 },
        PathOp::QuadTo { cx: x as i128, cy: y as i128, x: (x + r) as i128, y: y as i128 },
        PathOp::Close,
    ]
}

/// Coordinates that a card box can take.
pub open spec fn coordinate_in_range(v: int) -> bool {
    -0x1_0000_0000_0000_0000_0000_0000 <= v <= 0x1_0000_0000_0000_0000_0000_0000
}

/// Builds the outline of a rounded rectangle with its top-left corner at
/// `(x, y)`.
pub fn rounded_rect_path(x: i128, y: i128, width: u32, height: u64, radius: u32) -> (r: Vec<PathOp>)
    requires
        coordinate_in_range(x as int),
        coordinate_in_range(y as int),
    ensures
        r@ == rounded_rect_ops(x as int, y as int, width as int, height as int, radius as int),
{
    let w: i128 = width as i128;
    let h: i128 = height as i128;
    let rad: i128 = radius as i128;
    let mut ops: Vec<PathOp> = Vec::new();
    ops.push(PathOp::MoveTo { x: x + rad, y });
    ops.push(PathOp::LineTo { x: x + w - rad, y });
    ops.push(PathOp::QuadTo { cx: x + w, cy: y, x: x + w, y: y + rad });
    ops.push(PathOp::LineTo { x: x + w, y: y + h - rad });
    ops.push(PathOp::QuadTo { cx: x + w, cy: y + h, x: x + w - rad, y: y + h });
    ops.push(PathOp::LineTo { x: x + rad, y: y + h });
    ops.push(PathOp::QuadTo { cx: x, cy: y + h, x, y: y + h - rad });
    ops.push(PathOp::LineTo { x, y: y + rad });
    ops.push(PathOp::QuadTo { cx: x, cy: y, x: x + rad, y });
    ops.push(PathOp::Close);
    assert(ops@ =~= rounded_rect_ops(x as int, y as int, w as int, h as int, rad as int));
    ops
}

/// Alpha of the card fill for the given opacity, as `fill_alpha` states.
fn card_fill_alpha(opacity_permille: u32, dark: bool) -> (r: u8)
    ensures
        r == fill_alpha(opacity_permille, dark),
{
    let factor: u64 = if dark { 40 } else { 30 };
    let scaled: u64 = opacity_permille as u64 * factor / 1000;
    if scaled > 255 {
        255
    } else {
        scaled as u8
    }
}

/// Color of the pin indicator of a card of the given kind.
pub fn pin_color_of(kind: CardType) -> (r: Rgba)
    ensures
        r == pin_color(kind),
{
    match kind {
        CardType::Memo => Rgba { r: 251, g: 191, b: 36, a: 255 },
        CardType::Task => Rgba { r: 96, g: 165, b: 250, a: 255 },
    }
}

/// Lays out the first four cards of `options` on a canvas of the given size
/// and says how each is drawn, in input order.
pub fn render_cards(options: &RenderOptions, width: u32, height: u32) -> (r: Vec<CardDraw>)
    ensures
        r@ == card_plan(*options, width, height),
{
    let cards = &options.cards;
    let count: usize = if cards.len() < MAX_CARDS { cards.len() } else { MAX_CARDS };
    let dark = options.is_dark_mode;
    let card_width = options.card_width;
    let x: i128 = match options.position {
        CardPosition::BottomRight | CardPosition::TopRight =>
            width as i128 - card_width as i128 - OUTER_MARGIN as i128,
        CardPosition::BottomLeft | CardPosition::TopLeft => OUTER_MARGIN as i128,
    };
    let bottom = match options.position {
        CardPosition::BottomRight | CardPosition::BottomLeft => true,
        CardPosition::TopRight | CardPosition::TopLeft => false,
    };
    let fill = if dark {
        Rgba { r: 255, g: 255, b: 255, a: card_fill_alpha(options.card_opacity_permille, dark) }
    } else {
        Rgba { r: 0, g: 0, b: 0, a: card_fill_alpha(options.card_opacity_permille, dark) }
    };
    let stroke = if dark {
        Rgba { r: 255, g: 255, b: 255, a: 50 }
    } else {
        Rgba { r: 0, g: 0, b: 0, a: 20 }
    };
    let mut out: Vec<CardDraw> = Vec::new();
    // height of the cards placed so far, each with its following gap
    let mut extent: i128 = 0;
    let mut i: usize = 0;
    while i < count
        invariant
            count == drawn_count(*options),
            count <= cards@.len(),
            cards == &options.cards,
            x == card_left(options.position, width, card_width),
            bottom == is_bottom(options.position),
            fill == fill_color(options.card_opacity_permille, dark),
            stroke == stroke_color(dark),
            dark == options.is_dark_mode,
            card_width == options.card_width,
            0 <= i <= count,
            extent == stack_extent(cards@, i as nat),
            0 <= extent <= i * 0x1_0000_0000_0000_000c,
            out@.len() == i,
            forall|j: int| 0 <= j < i ==> out@[j] == card_draw(*options, width, height, j),
        decreases count - i,
    {
        let card = &cards[i];
        let card_height_px: u64 = calculate_card_height(card);
        let y: i128 = if bottom {
            height as i128 - OUTER_MARGIN as i128 - extent - card_height_px as i128
        } else {
            OUTER_MARGIN as i128 + extent
        };
        let pin = if card.is_pinned {
            Some(Pin { cx: x + card_width as i128 - PIN_INSET, cy: y + PIN_INSET, radius: PIN_RADIUS, color: pin_color_of(card.card_type) })
        } else {
            None
        };
        out.push(CardDraw {
            x,
            y,
            width: card_width,
            height: card_height_px,
            radius: CORNER_RADIUS,
            fill,
            stroke,
            stroke_width: STROKE_WIDTH,
            pin,
        });
        extent = extent + card_height_px as i128 + CARD_MARGIN as i128;
        i = i + 1;
    }
    assert(out@ =~= card_plan(*options, width, height));
    out
}

proof fn lemma_stack_extent_grows(cards: Seq<WallpaperCard>, i: nat, j: nat)
    requires
        i < j <= cards.len(),
    ensures
        stack_extent(cards, j) >= stack_extent(cards, i) + card_height(cards[i as int]) + 12,
    decreases j - i,
{
    if j > i + 1 {
        lemma_stack_extent_grows(cards, i, (j - 1) as nat);
    }
}

/// With no cards, nothing is drawn.
pub proof fn no_cards_draw_nothing(options: RenderOptions, canvas_width: u32, canvas_height: u32)
    requires
        options.cards@.len() == 0,
    ensures
        card_plan(options, canvas_width, canvas_height) =~= Seq::<CardDraw>::empty(),
{
}

/// One card shape is drawn per card, for the first four cards only, in input
/// order.
pub proof fn first_four_cards_drawn(options: RenderOptions, canvas_width: u32, canvas_height: u32)
    ensures
        card_plan(options, canvas_width, canvas_height).len() == if options.cards@.len() <= 4 {
            options.cards@.len()
        } else {
            4
        },
        forall|i: int|
            0 <= i < card_plan(options, canvas_width, canvas_height).len() ==> #[trigger] card_plan(
                options,
                canvas_width,
                canvas_height,
            )[i] == card_draw(options, canvas_width, canvas_height, i),
{
}

/// Every card's content is a text held in memory: its character count fits in a `usize`.
pub open spec fn cards_in_memory(cards: Seq<WallpaperCard>) -> bool {
    forall|k: int| 0 <= k < cards.len() ==> (#[trigger] cards[k].content@).len() <= usize::MAX
}

proof fn lemma_card_height_bound(card: WallpaperCard)
    requires
        card.content@.len() <= usize::MAX,
    ensures
        card_height(card) <= 0xffff_ffff_ffff_ffff,
{
    let n = card.content@.len();
    if n > 0 {
        assert((n + 29) / 30 * 20 <= 0xffff_ffff_ffff_ffff - 56) by (nonlinear_arith)
            requires
                0 < n <= 0xffff_ffff_ffff_ffff;
    }
}

proof fn lemma_stack_extent_bound(cards: Seq<WallpaperCard>, i: nat)
    requires
        cards_in_memory(cards),
    ensures
        stack_extent(cards, i) <= i * 0x1_0000_0000_0000_000c,
    decreases i,
{
    if i > 0 && i <= cards.len() {
        lemma_stack_extent_bound(cards, (i - 1) as nat);
        lemma_card_height_bound(cards[i - 1]);
    }
}

/// The top edge of a drawn card is its place in the stack.
proof fn lemma_drawn_top(options: RenderOptions, canvas_width: u32, canvas_height: u32, i: int)
    requires
        cards_in_memory(options.cards@),
        0 <= i < drawn_count(options),
    ensures
        card_plan(options, canvas_width, canvas_height)[i].y as int == card_top(
            options.position,
            canvas_height,
            options.cards@,
            i as nat,
        ),
{
    lemma_stack_extent_bound(options.cards@, i as nat);
    lemma_card_height_bound(options.cards@[i]);
}

/// In a bottom-anchored stack each drawn card's top edge lies strictly above
/// the top edge of every card drawn before it.
pub proof fn bottom_stack_grows_upward(
    options: RenderOptions,
    canvas_width: u32,
    canvas_height: u32,
    i: int,
    j: int,
)
    requires
        cards_in_memory(options.cards@),
        is_bottom(options.position),
        0 <= i < j < card_plan(options, canvas_width, canvas_height).len(),
    ensures
        card_plan(options, canvas_width, canvas_height)[j].y < card_plan(options, canvas_width, canvas_height)[i].y,
{
    lemma_stack_extent_grows(options.cards@, i as nat, j as nat);
    lemma_drawn_top(options, canvas_width, canvas_height, i);
    lemma_drawn_top(options, canvas_width, canvas_height, j);
}

/// In a top-anchored stack each drawn card's top edge lies strictly below the
/// bottom edge of every card drawn before it.
pub proof fn top_stack_grows_downward(
    options: RenderOptions,
    canvas_width: u32,
    canvas_height: u32,
    i: int,
    j: int,
)
    requires
        cards_in_memory(options.cards@),
        !is_bottom(options.position),
        0 <= i < j < card_plan(options, canvas_width, canvas_height).len(),
    ensures
        card_plan(options, canvas_width, canvas_height)[j].y > card_plan(options, canvas_width, canvas_height)[i].y
            + card_plan(options, canvas_width, canvas_height)[i].height,
{
    lemma_stack_extent_grows(options.cards@, i as nat, j as nat);
    lemma_drawn_top(options, canvas_width, canvas_height, i);
    lemma_drawn_top(options, canvas_width, canvas_height, j);
    lemma_card_height_bound(options.cards@[i]);
}

/// A pinned memo gets an amber pin, a pinned task a blue one, each of radius 6
/// centred 12 pixels in from the card's top and right edges; an unpinned card
/// gets none.
pub proof fn pin_color_by_kind(options: RenderOptions, canvas_width: u32, canvas_height: u32, i: int)
    requires
        cards_in_memory(options.cards@),
        0 <= i < card_plan(options, canvas_width, canvas_height).len(),
    ensures
        ({
            let card = options.cards@[i];
            let d = card_plan(options, canvas_width, canvas_height)[i];
            let pin = d.pin;
            let cx = (d.x + options.card_width - 12) as i128;
            let cy = (d.y + 12) as i128;
            &&& card.is_pinned && card.card_type == CardType::Memo ==> pin == Some(
                Pin { cx, cy, radius: 6, color: Rgba { r: 251, g: 191, b: 36, a: 255 } },
            )
            &&& card.is_pinned && card.card_type == CardType::Task ==> pin == Some(
                Pin { cx, cy, radius: 6, color: Rgba { r: 96, g: 165, b: 250, a: 255 } },
            )
            &&& !card.is_pinned ==> pin is None
        }),
{
    lemma_drawn_top(options, canvas_width, canvas_height, i);
}

} // verus!
