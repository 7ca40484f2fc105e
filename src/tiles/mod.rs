//! Tiles: the three views drawn as standalone SVG documents.

pub mod contributions;
pub mod languages;
pub mod statistics;

use crate::svg::{decimal, push_decimal};
use crate::theme::Theme;
use vstd::prelude::*;
use vstd::string::*;

pub use contributions::{ContributionEntry, Contributions};
pub use languages::{Direction, LanguageEntry, Languages, Sector};
pub use statistics::Statistics;

verus! {

/// Width of an average character of the 12 px font, in half pixels (6.5 px).
pub const CHAR_WIDTH_HALVES: u128 = 13;

/// Corner radius of the background rectangle.
pub const BORDER_RADIUS: &'static str = "4.5";

pub const FONT_SIZE: u128 = 12;

pub const FONT_SIZE_SMALL: u128 = 11;

/// Style block shared by the tiles.
pub const SVG_STYLES: &'static str = "text { font-family: -apple-system, BlinkMacSystemFont, 'Segoe UI', Helvetica, Arial, sans-serif; }";

/// Size of the placeholder drawn when a tile has nothing to show.
pub const EMPTY_SVG_WIDTH: u128 = 350;

pub const EMPTY_SVG_HEIGHT: u128 = 100;

pub const EMPTY_SVG_FONT_SIZE: u128 = 14;

/// Configuration for rendering a tile.
#[derive(Clone, Copy)]
pub struct RenderConfig {
    pub theme: Theme,
    /// Whether a background rectangle is drawn; without it the tile blends
    /// into the page it is embedded in.
    pub opaque: bool,
}

impl RenderConfig {
    pub fn new(theme: Theme, opaque: bool) -> (r: Self)
        ensures
            r == (RenderConfig { theme, opaque }),
    {
        RenderConfig { theme, opaque }
    }
}

/// Decimal text of a non-negative integer.
pub open spec fn num(n: int) -> Seq<char> {
    decimal(n as nat)
}

/// Opening `<svg>` tag of a `width` x `height` document.
pub open spec fn svg_open(width: int, height: int) -> Seq<char> {
    "<svg xmlns=\"http://www.w3.org/2000/svg\" width=\""@ + num(width) + "\" height=\""@
        + num(height) + "\" viewBox=\"0 0 "@ + num(width) + " "@ + num(height) + "\">"@
}

/// Rounded background rectangle, present only on opaque tiles.
pub open spec fn background(opaque: bool, width: int, height: int, fill: Seq<char>) -> Seq<char> {
    if opaque {
        "<rect width=\""@ + num(width) + "\" height=\""@ + num(height) + "\" rx=\""@
            + BORDER_RADIUS@ + "\" fill=\""@ + fill + "\"/>"@
    } else {
        Seq::empty()
    }
}

/// A complete tile document around `body`.
pub open spec fn tile_document(
    width: int,
    height: int,
    config: RenderConfig,
    body: Seq<char>,
) -> Seq<char> {
    svg_open(width, height) + "\n  <style>"@ + SVG_STYLES@ + "</style>\n  "@ + background(
        config.opaque,
        width,
        height,
        config.theme.bg@,
    ) + "\n  "@ + body + "\n</svg>"@
}

/// The placeholder document showing `message`.
pub open spec fn empty_document(message: Seq<char>, theme: Theme, opaque: bool) -> Seq<char> {
    svg_open(EMPTY_SVG_WIDTH as int, EMPTY_SVG_HEIGHT as int)
        + "\n  <style>\n    text { font-family: -apple-system, BlinkMacSystemFont, 'Segoe UI', Helvetica, Arial, sans-serif; }\n  </style>\n  "@
        + background(opaque, EMPTY_SVG_WIDTH as int, EMPTY_SVG_HEIGHT as int, theme.bg@)
        + "\n  <text x=\""@ + num((EMPTY_SVG_WIDTH / 2) as int) + "\" y=\""@ + num((EMPTY_SVG_HEIGHT / 2 + EMPTY_SVG_FONT_SIZE / 4) as int) + "\" fill=\""@ + theme.text@ + "\" font-size=\""@ + num(EMPTY_SVG_FONT_SIZE as int)
        + "\" text-anchor=\"middle\">"@ + message + "</text>\n</svg>"@
}

/// Appends `piece`.
pub(crate) fn push(out: &mut String, piece: &str)
    ensures
        final(out)@ == old(out)@ + piece@,
{
    out.append(piece);
}

/// Appends the decimal text of `n`.
pub(crate) fn push_num(out: &mut String, n: u128)
    ensures
        final(out)@ == old(out)@ + num(n as int),
{
    push_decimal(out, n);
}

/// Appends the opening `<svg>` tag.
pub(crate) fn push_svg_open(out: &mut String, width: u128, height: u128)
    ensures
        final(out)@ == old(out)@ + svg_open(width as int, height as int),
{
    let ghost start = out@;
    push(out, "<svg xmlns=\"http://www.w3.org/2000/svg\" width=\"");
    push_num(out, width);
    push(out, "\" height=\"");
    push_num(out, height);
    push(out, "\" viewBox=\"0 0 ");
    push_num(out, width);
    push(out, " ");
    push_num(out, height);
    push(out, "\">");
    assert(out@ =~= start + svg_open(width as int, height as int));
}

/// Appends the background rectangle of an opaque tile; nothing otherwise.
pub(crate) fn push_background(out: &mut String, opaque: bool, width: u128, height: u128, fill: &str)
    ensures
        final(out)@ == old(out)@ + background(opaque, width as int, height as int, fill@),
{
    let ghost start = out@;
    if opaque {
        push(out, "<rect width=\"");
        push_num(out, width);
        push(out, "\" height=\"");
        push_num(out, height);
        push(out, "\" rx=\"");
        push(out, BORDER_RADIUS);
        push(out, "\" fill=\"");
        push(out, fill);
        push(out, "\"/>");
    }
    assert(out@ =~= start + background(opaque, width as int, height as int, fill@));
}

/// Wraps `body` into a complete tile document.
pub(crate) fn finish_tile(width: u128, height: u128, config: &RenderConfig, body: &str) -> (r: String)
    ensures
        r@ == tile_document(width as int, height as int, *config, body@),
{
    let mut out = String::new();
    push_svg_open(&mut out, width, height);
    push(&mut out, "\n  <style>");
    push(&mut out, SVG_STYLES);
    push(&mut out, "</style>\n  ");
    push_background(&mut out, config.opaque, width, height, config.theme.bg);
    push(&mut out, "\n  ");
    push(&mut out, body);
    push(&mut out, "\n</svg>");
    assert(out@ =~= tile_document(width as int, height as int, *config, body@));
    out
}

/// Generates the placeholder drawn when a tile has nothing to show.
pub fn empty_svg(message: &str, theme: Theme, opaque: bool) -> (r: String)
    ensures
        r@ == empty_document(message@, theme, opaque),
{
    let text_x = EMPTY_SVG_WIDTH / 2;
    // approximate vertical centering
    let text_y = EMPTY_SVG_HEIGHT / 2 + EMPTY_SVG_FONT_SIZE / 4;
    let mut out = String::new();
    push_svg_open(&mut out, EMPTY_SVG_WIDTH, EMPTY_SVG_HEIGHT);
    push(
        &mut out,
        "\n  <style>\n    text { font-family: -apple-system, BlinkMacSystemFont, 'Segoe UI', Helvetica, Arial, sans-serif; }\n  </style>\n  ",
    );
    push_background(&mut out, opaque, EMPTY_SVG_WIDTH, EMPTY_SVG_HEIGHT, theme.bg);
    push(&mut out, "\n  <text x=\"");
    push_num(&mut out, text_x);
    push(&mut out, "\" y=\"");
    push_num(&mut out, text_y);
    push(&mut out, "\" fill=\"");
    push(&mut out, theme.text);
    push(&mut out, "\" font-size=\"");
    push_num(&mut out, EMPTY_SVG_FONT_SIZE);
    push(&mut out, "\" text-anchor=\"middle\">");
    push(&mut out, message);
    push(&mut out, "</text>\n</svg>");
    assert(out@ =~= empty_document(message@, theme, opaque));
    out
}

/// Rendering is a pure function of the tile and the configuration: rendering
/// equal tiles under equal configurations gives identical documents.
pub proof fn lemma_render_deterministic<T: Tile>(a: T, b: T, config_a: RenderConfig, config_b: RenderConfig)
    requires
        a == b,
        config_a == config_b,
    ensures
        a.document(config_a) == b.document(config_b),
{
}

/// A view drawn as an SVG document.
pub trait Tile {
    /// Whether the tile holds everything it needs to be drawn.
    spec fn ready(&self) -> bool;

    /// Base name of the tile's files.
    spec fn tile_name(&self) -> Seq<char>;

    /// The document this tile draws under `config`.
    spec fn document(&self, config: RenderConfig) -> Seq<char>;

    /// The base name of the tile.
    fn name(&self) -> (r: &'static str)
        ensures
            r@ == self.tile_name(),
    ;

    /// Renders the tile as an SVG document.
    fn render(&self, config: &RenderConfig) -> (r: String)
        requires
            self.ready(),
        ensures
            r@ == self.document(*config),
    ;

    /// File name of the tile drawn under the theme called `theme_name`.
    fn filename(&self, theme_name: &str) -> (r: String)
        ensures
            r@ == self.tile_name() + "_"@ + theme_name@ + ".svg"@,
    {
        let mut out = String::new();
        push(&mut out, self.name());
        push(&mut out, "_");
        push(&mut out, theme_name);
        push(&mut out, ".svg");
        out
    }
}

} // verus!
