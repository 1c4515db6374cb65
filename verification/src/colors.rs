//! The colors in which messages are shown.
//!
//! A color is packed into a number with one byte per channel: red in the
//! lowest byte, then green, blue and, in the highest byte, the opacity.

use vstd::prelude::*;

use crate::print::{parts_view, RichText, RichTextView, TextColor};

verus! {

pub const GREEN: u32 = 0xFF43_E28A;

pub const RED: u32 = 0xFF44_44FF;

pub const WHITE: u32 = 0xFFFF_FFFF;

/// The darkest gray that still meets WCAG guidelines for contrast with the
/// black background of the overlay.
pub const BLACK: u32 = 0xFF9C_9C9C;

pub const YELLOW: u32 = 0xFF4F_E9FC;

pub const BLUE: u32 = 0xFFD4_A982;

pub const MAGENTA: u32 = 0xFFBC_9BBF;

pub const CYAN: u32 = 0xFFE2_E234;

/// The red, green and blue bytes of a color, as one number.
pub open spec fn hue(color: u32) -> int {
    color as int % 0x100_0000
}

/// The opacity byte of a color.
pub open spec fn opacity(color: u32) -> int {
    color as int / 0x100_0000
}

/// Returns a copy of `color` with its opacity overridden by `alpha`.
pub fn with_alpha(color: u32, alpha: u8) -> (faded: u32)
    ensures
        hue(faded) == hue(color),
        opacity(faded) == alpha,
{
    let faded: u32 = (color & 0x00ff_ffff) | ((alpha as u32) << 24);
    let wide: u32 = alpha as u32;
    assert(faded % 0x100_0000 == color % 0x100_0000 && faded / 0x100_0000 == wide) by (bit_vector)
        requires
            faded == (color & 0x00ff_ffff) | (wide << 24),
            wide < 0x100,
    ;
    faded
}

/// The color of a part of a message.
pub open spec fn color_of(part: RichTextView) -> u32 {
    match part {
        RichTextView::Player(_) => BLUE,
        RichTextView::PlayerName(_) => BLUE,
        RichTextView::Item(_) => MAGENTA,
        RichTextView::Location(_) => CYAN,
        RichTextView::EntranceName(_) => CYAN,
        RichTextView::Text(_) => WHITE,
        RichTextView::Color { color, .. } => match color {
            TextColor::Blue => BLUE,
            TextColor::Magenta => MAGENTA,
            TextColor::Cyan => CYAN,
            TextColor::Black => BLACK,
            TextColor::Red => RED,
            TextColor::Green => GREEN,
            TextColor::Yellow => YELLOW,
            _ => WHITE,
        },
    }
}

/// The color of a part of a message.
pub fn part_color(part: &RichText) -> (color: u32)
    ensures
        color == color_of(part@),
{
    match part {
        RichText::Player(_) | RichText::PlayerName(_) => BLUE,
        RichText::Item(_) => MAGENTA,
        RichText::Location(_) | RichText::EntranceName(_) => CYAN,
        RichText::Color { color, .. } => match color {
            TextColor::Blue => BLUE,
            TextColor::Magenta => MAGENTA,
            TextColor::Cyan => CYAN,
            TextColor::Black => BLACK,
            TextColor::Red => RED,
            TextColor::Green => GREEN,
            TextColor::Yellow => YELLOW,
            _ => WHITE,
        },
        RichText::Text(_) => WHITE,
    }
}

/// A piece of text as it is drawn.
#[derive(Clone, Copy, Debug)]
pub struct Segment<'a> {
    pub text: &'a str,
    pub color: u32,
    /// Whether the text goes on the line of the one before it.
    pub same_line: bool,
}

/// Whether `segments` are the text of `parts`, each in its own color but for the
/// opacity, all in a single line.
pub open spec fn laid_out(segments: Seq<Segment>, parts: Seq<RichTextView>, alpha: u8) -> bool {
    &&& segments.len() == parts.len()
    &&& forall|i: int|
        0 <= i < segments.len() ==> {
            &&& (#[trigger] segments[i]).text@ == parts[i].text()
            &&& hue(segments[i].color) == hue(color_of(parts[i]))
            &&& opacity(segments[i].color) == alpha
            &&& segments[i].same_line == (i > 0)
        }
}

/// Lays out the text in `parts` in a single line, with the given opacity.
pub fn write_message_data<'a>(parts: &'a Vec<RichText>, alpha: u8) -> (segments: Vec<Segment<'a>>)
    ensures
        laid_out(segments@, parts_view(parts@), alpha),
{
    let mut segments: Vec<Segment<'a>> = Vec::new();
    let mut i: usize = 0;
    while i < parts.len()
        invariant
            i <= parts@.len(),
            laid_out(segments@, parts_view(parts@.take(i as int)), alpha),
        decreases parts@.len() - i,
    {
        let part: &'a RichText = &parts[i];
        segments.push(
            Segment {
                text: part.text(),
                color: with_alpha(part_color(part), alpha),
                same_line: i > 0,
            },
        );
        i = i + 1;
    }
    assert(parts@.take(i as int) =~= parts@);
    segments
}

/// A color is told by its hue and its opacity.
pub proof fn law_color_is_hue_and_opacity(a: u32, b: u32)
    requires
        hue(a) == hue(b),
        opacity(a) == opacity(b),
    ensures
        a == b,
{
}

/// Text that is not faded has exactly its own color.
pub proof fn law_full_opacity_changes_nothing(part: RichTextView, drawn: u32)
    requires
        hue(drawn) == hue(color_of(part)),
        opacity(drawn) == 0xff,
    ensures
        drawn == color_of(part),
{
}

/// A color is put together of its opacity and its hue.
pub proof fn law_color_is_put_together(color: u32)
    ensures
        color == opacity(color) * 0x100_0000 + hue(color),
        0 <= hue(color) < 0x100_0000,
        0 <= opacity(color) < 0x100,
{
}

/// The color of a part is a matter of what it refers to, and never of what it
/// says. All parts without a color of their own are white.
pub proof fn law_what_has_which_color(text: Seq<char>, color: TextColor)
    ensures
        color_of(RichTextView::Player(text)) == BLUE,
        color_of(RichTextView::PlayerName(text)) == BLUE,
        color_of(RichTextView::Item(text)) == MAGENTA,
        color_of(RichTextView::Location(text)) == CYAN,
        color_of(RichTextView::EntranceName(text)) == CYAN,
        color_of(RichTextView::Text(text)) == WHITE,
        color_of(RichTextView::Color { text, color: TextColor::Blue }) == BLUE,
        color_of(RichTextView::Color { text, color: TextColor::Magenta }) == MAGENTA,
        color_of(RichTextView::Color { text, color: TextColor::Cyan }) == CYAN,
        color_of(RichTextView::Color { text, color: TextColor::Black }) == BLACK,
        color_of(RichTextView::Color { text, color: TextColor::Red }) == RED,
        color_of(RichTextView::Color { text, color: TextColor::Green }) == GREEN,
        color_of(RichTextView::Color { text, color: TextColor::Yellow }) == YELLOW,
        !(color is Blue || color is Magenta || color is Cyan || color is Black || color is Red
            || color is Green || color is Yellow) ==> color_of(RichTextView::Color { text, color })
            == WHITE,
{
}

/// There is but one way to lay out a message: all of its parts in order, each
/// with its text, its color and the given opacity, the first one on a line of
/// its own and all others behind it.
pub proof fn law_one_way_to_lay_out(
    segments: Seq<Segment>,
    parts: Seq<RichTextView>,
    alpha: u8,
    i: int,
)
    requires
        laid_out(segments, parts, alpha),
        0 <= i < parts.len(),
    ensures
        segments.len() == parts.len(),
        segments[i].text@ == parts[i].text(),
        segments[i].color == alpha * 0x100_0000 + hue(color_of(parts[i])),
        segments[i].same_line <==> i != 0,
{
    assert(segments[i].text@ == parts[i].text());
    law_color_is_put_together(segments[i].color);
}

} // verus!
