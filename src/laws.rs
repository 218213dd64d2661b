//! Laws that relate the builder and the encoder.
use vstd::prelude::*;

use crate::color::Color;
use crate::sgr::{csi, decimal, digit_char, reset};
use crate::style::Style;

verus! {

/// A style with no color and no decoration renders every text unchanged.
pub proof fn lemma_plain_is_identity(text: Seq<char>)
    ensures
        Style::plain().styled(text) == text,
{
    assert(Style::plain().sgr_params() =~= Seq::<nat>::empty());
}

/// A color alone renders as `ESC [`, its two-digit code, `m`, the text, and the reset.
pub proof fn lemma_color_code(c: Color, text: Seq<char>)
    ensures
        decimal(c.code()) == seq!['3', digit_char((c.code() - 30) as nat)],
        Style::plain().with_color(c).styled(text) == csi() + decimal(c.code()) + seq!['m'] + text
            + reset(),
{
    let s = Style::plain().with_color(c);
    assert(s.sgr_params() =~= seq![c.code()]);
    assert(decimal(c.code() / 10) == seq![digit_char(3)]);
    assert(decimal(c.code()) =~= seq!['3', digit_char((c.code() - 30) as nat)]);
    assert(s.styled(text) =~= csi() + decimal(c.code()) + seq!['m'] + text + reset());
}

/// A single decoration renders as `ESC [`, its code (bold 1, dim 2, italic 3,
/// underline 4), `m`, the text, and the reset.
pub proof fn lemma_decoration_codes(text: Seq<char>)
    ensures
        Style::plain().with_bold().styled(text) == csi() + seq!['1', 'm'] + text + reset(),
        Style::plain().with_dim().styled(text) == csi() + seq!['2', 'm'] + text + reset(),
        Style::plain().with_italic().styled(text) == csi() + seq!['3', 'm'] + text + reset(),
        Style::plain().with_underline().styled(text) == csi() + seq!['4', 'm'] + text + reset(),
{
    let p = Style::plain();
    assert(p.with_bold().sgr_params() =~= seq![1nat]);
    assert(p.with_dim().sgr_params() =~= seq![2nat]);
    assert(p.with_italic().sgr_params() =~= seq![3nat]);
    assert(p.with_underline().sgr_params() =~= seq![4nat]);
    assert(decimal(1) == seq!['1']);
    assert(decimal(2) == seq!['2']);
    assert(decimal(3) == seq!['3']);
    assert(decimal(4) == seq!['4']);
    assert(p.with_bold().styled(text) =~= csi() + seq!['1', 'm'] + text + reset());
    assert(p.with_dim().styled(text) =~= csi() + seq!['2', 'm'] + text + reset());
    assert(p.with_italic().styled(text) =~= csi() + seq!['3', 'm'] + text + reset());
    assert(p.with_underline().styled(text) =~= csi() + seq!['4', 'm'] + text + reset());
}

/// The order of setter calls does not matter: any two setters applied in either order
/// give the same style, so the parameters always come out color first, then bold, dim,
/// italic and underline.
pub proof fn lemma_setters_commute(s: Style, c: Color)
    ensures
        s.with_color(c).with_bold() == s.with_bold().with_color(c),
        s.with_color(c).with_dim() == s.with_dim().with_color(c),
        s.with_color(c).with_italic() == s.with_italic().with_color(c),
        s.with_color(c).with_underline() == s.with_underline().with_color(c),
        s.with_bold().with_dim() == s.with_dim().with_bold(),
        s.with_bold().with_italic() == s.with_italic().with_bold(),
        s.with_bold().with_underline() == s.with_underline().with_bold(),
        s.with_dim().with_italic() == s.with_italic().with_dim(),
        s.with_dim().with_underline() == s.with_underline().with_dim(),
        s.with_italic().with_underline() == s.with_underline().with_italic(),
{
}

/// A style with a color and decorations selects the color's code first, then 1, 2, 3
/// and 4 for each decoration that is set, in that order.
pub proof fn lemma_param_order(s: Style, c: Color)
    requires
        s.color == Some(c),
    ensures
        s.sgr_params() == seq![c.code()] + (if s.bold {
            seq![1nat]
        } else {
            Seq::empty()
        }) + (if s.dim {
            seq![2nat]
        } else {
            Seq::empty()
        }) + (if s.italic {
            seq![3nat]
        } else {
            Seq::empty()
        }) + (if s.underline {
            seq![4nat]
        } else {
            Seq::empty()
        }),
{
}

/// Setting a color twice keeps only the second.
pub proof fn lemma_color_last_wins(s: Style, c1: Color, c2: Color, text: Seq<char>)
    ensures
        s.with_color(c1).with_color(c2) == s.with_color(c2),
        s.with_color(c1).with_color(c2).styled(text) == s.with_color(c2).styled(text),
{
}

/// Setting a decoration twice is the same as setting it once.
pub proof fn lemma_decoration_idempotent(s: Style)
    ensures
        s.with_bold().with_bold() == s.with_bold(),
        s.with_dim().with_dim() == s.with_dim(),
        s.with_italic().with_italic() == s.with_italic(),
        s.with_underline().with_underline() == s.with_underline(),
{
}

} // verus!
