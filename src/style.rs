use vstd::prelude::*;

use crate::color::Color;
use crate::sgr::{push_select, reset, select};

verus! {

/// How a text is rendered: an optional foreground color and four independent decorations.
///
/// Build one with `Style::new()` and the chainable setters, then render text with
/// `Style::format`.
#[derive(Debug, Clone, Copy, PartialEq, Eq, Structural)]
pub struct Style {
    pub bold: bool,
    pub dim: bool,
    pub italic: bool,
    pub underline: bool,
    pub color: Option<Color>,
}

impl Style {
    /// The style with no color and no decoration.
    pub open spec fn plain() -> Style {
        Style { bold: false, dim: false, italic: false, underline: false, color: None }
    }

    /// The style with its color replaced by `c`.
    pub open spec fn with_color(self, c: Color) -> Style {
        Style { color: Some(c), ..self }
    }

    /// The style with bold set.
    pub open spec fn with_bold(self) -> Style {
        Style { bold: true, ..self }
    }

    /// The style with dim set.
    pub open spec fn with_dim(self) -> Style {
        Style { dim: true, ..self }
    }

    /// The style with italic set.
    pub open spec fn with_italic(self) -> Style {
        Style { italic: true, ..self }
    }

    /// The style with underline set.
    pub open spec fn with_underline(self) -> Style {
        Style { underline: true, ..self }
    }

    /// The SGR parameters the style selects: the color's code, then 1, 2, 3 and 4 for
    /// bold, dim, italic and underline, each only where it is set.
    pub open spec fn sgr_params(self) -> Seq<nat> {
        (match self.color {
            Some(c) => seq![c.code()],
            None => Seq::empty(),
        }) + (if self.bold {
            seq![1nat]
        } else {
            Seq::empty()
        }) + (if self.dim {
            seq![2nat]
        } else {
            Seq::empty()
        }) + (if self.italic {
            seq![3nat]
        } else {
            Seq::empty()
        }) + (if self.underline {
            seq![4nat]
        } else {
            Seq::empty()
        })
    }

    /// `text` rendered in the style: unchanged where the style selects nothing, else
    /// framed by the selecting sequence and the reset sequence.
    pub open spec fn styled(self, text: Seq<char>) -> Seq<char> {
        if self.sgr_params().len() == 0 {
            text
        } else {
            select(self.sgr_params()) + text + reset()
        }
    }

    /// Create an empty `Style`.
    pub fn new() -> (r: Self)
        ensures
            r == Style::plain(),
    {
        Style::default()
    }

    /// Add a color, overriding any previous color.
    pub fn color(self, color: Color) -> (r: Self)
        ensures
            r == self.with_color(color),
    {
        let mut s = self;
        s.color = Some(color);
        s
    }

    /// Add the bold decoration.
    pub fn bold(self) -> (r: Self)
        ensures
            r == self.with_bold(),
    {
        let mut s = self;
        s.bold = true;
        s
    }

    /// Add the bold decoration; the same as `bold`.
    pub fn b(self) -> (r: Self)
        ensures
            r == self.with_bold(),
    {
        let mut s = self;
        s.bold = true;
        s
    }

    /// Add the dim decoration.
    pub fn dim(self) -> (r: Self)
        ensures
            r == self.with_dim(),
    {
        let mut s = self;
        s.dim = true;
        s
    }

    /// Add the dim decoration; the same as `dim`.
    pub fn d(self) -> (r: Self)
        ensures
            r == self.with_dim(),
    {
        let mut s = self;
        s.dim = true;
        s
    }

    /// Add the italic decoration.
    pub fn italic(self) -> (r: Self)
        ensures
            r == self.with_italic(),
    {
        let mut s = self;
        s.italic = true;
        s
    }

    /// Add the italic decoration; the same as `italic`.
    pub fn i(self) -> (r: Self)
        ensures
            r == self.with_italic(),
    {
        let mut s = self;
        s.italic = true;
        s
    }

    /// Add the underline decoration.
    pub fn underline(self) -> (r: Self)
        ensures
            r == self.with_underline(),
    {
        let mut s = self;
        s.underline = true;
        s
    }

    /// Add the underline decoration; the same as `underline`.
    pub fn u(self) -> (r: Self)
        ensures
            r == self.with_underline(),
    {
        let mut s = self;
        s.underline = true;
        s
    }

    /// The SGR parameters of the style, in emission order.
    pub fn params(self) -> (r: Vec<usize>)
        ensures
            r@.map_values(|p: usize| p as nat) == self.sgr_params(),
    {
        let mut params: Vec<usize> = Vec::new();
        if let Some(color) = self.color {
            params.push(color.param());
        }
        if self.bold {
            params.push(1);
        }
        if self.dim {
            params.push(2);
        }
        if self.italic {
            params.push(3);
        }
        if self.underline {
            params.push(4);
        }
        assert(params@.map_values(|p: usize| p as nat) =~= self.sgr_params());
        params
    }

    /// Format text with the style.
    ///
    /// Returns the text unchanged if the style has no color and no decoration.
    pub fn format(self, text: &str) -> (r: String)
        ensures
            r@ == self.styled(text@),
    {
        let params = self.params();
        if params.len() == 0 {
            return text.to_owned();
        }
        let mut out = String::new();
        push_select(&mut out, &params);
        out.append(text);
        proof {
            reveal_strlit("\x1b[0m");
        }
        out.append("\x1b[0m");
        assert(out@ =~= self.styled(text@));
        out
    }
}

impl Default for Style {
    /// The empty style, as `Style::new()`.
    fn default() -> (r: Self)
        ensures
            r == Style::plain(),
    {
        Style { bold: false, dim: false, italic: false, underline: false, color: None }
    }
}

/// Apply a style to text; the same as `style.format(text)`.
pub fn style_format(text: &str, style: Style) -> (r: String)
    ensures
        r@ == style.styled(text@),
{
    style.format(text)
}

} // verus!
