//! Border widths and border line styles.

use vstd::prelude::*;
use super::number::Decimal;
use super::quantities::{lemma_length_text_nonempty, Length};
use super::IntoCss;

verus! {

/// The width of a border: one of three words, or a length.
#[derive(Clone, Copy, Debug, PartialEq, Eq, Structural)]
pub enum BorderWidth {
    Thin,
    Medium,
    Thick,
    Custom(Length),
}

impl IntoCss for BorderWidth {
    open spec fn renderable(&self) -> bool {
        true
    }

    open spec fn css(&self) -> Seq<char> {
        match self {
            BorderWidth::Thin => "thin"@,
            BorderWidth::Medium => "medium"@,
            BorderWidth::Thick => "thick"@,
            BorderWidth::Custom(size) => size.css(),
        }
    }

    fn into_css(self) -> (text: String) {
        match self {
            BorderWidth::Thin => String::from_str("thin"),
            BorderWidth::Medium => String::from_str("medium"),
            BorderWidth::Thick => String::from_str("thick"),
            BorderWidth::Custom(size) => size.into_css(),
        }
    }
}

impl From<Length> for BorderWidth {
    fn from(size: Length) -> (width: Self) {
        BorderWidth::Custom(size)
    }
}

impl vstd::std_specs::convert::FromSpecImpl<Length> for BorderWidth {
    open spec fn obeys_from_spec() -> bool {
        true
    }

    open spec fn from_spec(size: Length) -> Self {
        BorderWidth::Custom(size)
    }
}

/// A whole number is a width in pixels.
impl From<i64> for BorderWidth {
    fn from(size: i64) -> (width: Self) {
        BorderWidth::Custom(Length::Px(Decimal::from_integer(size)))
    }
}

impl vstd::std_specs::convert::FromSpecImpl<i64> for BorderWidth {
    open spec fn obeys_from_spec() -> bool {
        true
    }

    open spec fn from_spec(size: i64) -> Self {
        BorderWidth::Custom(Length::Px(Decimal::of_integer(size)))
    }
}

/// The line style of a border.
#[derive(Clone, Copy, Debug, PartialEq, Eq, Structural)]
pub enum BorderStyle {
    /// The keyword `none`.
    Absent,
    Hidden,
    Dotted,
    Dashed,
    Solid,
    Double,
    Groove,
    Ridge,
    Inset,
    Outset,
}

impl IntoCss for BorderStyle {
    open spec fn renderable(&self) -> bool {
        true
    }

    open spec fn css(&self) -> Seq<char> {
        match self {
            BorderStyle::Absent => "none"@,
            BorderStyle::Hidden => "hidden"@,
            BorderStyle::Dotted => "dotted"@,
            BorderStyle::Dashed => "dashed"@,
            BorderStyle::Solid => "solid"@,
            BorderStyle::Double => "double"@,
            BorderStyle::Groove => "groove"@,
            BorderStyle::Ridge => "ridge"@,
            BorderStyle::Inset => "inset"@,
            BorderStyle::Outset => "outset"@,
        }
    }

    fn into_css(self) -> (text: String) {
        String::from_str(
            match self {
                BorderStyle::Absent => "none",
                BorderStyle::Hidden => "hidden",
                BorderStyle::Dotted => "dotted",
                BorderStyle::Dashed => "dashed",
                BorderStyle::Solid => "solid",
                BorderStyle::Double => "double",
                BorderStyle::Groove => "groove",
                BorderStyle::Ridge => "ridge",
                BorderStyle::Inset => "inset",
                BorderStyle::Outset => "outset",
            },
        )
    }
}
/// Every keyword is a word: its text is never empty.
pub proof fn lemma_border_style_text_nonempty(value: BorderStyle)
    ensures
        value.css().len() > 0,
{
    reveal_strlit("none");
    reveal_strlit("hidden");
    reveal_strlit("dotted");
    reveal_strlit("dashed");
    reveal_strlit("solid");
    reveal_strlit("double");
    reveal_strlit("groove");
    reveal_strlit("ridge");
    reveal_strlit("inset");
    reveal_strlit("outset");
}

/// The text of a border width is never empty.
pub proof fn lemma_border_width_text_nonempty(value: BorderWidth)
    ensures
        value.css().len() > 0,
{
    reveal_strlit("thin");
    reveal_strlit("medium");
    reveal_strlit("thick");
    if let BorderWidth::Custom(size) = value {
        lemma_length_text_nonempty(size);
    }
}

} // verus!
