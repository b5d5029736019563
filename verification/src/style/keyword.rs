//! Keyword values: closed sets of words.

use vstd::prelude::*;
use super::IntoCss;

verus! {

/// Where an element is laid out relative to the normal flow.
#[derive(Clone, Copy, Debug, PartialEq, Eq, Structural)]
pub enum Position {
    Static,
    Relative,
    Absolute,
    Fixed,
}

impl IntoCss for Position {
    open spec fn renderable(&self) -> bool {
        true
    }

    open spec fn css(&self) -> Seq<char> {
        match self {
            Position::Static => "static"@,
            Position::Relative => "relative"@,
            Position::Absolute => "absolute"@,
            Position::Fixed => "fixed"@,
        }
    }

    fn into_css(self) -> (text: String) {
        String::from_str(
            match self {
                Position::Static => "static",
                Position::Relative => "relative",
                Position::Absolute => "absolute",
                Position::Fixed => "fixed",
            },
        )
    }
}

/// How an element takes part in layout.
#[derive(Clone, Copy, Debug, PartialEq, Eq, Structural)]
pub enum Display {
    Inline,
    Block,
    ListItem,
    InlineBlock,
    Table,
    InlineTable,
    TableRowGroup,
    TableHeaderGroup,
    TableFooterGroup,
    TableRow,
    TableColumnGroup,
    TableColumn,
    TableCell,
    TableCaption,
    /// The keyword `none`.
    Absent,
}

impl IntoCss for Display {
    open spec fn renderable(&self) -> bool {
        true
    }

    open spec fn css(&self) -> Seq<char> {
        match self {
            Display::Inline => "inline"@,
            Display::Block => "block"@,
            Display::ListItem => "list-item"@,
            Display::InlineBlock => "inline-block"@,
            Display::Table => "table"@,
            Display::InlineTable => "inline-table"@,
            Display::TableRowGroup => "table-row-group"@,
            Display::TableHeaderGroup => "table-header-group"@,
            Display::TableFooterGroup => "table-footer-group"@,
            Display::TableRow => "table-row"@,
            Display::TableColumnGroup => "table-column-group"@,
            Display::TableColumn => "table-column"@,
            Display::TableCell => "table-cell"@,
            Display::TableCaption => "table-caption"@,
            Display::Absent => "none"@,
        }
    }

    fn into_css(self) -> (text: String) {
        String::from_str(
            match self {
                Display::Inline => "inline",
                Display::Block => "block",
                Display::ListItem => "list-item",
                Display::InlineBlock => "inline-block",
                Display::Table => "table",
                Display::InlineTable => "inline-table",
                Display::TableRowGroup => "table-row-group",
                Display::TableHeaderGroup => "table-header-group",
                Display::TableFooterGroup => "table-footer-group",
                Display::TableRow => "table-row",
                Display::TableColumnGroup => "table-column-group",
                Display::TableColumn => "table-column",
                Display::TableCell => "table-cell",
                Display::TableCaption => "table-caption",
                Display::Absent => "none",
            },
        )
    }
}

/// How the lines of a flexible container are spread.
#[derive(Clone, Copy, Debug, PartialEq, Eq, Structural)]
pub enum AlignContent {
    FlexStart,
    FlexEnd,
    Center,
    SpaceBetween,
    SpaceAround,
    Stretch,
}

impl IntoCss for AlignContent {
    open spec fn renderable(&self) -> bool {
        true
    }

    open spec fn css(&self) -> Seq<char> {
        match self {
            AlignContent::FlexStart => "flex-start"@,
            AlignContent::FlexEnd => "flex-end"@,
            AlignContent::Center => "center"@,
            AlignContent::SpaceBetween => "space-between"@,
            AlignContent::SpaceAround => "space-around"@,
            AlignContent::Stretch => "stretch"@,
        }
    }

    fn into_css(self) -> (text: String) {
        String::from_str(
            match self {
                AlignContent::FlexStart => "flex-start",
                AlignContent::FlexEnd => "flex-end",
                AlignContent::Center => "center",
                AlignContent::SpaceBetween => "space-between",
                AlignContent::SpaceAround => "space-around",
                AlignContent::Stretch => "stretch",
            },
        )
    }
}

/// How the items of a flexible container are aligned.
#[derive(Clone, Copy, Debug, PartialEq, Eq, Structural)]
pub enum AlignItems {
    FlexStart,
    FlexEnd,
    Center,
    Baseline,
    Stretch,
}

impl IntoCss for AlignItems {
    open spec fn renderable(&self) -> bool {
        true
    }

    open spec fn css(&self) -> Seq<char> {
        match self {
            AlignItems::FlexStart => "flex-start"@,
            AlignItems::FlexEnd => "flex-end"@,
            AlignItems::Center => "center"@,
            AlignItems::Baseline => "baseline"@,
            AlignItems::Stretch => "stretch"@,
        }
    }

    fn into_css(self) -> (text: String) {
        String::from_str(
            match self {
                AlignItems::FlexStart => "flex-start",
                AlignItems::FlexEnd => "flex-end",
                AlignItems::Center => "center",
                AlignItems::Baseline => "baseline",
                AlignItems::Stretch => "stretch",
            },
        )
    }
}

/// How one item of a flexible container is aligned.
#[derive(Clone, Copy, Debug, PartialEq, Eq, Structural)]
pub enum AlignSelf {
    Auto,
    FlexStart,
    FlexEnd,
    Center,
    Baseline,
    Stretch,
}

impl IntoCss for AlignSelf {
    open spec fn renderable(&self) -> bool {
        true
    }

    open spec fn css(&self) -> Seq<char> {
        match self {
            AlignSelf::Auto => "auto"@,
            AlignSelf::FlexStart => "flex-start"@,
            AlignSelf::FlexEnd => "flex-end"@,
            AlignSelf::Center => "center"@,
            AlignSelf::Baseline => "baseline"@,
            AlignSelf::Stretch => "stretch"@,
        }
    }

    fn into_css(self) -> (text: String) {
        String::from_str(
            match self {
                AlignSelf::Auto => "auto",
                AlignSelf::FlexStart => "flex-start",
                AlignSelf::FlexEnd => "flex-end",
                AlignSelf::Center => "center",
                AlignSelf::Baseline => "baseline",
                AlignSelf::Stretch => "stretch",
            },
        )
    }
}

/// Which baseline an inline element is aligned to.
#[derive(Clone, Copy, Debug, PartialEq, Eq, Structural)]
pub enum AlignmentBaseline {
    Baseline,
    TextBottom,
    Alphabetic,
    Ideographic,
    Middle,
    Central,
    Mathematical,
    TextTop,
}

impl IntoCss for AlignmentBaseline {
    open spec fn renderable(&self) -> bool {
        true
    }

    open spec fn css(&self) -> Seq<char> {
        match self {
            AlignmentBaseline::Baseline => "baseline"@,
            AlignmentBaseline::TextBottom => "text-bottom"@,
            AlignmentBaseline::Alphabetic => "alphabetic"@,
            AlignmentBaseline::Ideographic => "ideographic"@,
            AlignmentBaseline::Middle => "middle"@,
            AlignmentBaseline::Central => "central"@,
            AlignmentBaseline::Mathematical => "mathematical"@,
            AlignmentBaseline::TextTop => "text-top"@,
        }
    }

    fn into_css(self) -> (text: String) {
        String::from_str(
            match self {
                AlignmentBaseline::Baseline => "baseline",
                AlignmentBaseline::TextBottom => "text-bottom",
                AlignmentBaseline::Alphabetic => "alphabetic",
                AlignmentBaseline::Ideographic => "ideographic",
                AlignmentBaseline::Middle => "middle",
                AlignmentBaseline::Central => "central",
                AlignmentBaseline::Mathematical => "mathematical",
                AlignmentBaseline::TextTop => "text-top",
            },
        )
    }
}

/// The side that an element floats to.
#[derive(Clone, Copy, Debug, PartialEq, Eq, Structural)]
pub enum Float {
    Left,
    Right,
}

impl IntoCss for Float {
    open spec fn renderable(&self) -> bool {
        true
    }

    open spec fn css(&self) -> Seq<char> {
        match self {
            Float::Left => "left"@,
            Float::Right => "right"@,
        }
    }

    fn into_css(self) -> (text: String) {
        String::from_str(
            match self {
                Float::Left => "left",
                Float::Right => "right",
            },
        )
    }
}

/// Every keyword is a word: its text is never empty.
pub proof fn lemma_position_text_nonempty(value: Position)
    ensures
        value.css().len() > 0,
{
    reveal_strlit("static");
    reveal_strlit("relative");
    reveal_strlit("absolute");
    reveal_strlit("fixed");
}

/// Every keyword is a word: its text is never empty.
pub proof fn lemma_display_text_nonempty(value: Display)
    ensures
        value.css().len() > 0,
{
    reveal_strlit("inline");
    reveal_strlit("block");
    reveal_strlit("list-item");
    reveal_strlit("inline-block");
    reveal_strlit("table");
    reveal_strlit("inline-table");
    reveal_strlit("table-row-group");
    reveal_strlit("table-header-group");
    reveal_strlit("table-footer-group");
    reveal_strlit("table-row");
    reveal_strlit("table-column-group");
    reveal_strlit("table-column");
    reveal_strlit("table-cell");
    reveal_strlit("table-caption");
    reveal_strlit("none");
}

/// Every keyword is a word: its text is never empty.
pub proof fn lemma_align_content_text_nonempty(value: AlignContent)
    ensures
        value.css().len() > 0,
{
    reveal_strlit("flex-start");
    reveal_strlit("flex-end");
    reveal_strlit("center");
    reveal_strlit("space-between");
    reveal_strlit("space-around");
    reveal_strlit("stretch");
}

/// Every keyword is a word: its text is never empty.
pub proof fn lemma_align_items_text_nonempty(value: AlignItems)
    ensures
        value.css().len() > 0,
{
    reveal_strlit("flex-start");
    reveal_strlit("flex-end");
    reveal_strlit("center");
    reveal_strlit("baseline");
    reveal_strlit("stretch");
}

/// Every keyword is a word: its text is never empty.
pub proof fn lemma_align_self_text_nonempty(value: AlignSelf)
    ensures
        value.css().len() > 0,
{
    reveal_strlit("auto");
    reveal_strlit("flex-start");
    reveal_strlit("flex-end");
    reveal_strlit("center");
    reveal_strlit("baseline");
    reveal_strlit("stretch");
}

/// Every keyword is a word: its text is never empty.
pub proof fn lemma_alignment_baseline_text_nonempty(value: AlignmentBaseline)
    ensures
        value.css().len() > 0,
{
    reveal_strlit("baseline");
    reveal_strlit("text-bottom");
    reveal_strlit("alphabetic");
    reveal_strlit("ideographic");
    reveal_strlit("middle");
    reveal_strlit("central");
    reveal_strlit("mathematical");
    reveal_strlit("text-top");
}

/// Every keyword is a word: its text is never empty.
pub proof fn lemma_float_text_nonempty(value: Float)
    ensures
        value.css().len() > 0,
{
    reveal_strlit("left");
    reveal_strlit("right");
}

} // verus!
