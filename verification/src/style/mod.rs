//! Value kinds, declaration fields and declaration blocks.

use vstd::prelude::*;

pub mod block;
pub mod border;
pub mod color;
pub mod image;
pub mod keyword;
pub mod number;
pub mod quantities;
pub mod schema;
pub mod text;
pub mod url;
pub mod value;

pub use block::CssBlock;
pub use keyword::{
    AlignContent, AlignItems, AlignSelf, AlignmentBaseline, Display, Float, Position,
};
pub use quantities::{Angle, Duration, Frequency, Length};

use text::{append_spaced, lemma_spaced_push, spaced};

verus! {

/// A value that can be written as the value part of a declaration.
pub trait IntoCss: Sized {
    /// Whether the value has a text. Only placeholders for value kinds
    /// that are not defined yet have none.
    spec fn renderable(&self) -> bool;

    /// The text of the value.
    spec fn css(&self) -> Seq<char>;

    fn into_css(self) -> (text: String)
        requires
            self.renderable(),
        ensures
            text@ == self.css(),
    ;
}

/// Stands for the value kind of a property whose values are not defined
/// yet. It has no text, so it must never be rendered.
#[derive(Clone, Copy, Debug, PartialEq, Eq, Structural)]
pub struct TODO;

impl IntoCss for TODO {
    open spec fn renderable(&self) -> bool {
        false
    }

    open spec fn css(&self) -> Seq<char> {
        Seq::empty()
    }

    fn into_css(self) -> (text: String) {
        String::new()
    }
}

/// The kind without values of its own: a property of this kind can only
/// be left unset, reset or inherited.
impl IntoCss for () {
    open spec fn renderable(&self) -> bool {
        true
    }

    open spec fn css(&self) -> Seq<char> {
        Seq::empty()
    }

    fn into_css(self) -> (text: String) {
        String::new()
    }
}

impl<T: IntoCss> IntoCss for Option<T> {
    open spec fn renderable(&self) -> bool {
        match self {
            Some(value) => value.renderable(),
            None => true,
        }
    }

    open spec fn css(&self) -> Seq<char> {
        match self {
            Some(value) => value.css(),
            None => Seq::empty(),
        }
    }

    fn into_css(self) -> (text: String) {
        match self {
            Some(value) => value.into_css(),
            None => String::new(),
        }
    }
}

/// A row of three values: their texts with single spaces between them.
/// A value whose text is empty takes no room.
impl<A: IntoCss, B: IntoCss, C: IntoCss> IntoCss for (A, B, C) {
    open spec fn renderable(&self) -> bool {
        self.0.renderable() && self.1.renderable() && self.2.renderable()
    }

    open spec fn css(&self) -> Seq<char> {
        spaced(seq![self.0.css(), self.1.css(), self.2.css()])
    }

    fn into_css(self) -> (text: String) {
        let (a, b, c) = self;
        let ghost parts = Seq::<Seq<char>>::empty();
        let mut text = String::new();
        assert(text@ =~= spaced(parts));
        let first = a.into_css();
        append_spaced(&mut text, first.as_str());
        let second = b.into_css();
        append_spaced(&mut text, second.as_str());
        let third = c.into_css();
        append_spaced(&mut text, third.as_str());
        proof {
            lemma_spaced_push(parts, first@);
            lemma_spaced_push(parts.push(first@), second@);
            lemma_spaced_push(parts.push(first@).push(second@), third@);
            assert(parts.push(first@).push(second@).push(third@) =~= seq![
                first@,
                second@,
                third@,
            ]);
        }
        text
    }
}

/// A row of four values: their texts with single spaces between them.
/// A value whose text is empty takes no room.
impl<A: IntoCss, B: IntoCss, C: IntoCss, D: IntoCss> IntoCss for (A, B, C, D) {
    open spec fn renderable(&self) -> bool {
        self.0.renderable() && self.1.renderable() && self.2.renderable() && self.3.renderable()
    }

    open spec fn css(&self) -> Seq<char> {
        spaced(seq![self.0.css(), self.1.css(), self.2.css(), self.3.css()])
    }

    fn into_css(self) -> (text: String) {
        let (a, b, c, d) = self;
        let ghost parts = Seq::<Seq<char>>::empty();
        let mut text = String::new();
        assert(text@ =~= spaced(parts));
        let first = a.into_css();
        append_spaced(&mut text, first.as_str());
        let second = b.into_css();
        append_spaced(&mut text, second.as_str());
        let third = c.into_css();
        append_spaced(&mut text, third.as_str());
        let fourth = d.into_css();
        append_spaced(&mut text, fourth.as_str());
        proof {
            lemma_spaced_push(parts, first@);
            lemma_spaced_push(parts.push(first@), second@);
            lemma_spaced_push(parts.push(first@).push(second@), third@);
            lemma_spaced_push(parts.push(first@).push(second@).push(third@), fourth@);
            assert(parts.push(first@).push(second@).push(third@).push(fourth@) =~= seq![
                first@,
                second@,
                third@,
                fourth@,
            ]);
        }
        text
    }
}

/// The state of one property in a declaration block.
#[derive(Debug, PartialEq, Eq)]
pub enum CssField<T: IntoCss> {
    /// Nothing is declared.
    Unset,
    /// An explicit value is declared.
    Explicit(T),
    /// The property is reset to its initial value.
    Initial,
    /// The property takes the value of the parent element.
    Inherit,
}

impl<T: IntoCss> CssField<T> {
    /// The override merge as a function of its two operands: the left
    /// one, unless it is unset.
    pub open spec fn merged(self, other: CssField<T>) -> CssField<T> {
        if self is Unset {
            other
        } else {
            self
        }
    }

    /// Merges two fields. The first one wins unless it is unset; reset
    /// and inherit count as set.
    pub fn or(self, other: CssField<T>) -> (field: CssField<T>)
        ensures
            field == self.merged(other),
    {
        match self {
            CssField::Unset => other,
            _ => self,
        }
    }

    /// Declares an explicit value, whatever was declared before.
    pub fn set(&mut self, value: T)
        ensures
            *final(self) == CssField::Explicit(value),
    {
        *self = CssField::Explicit(value);
    }
}

impl<T: IntoCss> Default for CssField<T> {
    fn default() -> (field: Self)
        ensures
            field is Unset,
    {
        CssField::Unset
    }
}

impl<T: IntoCss> IntoCss for CssField<T> {
    open spec fn renderable(&self) -> bool {
        match self {
            CssField::Explicit(value) => value.renderable(),
            _ => true,
        }
    }

    open spec fn css(&self) -> Seq<char> {
        match self {
            CssField::Unset => Seq::empty(),
            CssField::Inherit => "inherit"@,
            CssField::Initial => "initial"@,
            CssField::Explicit(value) => value.css(),
        }
    }

    fn into_css(self) -> (text: String) {
        match self {
            CssField::Unset => String::new(),
            CssField::Inherit => String::from_str("inherit"),
            CssField::Initial => String::from_str("initial"),
            CssField::Explicit(value) => value.into_css(),
        }
    }
}

impl<T: IntoCss> From<Option<T>> for CssField<T> {
    fn from(option: Option<T>) -> (field: Self) {
        match option {
            Some(value) => CssField::Explicit(value),
            None => CssField::Unset,
        }
    }
}

impl<T: IntoCss> vstd::std_specs::convert::FromSpecImpl<Option<T>> for CssField<T> {
    open spec fn obeys_from_spec() -> bool {
        true
    }

    open spec fn from_spec(option: Option<T>) -> Self {
        match option {
            Some(value) => CssField::Explicit(value),
            None => CssField::Unset,
        }
    }
}

impl<T: IntoCss> From<(T,)> for CssField<T> {
    fn from(single: (T,)) -> (field: Self) {
        CssField::Explicit(single.0)
    }
}

impl<T: IntoCss> vstd::std_specs::convert::FromSpecImpl<(T,)> for CssField<T> {
    open spec fn obeys_from_spec() -> bool {
        true
    }

    open spec fn from_spec(single: (T,)) -> Self {
        CssField::Explicit(single.0)
    }
}

/// A shorthand of three slots from two values: the third slot stays
/// unset.
impl<A: IntoCss, B: IntoCss, C: IntoCss> From<(A, B)> for CssField<(CssField<A>, CssField<B>, CssField<C>)> {
    fn from(pair: (A, B)) -> (field: Self) {
        CssField::Explicit((CssField::Explicit(pair.0), CssField::Explicit(pair.1), CssField::Unset))
    }
}

impl<A: IntoCss, B: IntoCss, C: IntoCss> vstd::std_specs::convert::FromSpecImpl<(A, B)> for CssField<(CssField<A>, CssField<B>, CssField<C>)> {
    open spec fn obeys_from_spec() -> bool {
        true
    }

    open spec fn from_spec(pair: (A, B)) -> Self {
        CssField::Explicit((CssField::Explicit(pair.0), CssField::Explicit(pair.1), CssField::Unset))
    }
}

/// A shorthand of three slots from three values.
impl<A: IntoCss, B: IntoCss, C: IntoCss> From<(A, B, C)> for CssField<(CssField<A>, CssField<B>, CssField<C>)> {
    fn from(triple: (A, B, C)) -> (field: Self) {
        CssField::Explicit(
            (
                CssField::Explicit(triple.0),
                CssField::Explicit(triple.1),
                CssField::Explicit(triple.2),
            ),
        )
    }
}

impl<A: IntoCss, B: IntoCss, C: IntoCss> vstd::std_specs::convert::FromSpecImpl<(A, B, C)> for CssField<(CssField<A>, CssField<B>, CssField<C>)> {
    open spec fn obeys_from_spec() -> bool {
        true
    }

    open spec fn from_spec(triple: (A, B, C)) -> Self {
        CssField::Explicit(
            (
                CssField::Explicit(triple.0),
                CssField::Explicit(triple.1),
                CssField::Explicit(triple.2),
            ),
        )
    }
}

/// A shorthand of four slots from three values: the fourth slot stays
/// unset.
impl<A: IntoCss, B: IntoCss, C: IntoCss, D: IntoCss> From<(A, B, C)> for CssField<(CssField<A>, CssField<B>, CssField<C>, CssField<D>)> {
    fn from(triple: (A, B, C)) -> (field: Self) {
        CssField::Explicit(
            (
                CssField::Explicit(triple.0),
                CssField::Explicit(triple.1),
                CssField::Explicit(triple.2),
                CssField::Unset,
            ),
        )
    }
}

impl<A: IntoCss, B: IntoCss, C: IntoCss, D: IntoCss> vstd::std_specs::convert::FromSpecImpl<(A, B, C)> for CssField<(CssField<A>, CssField<B>, CssField<C>, CssField<D>)> {
    open spec fn obeys_from_spec() -> bool {
        true
    }

    open spec fn from_spec(triple: (A, B, C)) -> Self {
        CssField::Explicit(
            (
                CssField::Explicit(triple.0),
                CssField::Explicit(triple.1),
                CssField::Explicit(triple.2),
                CssField::Unset,
            ),
        )
    }
}

/// A shorthand of four slots from one value: the other slots stay unset.
impl<A: IntoCss, B: IntoCss, C: IntoCss, D: IntoCss> From<(A,)> for CssField<(CssField<A>, CssField<B>, CssField<C>, CssField<D>)> {
    fn from(single: (A,)) -> (field: Self) {
        CssField::Explicit(
            (CssField::Explicit(single.0), CssField::Unset, CssField::Unset, CssField::Unset),
        )
    }
}

impl<A: IntoCss, B: IntoCss, C: IntoCss, D: IntoCss> vstd::std_specs::convert::FromSpecImpl<(A,)> for CssField<(CssField<A>, CssField<B>, CssField<C>, CssField<D>)> {
    open spec fn obeys_from_spec() -> bool {
        true
    }

    open spec fn from_spec(single: (A,)) -> Self {
        CssField::Explicit(
            (CssField::Explicit(single.0), CssField::Unset, CssField::Unset, CssField::Unset),
        )
    }
}

/// A way to turn a value into a declaration block.
pub trait IntoStyle {
    fn into_style(self) -> (block: CssBlock)
        ensures
            block.well_formed(),
    ;
}

/// The merge is left-biased: an unset left operand yields the right
/// one, any other left operand yields itself; so merging a field with
/// itself changes nothing.
pub proof fn lemma_merge_left_biased<T: IntoCss>(a: CssField<T>, b: CssField<T>)
    ensures
        a is Unset ==> a.merged(b) == b,
        !(a is Unset) ==> a.merged(b) == a,
        a.merged(a) == a,
{
}

/// The merge is associative: in a chain of overrides the first field
/// that is set wins, however the chain is grouped.
pub proof fn lemma_merge_associative<T: IntoCss>(a: CssField<T>, b: CssField<T>, c: CssField<T>)
    ensures
        a.merged(b).merged(c) == a.merged(b.merged(c)),
{
}

} // verus!
