//! Values of any kind, and the inputs that are read as values.

use vstd::prelude::*;
use super::border::{
    lemma_border_style_text_nonempty, lemma_border_width_text_nonempty, BorderStyle, BorderWidth,
};
use super::color::{lemma_color_text_nonempty, Color, NamedColor};
use super::image::Image;
use super::keyword::{
    lemma_align_content_text_nonempty, lemma_align_items_text_nonempty,
    lemma_align_self_text_nonempty, lemma_alignment_baseline_text_nonempty,
    lemma_display_text_nonempty, lemma_float_text_nonempty, lemma_position_text_nonempty,
    AlignContent, AlignItems, AlignSelf, AlignmentBaseline, Display, Float, Position,
};
use super::number::Decimal;
use super::quantities::{
    lemma_angle_text_nonempty, lemma_duration_text_nonempty, lemma_frequency_text_nonempty,
    lemma_length_text_nonempty, Angle, Duration, Frequency, Length,
};
use super::url::{lemma_url_text_nonempty, Url};
use super::IntoCss;

verus! {

/// The kinds of value that a property can take.
#[derive(Clone, Copy, Debug, PartialEq, Eq, Structural)]
pub enum Kind {
    /// The values of the property are not defined yet: it takes none.
    Todo,
    /// The property takes no value of its own.
    Void,
    Length,
    Duration,
    Angle,
    Frequency,
    Color,
    Image,
    BorderWidth,
    BorderStyle,
    Position,
    Display,
    AlignContent,
    AlignItems,
    AlignSelf,
    AlignmentBaseline,
    Float,
}

/// A value of one of the kinds.
#[derive(Debug, PartialEq, Eq)]
pub enum Value {
    Void,
    Length(Length),
    Duration(Duration),
    Angle(Angle),
    Frequency(Frequency),
    Color(Color),
    Image(Image),
    BorderWidth(BorderWidth),
    BorderStyle(BorderStyle),
    Position(Position),
    Display(Display),
    AlignContent(AlignContent),
    AlignItems(AlignItems),
    AlignSelf(AlignSelf),
    AlignmentBaseline(AlignmentBaseline),
    Float(Float),
}

impl Value {
    /// The kind that the value belongs to.
    pub open spec fn kind(self) -> Kind {
        match self {
            Value::Void => Kind::Void,
            Value::Length(_) => Kind::Length,
            Value::Duration(_) => Kind::Duration,
            Value::Angle(_) => Kind::Angle,
            Value::Frequency(_) => Kind::Frequency,
            Value::Color(_) => Kind::Color,
            Value::Image(_) => Kind::Image,
            Value::BorderWidth(_) => Kind::BorderWidth,
            Value::BorderStyle(_) => Kind::BorderStyle,
            Value::Position(_) => Kind::Position,
            Value::Display(_) => Kind::Display,
            Value::AlignContent(_) => Kind::AlignContent,
            Value::AlignItems(_) => Kind::AlignItems,
            Value::AlignSelf(_) => Kind::AlignSelf,
            Value::AlignmentBaseline(_) => Kind::AlignmentBaseline,
            Value::Float(_) => Kind::Float,
        }
    }

    pub fn kind_of(&self) -> (kind: Kind)
        ensures
            kind == self.kind(),
    {
        match self {
            Value::Void => Kind::Void,
            Value::Length(_) => Kind::Length,
            Value::Duration(_) => Kind::Duration,
            Value::Angle(_) => Kind::Angle,
            Value::Frequency(_) => Kind::Frequency,
            Value::Color(_) => Kind::Color,
            Value::Image(_) => Kind::Image,
            Value::BorderWidth(_) => Kind::BorderWidth,
            Value::BorderStyle(_) => Kind::BorderStyle,
            Value::Position(_) => Kind::Position,
            Value::Display(_) => Kind::Display,
            Value::AlignContent(_) => Kind::AlignContent,
            Value::AlignItems(_) => Kind::AlignItems,
            Value::AlignSelf(_) => Kind::AlignSelf,
            Value::AlignmentBaseline(_) => Kind::AlignmentBaseline,
            Value::Float(_) => Kind::Float,
        }
    }

    /// Whether the value has a text.
    pub fn can_render(&self) -> (yes: bool)
        ensures
            yes == self.renderable(),
    {
        match self {
            Value::Image(Image::Gradient(_)) => false,
            _ => true,
        }
    }

    /// The text of the value, without taking the value apart.
    pub fn render(&self) -> (text: String)
        requires
            self.renderable(),
        ensures
            text@ == self.css(),
    {
        match self {
            Value::Void => String::new(),
            Value::Length(v) => (*v).into_css(),
            Value::Duration(v) => (*v).into_css(),
            Value::Angle(v) => (*v).into_css(),
            Value::Frequency(v) => (*v).into_css(),
            Value::Color(v) => (*v).into_css(),
            Value::Image(v) => v.render(),
            Value::BorderWidth(v) => (*v).into_css(),
            Value::BorderStyle(v) => (*v).into_css(),
            Value::Position(v) => (*v).into_css(),
            Value::Display(v) => (*v).into_css(),
            Value::AlignContent(v) => (*v).into_css(),
            Value::AlignItems(v) => (*v).into_css(),
            Value::AlignSelf(v) => (*v).into_css(),
            Value::AlignmentBaseline(v) => (*v).into_css(),
            Value::Float(v) => (*v).into_css(),
        }
    }
}

impl Clone for Value {
    fn clone(&self) -> (copy: Self)
        ensures
            copy == *self,
    {
        match self {
            Value::Void => Value::Void,
            Value::Length(v) => Value::Length(*v),
            Value::Duration(v) => Value::Duration(*v),
            Value::Angle(v) => Value::Angle(*v),
            Value::Frequency(v) => Value::Frequency(*v),
            Value::Color(v) => Value::Color(*v),
            Value::Image(v) => Value::Image(v.clone()),
            Value::BorderWidth(v) => Value::BorderWidth(*v),
            Value::BorderStyle(v) => Value::BorderStyle(*v),
            Value::Position(v) => Value::Position(*v),
            Value::Display(v) => Value::Display(*v),
            Value::AlignContent(v) => Value::AlignContent(*v),
            Value::AlignItems(v) => Value::AlignItems(*v),
            Value::AlignSelf(v) => Value::AlignSelf(*v),
            Value::AlignmentBaseline(v) => Value::AlignmentBaseline(*v),
            Value::Float(v) => Value::Float(*v),
        }
    }
}

impl IntoCss for Value {
    open spec fn renderable(&self) -> bool {
        match self {
            Value::Image(v) => v.renderable(),
            _ => true,
        }
    }

    open spec fn css(&self) -> Seq<char> {
        match self {
            Value::Void => Seq::empty(),
            Value::Length(v) => v.css(),
            Value::Duration(v) => v.css(),
            Value::Angle(v) => v.css(),
            Value::Frequency(v) => v.css(),
            Value::Color(v) => v.css(),
            Value::Image(v) => v.css(),
            Value::BorderWidth(v) => v.css(),
            Value::BorderStyle(v) => v.css(),
            Value::Position(v) => v.css(),
            Value::Display(v) => v.css(),
            Value::AlignContent(v) => v.css(),
            Value::AlignItems(v) => v.css(),
            Value::AlignSelf(v) => v.css(),
            Value::AlignmentBaseline(v) => v.css(),
            Value::Float(v) => v.css(),
        }
    }

    fn into_css(self) -> (text: String) {
        self.render()
    }
}

/// What a caller may write for a value: a plain number, a tuple of
/// color channels, a color name, a link, or a value that is typed
/// already.
#[derive(Debug, PartialEq, Eq)]
pub enum Input {
    /// A whole number: a count of the kind's natural unit.
    Integer(i64),
    /// A fraction: a share, read as each kind defines.
    Fraction(Decimal),
    /// Red, green and blue.
    Rgb(u8, u8, u8),
    /// Red, green, blue and opacity.
    Rgba(u8, u8, u8, Decimal),
    Named(NamedColor),
    Link(Url),
    Typed(Value),
}

impl Input {
    /// The value of kind `kind` that the input is read as, if there is
    /// one.
    ///
    /// A whole number is pixels for a length or a border width,
    /// milliseconds for a duration and degrees for an angle. A fraction
    /// is a percentage for a length (`0.4` is `40%`), seconds as they
    /// are for a duration, and radians times a hundred for an angle.
    /// Channel tuples and names are colors, a link is an image, a typed
    /// length is a border width, and a typed value of the kind itself
    /// stays as it is.
    pub open spec fn coerced(self, kind: Kind) -> Option<Value> {
        match (kind, self) {
            (Kind::Length, Input::Integer(n)) => Some(
                Value::Length(Length::Px(Decimal::of_integer(n))),
            ),
            (Kind::Length, Input::Fraction(f)) => match Length::of_fraction(f) {
                Some(length) => Some(Value::Length(length)),
                None => None,
            },
            (Kind::Duration, Input::Integer(n)) => Some(
                Value::Duration(Duration::Ms(Decimal::of_integer(n))),
            ),
            (Kind::Duration, Input::Fraction(f)) => Some(Value::Duration(Duration::S(f))),
            (Kind::Angle, Input::Integer(n)) => Some(
                Value::Angle(Angle::Deg(Decimal::of_integer(n))),
            ),
            (Kind::Angle, Input::Fraction(f)) => match Angle::of_fraction(f) {
                Some(angle) => Some(Value::Angle(angle)),
                None => None,
            },
            (Kind::BorderWidth, Input::Integer(n)) => Some(
                Value::BorderWidth(BorderWidth::Custom(Length::Px(Decimal::of_integer(n)))),
            ),
            (Kind::BorderWidth, Input::Typed(Value::Length(length))) => Some(
                Value::BorderWidth(BorderWidth::Custom(length)),
            ),
            (Kind::Color, Input::Rgb(r, g, b)) => Some(Value::Color(Color::RGB(r, g, b))),
            (Kind::Color, Input::Rgba(r, g, b, a)) => Some(Value::Color(Color::RGBA(r, g, b, a))),
            (Kind::Color, Input::Named(name)) => Some(Value::Color(Color::Named(name))),
            (Kind::Image, Input::Link(link)) => Some(Value::Image(Image::Url(link))),
            (_, Input::Typed(value)) => if value.kind() == kind && value.renderable() {
                Some(value)
            } else {
                None
            },
            _ => None,
        }
    }

    /// Reads the input as a value of kind `kind`.
    pub fn coerce(&self, kind: Kind) -> (value: Option<Value>)
        ensures
            value == self.coerced(kind),
    {
        match self {
            Input::Integer(n) => match kind {
                Kind::Length => Some(Value::Length(Length::from(*n))),
                Kind::Duration => Some(Value::Duration(Duration::from(*n))),
                Kind::Angle => Some(Value::Angle(Angle::from(*n))),
                Kind::BorderWidth => Some(Value::BorderWidth(BorderWidth::from(*n))),
                _ => None,
            },
            Input::Fraction(f) => match kind {
                Kind::Length => match Length::from_fraction(*f) {
                    Some(length) => Some(Value::Length(length)),
                    None => None,
                },
                Kind::Duration => Some(Value::Duration(Duration::from(*f))),
                Kind::Angle => match Angle::from_fraction(*f) {
                    Some(angle) => Some(Value::Angle(angle)),
                    None => None,
                },
                _ => None,
            },
            Input::Rgb(r, g, b) => match kind {
                Kind::Color => Some(Value::Color(Color::from((*r, *g, *b)))),
                _ => None,
            },
            Input::Rgba(r, g, b, a) => match kind {
                Kind::Color => Some(Value::Color(Color::from((*r, *g, *b, *a)))),
                _ => None,
            },
            Input::Named(name) => match kind {
                Kind::Color => Some(Value::Color(Color::from(*name))),
                _ => None,
            },
            Input::Link(link) => match kind {
                Kind::Image => Some(Value::Image(Image::from(link.clone()))),
                _ => None,
            },
            Input::Typed(value) => {
                match (kind, value) {
                    (Kind::BorderWidth, Value::Length(length)) => Some(
                        Value::BorderWidth(BorderWidth::from(*length)),
                    ),
                    _ => if value.kind_of() == kind && value.can_render() {
                        Some(value.clone())
                    } else {
                        None
                    },
                }
            },
        }
    }
}

/// Every value that has a text, but for the one of the kind without
/// values of its own, has a text that is not empty.
pub proof fn lemma_value_text_nonempty(value: Value)
    requires
        value.renderable(),
        !(value is Void),
    ensures
        value.css().len() > 0,
{
    match value {
        Value::Void => {},
        Value::Length(v) => lemma_length_text_nonempty(v),
        Value::Duration(v) => lemma_duration_text_nonempty(v),
        Value::Angle(v) => lemma_angle_text_nonempty(v),
        Value::Frequency(v) => lemma_frequency_text_nonempty(v),
        Value::Color(v) => lemma_color_text_nonempty(v),
        Value::Image(v) => {
            if let Image::Url(link) = v {
                lemma_url_text_nonempty(link);
            }
        },
        Value::BorderWidth(v) => lemma_border_width_text_nonempty(v),
        Value::BorderStyle(v) => lemma_border_style_text_nonempty(v),
        Value::Position(v) => lemma_position_text_nonempty(v),
        Value::Display(v) => lemma_display_text_nonempty(v),
        Value::AlignContent(v) => lemma_align_content_text_nonempty(v),
        Value::AlignItems(v) => lemma_align_items_text_nonempty(v),
        Value::AlignSelf(v) => lemma_align_self_text_nonempty(v),
        Value::AlignmentBaseline(v) => lemma_alignment_baseline_text_nonempty(v),
        Value::Float(v) => lemma_float_text_nonempty(v),
    }
}

} // verus!
