//! Numbers with a unit: lengths, angles, durations and frequencies.

use vstd::prelude::*;
use super::number::Decimal;
use super::IntoCss;

verus! {

/// A distance, absolute or relative.
#[derive(Clone, Copy, Debug, PartialEq, Eq, Structural)]
pub enum Length {
    Percent(Decimal),
    /// font size of the element
    Em(Decimal),
    /// x-height of the element's font
    Ex(Decimal),
    /// width of the "0" glyph in the element's font
    Ch(Decimal),
    /// font size of the root element
    Rem(Decimal),
    /// 1% of the viewport's width
    Vw(Decimal),
    /// 1% of the viewport's height
    Vh(Decimal),
    /// 1% of the viewport's smaller dimension
    Vmin(Decimal),
    /// 1% of the viewport's larger dimension
    Vmax(Decimal),
    /// centimeters; 1cm = 96px/2.54
    Cm(Decimal),
    /// millimeters; 1mm = 1/10th of 1cm
    Mm(Decimal),
    /// quarter-millimeters; 1Q = 1/40th of 1cm
    Q(Decimal),
    /// inches; 1in = 2.54cm = 96px
    In(Decimal),
    /// picas; 1pc = 1/6th of 1in
    Pc(Decimal),
    /// points; 1pt = 1/72th of 1in
    Pt(Decimal),
    /// pixels; 1px = 1/96th of 1in
    Px(Decimal),
}

impl Length {
    /// The number in front of the unit.
    pub open spec fn magnitude(self) -> Decimal {
        match self {
            Length::Percent(n) => n,
            Length::Em(n) => n,
            Length::Ex(n) => n,
            Length::Ch(n) => n,
            Length::Rem(n) => n,
            Length::Vw(n) => n,
            Length::Vh(n) => n,
            Length::Vmin(n) => n,
            Length::Vmax(n) => n,
            Length::Cm(n) => n,
            Length::Mm(n) => n,
            Length::Q(n) => n,
            Length::In(n) => n,
            Length::Pc(n) => n,
            Length::Pt(n) => n,
            Length::Px(n) => n,
        }
    }

    /// The unit suffix.
    pub open spec fn unit(self) -> Seq<char> {
        match self {
            Length::Percent(_) => "%"@,
            Length::Em(_) => "em"@,
            Length::Ex(_) => "ex"@,
            Length::Ch(_) => "ch"@,
            Length::Rem(_) => "rem"@,
            Length::Vw(_) => "vw"@,
            Length::Vh(_) => "vh"@,
            Length::Vmin(_) => "vmin"@,
            Length::Vmax(_) => "vmax"@,
            Length::Cm(_) => "cm"@,
            Length::Mm(_) => "mm"@,
            Length::Q(_) => "q"@,
            Length::In(_) => "in"@,
            Length::Pc(_) => "pc"@,
            Length::Pt(_) => "pt"@,
            Length::Px(_) => "px"@,
        }
    }

    /// The length that a fraction stands for: that share of the whole,
    /// as a percentage.
    pub open spec fn of_fraction(fraction: Decimal) -> Option<Length> {
        match fraction.hundredfold() {
            Some(percent) => Some(Length::Percent(percent)),
            None => None,
        }
    }

    /// Reads a fraction as a percentage: `0.4` is `40%`. There is no
    /// result where the percentage has too many digits.
    pub fn from_fraction(fraction: Decimal) -> (length: Option<Length>)
        ensures
            length == Length::of_fraction(fraction),
    {
        match fraction.times_hundred() {
            Some(percent) => Some(Length::Percent(percent)),
            None => None,
        }
    }
}

/// The text of a value with a unit is never empty.
pub proof fn lemma_length_text_nonempty(value: Length)
    ensures
        value.css().len() > 0,
{
    value.magnitude().lemma_text_nonempty();
}

impl IntoCss for Length {
    open spec fn renderable(&self) -> bool {
        true
    }

    open spec fn css(&self) -> Seq<char> {
        self.magnitude().text() + self.unit()
    }

    fn into_css(self) -> (text: String) {
        let (number, unit) = match self {
            Length::Percent(n) => (n, "%"),
            Length::Em(n) => (n, "em"),
            Length::Ex(n) => (n, "ex"),
            Length::Ch(n) => (n, "ch"),
            Length::Rem(n) => (n, "rem"),
            Length::Vw(n) => (n, "vw"),
            Length::Vh(n) => (n, "vh"),
            Length::Vmin(n) => (n, "vmin"),
            Length::Vmax(n) => (n, "vmax"),
            Length::Cm(n) => (n, "cm"),
            Length::Mm(n) => (n, "mm"),
            Length::Q(n) => (n, "q"),
            Length::In(n) => (n, "in"),
            Length::Pc(n) => (n, "pc"),
            Length::Pt(n) => (n, "pt"),
            Length::Px(n) => (n, "px"),
        };
        let mut text = number.render();
        text.append(unit);
        text
    }
}

/// A whole number is a number of pixels.
impl From<i64> for Length {
    fn from(size: i64) -> (length: Self) {
        Length::Px(Decimal::from_integer(size))
    }
}

impl vstd::std_specs::convert::FromSpecImpl<i64> for Length {
    open spec fn obeys_from_spec() -> bool {
        true
    }

    open spec fn from_spec(size: i64) -> Self {
        Length::Px(Decimal::of_integer(size))
    }
}

/// An angle of rotation.
#[derive(Clone, Copy, Debug, PartialEq, Eq, Structural)]
pub enum Angle {
    Percent(Decimal),
    /// Degrees. There are 360 degrees in a full circle.
    Deg(Decimal),
    /// Gradians. There are 400 gradians in a full circle.
    Grad(Decimal),
    /// Radians. There are 2π radians in a full circle.
    Rad(Decimal),
    /// Turns. There is 1 turn in a full circle.
    Turn(Decimal),
}

impl Angle {
    /// The number in front of the unit.
    pub open spec fn magnitude(self) -> Decimal {
        match self {
            Angle::Percent(n) => n,
            Angle::Deg(n) => n,
            Angle::Grad(n) => n,
            Angle::Rad(n) => n,
            Angle::Turn(n) => n,
        }
    }

    /// The unit suffix.
    pub open spec fn unit(self) -> Seq<char> {
        match self {
            Angle::Percent(_) => "%"@,
            Angle::Deg(_) => "deg"@,
            Angle::Grad(_) => "grad"@,
            Angle::Rad(_) => "rad"@,
            Angle::Turn(_) => "turn"@,
        }
    }

    /// The angle that a fraction stands for: a hundred times as many
    /// radians.
    pub open spec fn of_fraction(fraction: Decimal) -> Option<Angle> {
        match fraction.hundredfold() {
            Some(radians) => Some(Angle::Rad(radians)),
            None => None,
        }
    }

    /// Reads a fraction as radians, scaled by a hundred. There is no
    /// result where the scaled number has too many digits.
    pub fn from_fraction(fraction: Decimal) -> (angle: Option<Angle>)
        ensures
            angle == Angle::of_fraction(fraction),
    {
        match fraction.times_hundred() {
            Some(radians) => Some(Angle::Rad(radians)),
            None => None,
        }
    }
}

/// The text of a value with a unit is never empty.
pub proof fn lemma_angle_text_nonempty(value: Angle)
    ensures
        value.css().len() > 0,
{
    value.magnitude().lemma_text_nonempty();
}

impl IntoCss for Angle {
    open spec fn renderable(&self) -> bool {
        true
    }

    open spec fn css(&self) -> Seq<char> {
        self.magnitude().text() + self.unit()
    }

    fn into_css(self) -> (text: String) {
        let (number, unit) = match self {
            Angle::Percent(n) => (n, "%"),
            Angle::Deg(n) => (n, "deg"),
            Angle::Grad(n) => (n, "grad"),
            Angle::Rad(n) => (n, "rad"),
            Angle::Turn(n) => (n, "turn"),
        };
        let mut text = number.render();
        text.append(unit);
        text
    }
}

/// A whole number is a number of degrees.
impl From<i64> for Angle {
    fn from(size: i64) -> (angle: Self) {
        Angle::Deg(Decimal::from_integer(size))
    }
}

impl vstd::std_specs::convert::FromSpecImpl<i64> for Angle {
    open spec fn obeys_from_spec() -> bool {
        true
    }

    open spec fn from_spec(size: i64) -> Self {
        Angle::Deg(Decimal::of_integer(size))
    }
}

/// A span of time.
#[derive(Clone, Copy, Debug, PartialEq, Eq, Structural)]
pub enum Duration {
    Percent(Decimal),
    /// Seconds.
    S(Decimal),
    /// Milliseconds. There are 1000 milliseconds in a second.
    Ms(Decimal),
}

impl Duration {
    /// The number in front of the unit.
    pub open spec fn magnitude(self) -> Decimal {
        match self {
            Duration::Percent(n) => n,
            Duration::S(n) => n,
            Duration::Ms(n) => n,
        }
    }

    /// The unit suffix.
    pub open spec fn unit(self) -> Seq<char> {
        match self {
            Duration::Percent(_) => "%"@,
            Duration::S(_) => "s"@,
            Duration::Ms(_) => "ms"@,
        }
    }
}

/// The text of a value with a unit is never empty.
pub proof fn lemma_duration_text_nonempty(value: Duration)
    ensures
        value.css().len() > 0,
{
    value.magnitude().lemma_text_nonempty();
}

impl IntoCss for Duration {
    open spec fn renderable(&self) -> bool {
        true
    }

    open spec fn css(&self) -> Seq<char> {
        self.magnitude().text() + self.unit()
    }

    fn into_css(self) -> (text: String) {
        let (number, unit) = match self {
            Duration::Percent(n) => (n, "%"),
            Duration::S(n) => (n, "s"),
            Duration::Ms(n) => (n, "ms"),
        };
        let mut text = number.render();
        text.append(unit);
        text
    }
}

/// A whole number is a number of milliseconds.
impl From<i64> for Duration {
    fn from(size: i64) -> (duration: Self) {
        Duration::Ms(Decimal::from_integer(size))
    }
}

impl vstd::std_specs::convert::FromSpecImpl<i64> for Duration {
    open spec fn obeys_from_spec() -> bool {
        true
    }

    open spec fn from_spec(size: i64) -> Self {
        Duration::Ms(Decimal::of_integer(size))
    }
}

/// A fraction is a number of seconds, taken as it is.
impl From<Decimal> for Duration {
    fn from(size: Decimal) -> (duration: Self) {
        Duration::S(size)
    }
}

impl vstd::std_specs::convert::FromSpecImpl<Decimal> for Duration {
    open spec fn obeys_from_spec() -> bool {
        true
    }

    open spec fn from_spec(size: Decimal) -> Self {
        Duration::S(size)
    }
}

/// A rate of occurrences.
#[derive(Clone, Copy, Debug, PartialEq, Eq, Structural)]
pub enum Frequency {
    Percent(Decimal),
    /// Hertz: occurrences per second.
    Hz(Decimal),
    /// Kilohertz: a thousand hertz.
    KHz(Decimal),
}

impl Frequency {
    /// The number in front of the unit.
    pub open spec fn magnitude(self) -> Decimal {
        match self {
            Frequency::Percent(n) => n,
            Frequency::Hz(n) => n,
            Frequency::KHz(n) => n,
        }
    }

    /// The unit suffix.
    pub open spec fn unit(self) -> Seq<char> {
        match self {
            Frequency::Percent(_) => "%"@,
            Frequency::Hz(_) => "hz"@,
            Frequency::KHz(_) => "khz"@,
        }
    }
}

/// The text of a value with a unit is never empty.
pub proof fn lemma_frequency_text_nonempty(value: Frequency)
    ensures
        value.css().len() > 0,
{
    value.magnitude().lemma_text_nonempty();
}

impl IntoCss for Frequency {
    open spec fn renderable(&self) -> bool {
        true
    }

    open spec fn css(&self) -> Seq<char> {
        self.magnitude().text() + self.unit()
    }

    fn into_css(self) -> (text: String) {
        let (number, unit) = match self {
            Frequency::Percent(n) => (n, "%"),
            Frequency::Hz(n) => (n, "hz"),
            Frequency::KHz(n) => (n, "khz"),
        };
        let mut text = number.render();
        text.append(unit);
        text
    }
}

} // verus!
