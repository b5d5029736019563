use yewcss::style::border::{BorderStyle, BorderWidth};
use yewcss::style::color::{Color, NamedColor};
use yewcss::style::image::Image;
use yewcss::style::number::Decimal;
use yewcss::style::quantities::{Angle, Duration, Frequency, Length};
use yewcss::style::url::{InvalidUrl, Url};
use yewcss::style::value::{Input, Kind, Value};
use yewcss::style::{
    AlignContent, AlignItems, AlignSelf, AlignmentBaseline, Display, Float, IntoCss, Position,
};

fn n(digits: u64, scale: u8) -> Decimal {
    Decimal::new(false, digits, scale)
}

#[test]
fn every_length_unit_has_its_suffix() {
    assert_eq!(Length::Percent(n(40, 0)).into_css(), "40%");
    assert_eq!(Length::Em(n(15, 1)).into_css(), "1.5em");
    assert_eq!(Length::Ex(n(2, 0)).into_css(), "2ex");
    assert_eq!(Length::Ch(n(3, 0)).into_css(), "3ch");
    assert_eq!(Length::Rem(n(125, 2)).into_css(), "1.25rem");
    assert_eq!(Length::Vw(n(50, 0)).into_css(), "50vw");
    assert_eq!(Length::Vh(n(100, 0)).into_css(), "100vh");
    assert_eq!(Length::Vmin(n(1, 0)).into_css(), "1vmin");
    assert_eq!(Length::Vmax(n(2, 0)).into_css(), "2vmax");
    assert_eq!(Length::Cm(n(254, 2)).into_css(), "2.54cm");
    assert_eq!(Length::Mm(n(10, 0)).into_css(), "10mm");
    assert_eq!(Length::Q(n(4, 0)).into_css(), "4q");
    assert_eq!(Length::In(n(1, 0)).into_css(), "1in");
    assert_eq!(Length::Pc(n(6, 0)).into_css(), "6pc");
    assert_eq!(Length::Pt(n(72, 0)).into_css(), "72pt");
    assert_eq!(Length::Px(n(96, 0)).into_css(), "96px");
    assert_eq!(Length::Px(Decimal::new(true, 5, 1)).into_css(), "-0.5px");
}

#[test]
fn whole_numbers_are_pixels_and_fractions_are_percentages() {
    assert_eq!(Length::from(150), Length::Px(n(150, 0)));
    assert_eq!(Length::from(150).into_css(), "150px");
    assert_eq!(Length::from(-3).into_css(), "-3px");
    assert_eq!(Length::from_fraction(n(4, 1)), Some(Length::Percent(n(40, 0))));
    assert_eq!(Length::from_fraction(n(4, 1)).unwrap().into_css(), "40%");
    assert_eq!(Length::from_fraction(n(25, 2)).unwrap().into_css(), "25%");
    assert_eq!(Length::from_fraction(n(1, 0)).unwrap().into_css(), "100%");
    assert_eq!(Length::from_fraction(n(u64::MAX, 0)), None);
}

#[test]
fn durations_read_whole_numbers_as_milliseconds_and_fractions_as_seconds() {
    assert_eq!(Duration::from(250), Duration::Ms(n(250, 0)));
    assert_eq!(Duration::from(250).into_css(), "250ms");
    assert_eq!(Duration::from(n(5, 1)), Duration::S(n(5, 1)));
    assert_eq!(Duration::from(n(5, 1)).into_css(), "0.5s");
    assert_eq!(Duration::Percent(n(10, 0)).into_css(), "10%");
}

#[test]
fn angles_read_whole_numbers_as_degrees_and_fractions_as_scaled_radians() {
    assert_eq!(Angle::from(90), Angle::Deg(n(90, 0)));
    assert_eq!(Angle::from(90).into_css(), "90deg");
    assert_eq!(Angle::from_fraction(n(5, 1)), Some(Angle::Rad(n(50, 0))));
    assert_eq!(Angle::from_fraction(n(5, 1)).unwrap().into_css(), "50rad");
    assert_eq!(Angle::from_fraction(n(u64::MAX, 1)), None);
    assert_eq!(Angle::Grad(n(100, 0)).into_css(), "100grad");
    assert_eq!(Angle::Turn(n(25, 2)).into_css(), "0.25turn");
    assert_eq!(Angle::Percent(n(5, 0)).into_css(), "5%");
}

#[test]
fn frequencies_have_their_suffix() {
    assert_eq!(Frequency::Hz(n(440, 0)).into_css(), "440hz");
    assert_eq!(Frequency::KHz(n(441, 1)).into_css(), "44.1khz");
    assert_eq!(Frequency::Percent(n(1, 0)).into_css(), "1%");
}

#[test]
fn rgba_renders_exactly() {
    assert_eq!(Color::RGBA(0, 0, 255, n(5, 1)).into_css(), "rgba(0, 0, 255, 0.5)");
    assert_eq!(Color::from((0, 0, 255, n(5, 1))).into_css(), "rgba(0, 0, 255, 0.5)");
    assert_eq!(Color::RGBA(1, 20, 255, n(1, 0)).into_css(), "rgba(1, 20, 255, 1)");
}

#[test]
fn colors_render_by_variant() {
    assert_eq!(Color::RGB(255, 0, 7).into_css(), "rgb(255, 0, 7)");
    assert_eq!(Color::from((12, 34, 56)), Color::RGB(12, 34, 56));
    assert_eq!(Color::Transparent.into_css(), "transparent");
    assert_eq!(Color::Named(NamedColor::Red).into_css(), "red");
    assert_eq!(Color::from(NamedColor::Lightgoldenrodyellow).into_css(), "lightgoldenrodyellow");
}

#[test]
fn named_colors_resolve_to_their_channels() {
    assert_eq!(NamedColor::Red.to_rgb(), Color::RGB(255, 0, 0));
    assert_eq!(NamedColor::Aliceblue.to_rgb(), Color::RGB(240, 248, 255));
    assert_eq!(NamedColor::Yellowgreen.to_rgb(), Color::RGB(154, 205, 50));
    assert_eq!(NamedColor::Rosybrown.to_rgb(), Color::RGB(188, 143, 143));
    assert_eq!(NamedColor::Blue.to_rgba(), Color::RGBA(0, 0, 255, n(1, 0)));
    assert_eq!(NamedColor::Blue.to_rgba().into_css(), "rgba(0, 0, 255, 1)");
    assert_eq!(NamedColor::Darkslategrey.keyword(), "darkslategrey");
}

#[test]
fn border_widths_are_words_or_lengths() {
    assert_eq!(BorderWidth::Thin.into_css(), "thin");
    assert_eq!(BorderWidth::Medium.into_css(), "medium");
    assert_eq!(BorderWidth::Thick.into_css(), "thick");
    assert_eq!(BorderWidth::Custom(Length::Em(n(2, 0))).into_css(), "2em");
    assert_eq!(BorderWidth::from(5), BorderWidth::Custom(Length::Px(n(5, 0))));
    assert_eq!(BorderWidth::from(Length::Pt(n(1, 0))).into_css(), "1pt");
}

#[test]
fn keywords_are_lower_case_words() {
    assert_eq!(BorderStyle::Absent.into_css(), "none");
    assert_eq!(BorderStyle::Dotted.into_css(), "dotted");
    assert_eq!(BorderStyle::Outset.into_css(), "outset");
    assert_eq!(Position::Absolute.into_css(), "absolute");
    assert_eq!(Float::Left.into_css(), "left");
    assert_eq!(Float::Right.into_css(), "right");
    assert_eq!(AlignItems::Baseline.into_css(), "baseline");
    assert_eq!(AlignSelf::Auto.into_css(), "auto");
    assert_eq!(AlignmentBaseline::Mathematical.into_css(), "mathematical");
    assert_eq!(Display::Block.into_css(), "block");
    assert_eq!(Display::Absent.into_css(), "none");
}

#[test]
fn keywords_of_several_words_are_hyphenated() {
    assert_eq!(Display::ListItem.into_css(), "list-item");
    assert_eq!(Display::InlineBlock.into_css(), "inline-block");
    assert_eq!(Display::TableHeaderGroup.into_css(), "table-header-group");
    assert_eq!(Display::TableCaption.into_css(), "table-caption");
    assert_eq!(AlignContent::FlexStart.into_css(), "flex-start");
    assert_eq!(AlignContent::SpaceBetween.into_css(), "space-between");
    assert_eq!(AlignItems::FlexEnd.into_css(), "flex-end");
    assert_eq!(AlignSelf::FlexStart.into_css(), "flex-start");
    assert_eq!(AlignmentBaseline::TextBottom.into_css(), "text-bottom");
    assert_eq!(AlignmentBaseline::TextTop.into_css(), "text-top");
}

#[test]
fn urls_are_parsed_and_normalized() {
    let link = Url::parse("HTTP://Example.COM").unwrap();
    assert_eq!(link.as_str(), "http://example.com/");
    let link = Url::parse("https://picsum.photos/200/300").unwrap();
    assert_eq!(link.as_str(), "https://picsum.photos/200/300");
    let link = Url::parse("https://example.com/a b").unwrap();
    assert_eq!(link.as_str(), "https://example.com/a%20b");
}

#[test]
fn texts_that_are_no_absolute_url_are_turned_down() {
    assert_eq!(Url::parse("not a url"), Err(InvalidUrl));
    assert_eq!(Url::parse(""), Err(InvalidUrl));
    assert_eq!(Url::parse("/relative/path"), Err(InvalidUrl));
    assert_eq!(Url::parse("https://"), Err(InvalidUrl));
}

#[test]
fn urls_render_quoted_in_a_url_call() {
    let link = Url::parse("https://picsum.photos/200/300").unwrap();
    assert_eq!(link.render(), "url(\"https://picsum.photos/200/300\")");
    assert_eq!(link.clone().into_css(), "url(\"https://picsum.photos/200/300\")");
    let image = Image::from(link);
    assert!(matches!(image, Image::Url(_)));
    assert_eq!(image.render(), "url(\"https://picsum.photos/200/300\")");
    assert_eq!(image.clone(), image);
    assert_eq!(image.into_css(), "url(\"https://picsum.photos/200/300\")");
}

#[test]
fn values_know_their_kind_and_render_as_what_they_hold() {
    let length = Value::Length(Length::from(3));
    assert_eq!(length.kind_of(), Kind::Length);
    assert!(length.can_render());
    assert_eq!(length.render(), "3px");
    assert_eq!(length.clone(), length);
    assert_eq!(Value::Void.kind_of(), Kind::Void);
    assert_eq!(Value::Void.into_css(), "");
    assert_eq!(Value::Float(Float::Left).kind_of(), Kind::Float);
    assert_eq!(Value::Float(Float::Left).into_css(), "left");
    assert_eq!(Value::Color(Color::Transparent).kind_of(), Kind::Color);
    assert_eq!(Value::Duration(Duration::from(1)).into_css(), "1ms");
    assert_eq!(Value::Angle(Angle::from(1)).into_css(), "1deg");
    assert_eq!(Value::Frequency(Frequency::Hz(n(1, 0))).into_css(), "1hz");
    assert_eq!(Value::BorderWidth(BorderWidth::Thin).into_css(), "thin");
    assert_eq!(Value::Position(Position::Fixed).into_css(), "fixed");
    assert_eq!(Value::Display(Display::Table).kind_of(), Kind::Display);
}

#[test]
fn integers_are_read_as_the_natural_unit_of_the_kind() {
    assert_eq!(Input::Integer(150).coerce(Kind::Length), Some(Value::Length(Length::Px(n(150, 0)))));
    assert_eq!(Input::Integer(20).coerce(Kind::Duration), Some(Value::Duration(Duration::Ms(n(20, 0)))));
    assert_eq!(Input::Integer(45).coerce(Kind::Angle), Some(Value::Angle(Angle::Deg(n(45, 0)))));
    assert_eq!(
        Input::Integer(5).coerce(Kind::BorderWidth),
        Some(Value::BorderWidth(BorderWidth::Custom(Length::Px(n(5, 0)))))
    );
    assert_eq!(Input::Integer(5).coerce(Kind::Color), None);
    assert_eq!(Input::Integer(5).coerce(Kind::Frequency), None);
    assert_eq!(Input::Integer(5).coerce(Kind::Void), None);
    assert_eq!(Input::Integer(5).coerce(Kind::Todo), None);
}

#[test]
fn fractions_are_read_as_each_kind_defines() {
    let f = Input::Fraction(n(4, 1));
    assert_eq!(f.coerce(Kind::Length), Some(Value::Length(Length::Percent(n(40, 0)))));
    assert_eq!(f.coerce(Kind::Duration), Some(Value::Duration(Duration::S(n(4, 1)))));
    assert_eq!(f.coerce(Kind::Angle), Some(Value::Angle(Angle::Rad(n(40, 0)))));
    assert_eq!(f.coerce(Kind::BorderWidth), None);
    assert_eq!(f.coerce(Kind::Color), None);
    assert_eq!(Input::Fraction(n(u64::MAX, 0)).coerce(Kind::Length), None);
    assert_eq!(Input::Fraction(n(u64::MAX, 0)).coerce(Kind::Angle), None);
}

#[test]
fn tuples_and_names_are_read_as_colors() {
    assert_eq!(Input::Rgb(1, 2, 3).coerce(Kind::Color), Some(Value::Color(Color::RGB(1, 2, 3))));
    assert_eq!(
        Input::Rgba(1, 2, 3, n(5, 1)).coerce(Kind::Color),
        Some(Value::Color(Color::RGBA(1, 2, 3, n(5, 1))))
    );
    assert_eq!(
        Input::Named(NamedColor::Teal).coerce(Kind::Color),
        Some(Value::Color(Color::Named(NamedColor::Teal)))
    );
    assert_eq!(Input::Rgb(1, 2, 3).coerce(Kind::Length), None);
    assert_eq!(Input::Rgba(1, 2, 3, n(5, 1)).coerce(Kind::Image), None);
    assert_eq!(Input::Named(NamedColor::Teal).coerce(Kind::BorderStyle), None);
}

#[test]
fn links_are_read_as_images() {
    let link = Url::parse("https://example.com/a.png").unwrap();
    let value = Input::Link(link.clone()).coerce(Kind::Image);
    assert_eq!(value, Some(Value::Image(Image::Url(link.clone()))));
    assert_eq!(value.unwrap().into_css(), "url(\"https://example.com/a.png\")");
    assert_eq!(Input::Link(link).coerce(Kind::Color), None);
}

#[test]
fn typed_values_pass_through_for_their_own_kind_only() {
    let style = Value::BorderStyle(BorderStyle::Dashed);
    assert_eq!(Input::Typed(style.clone()).coerce(Kind::BorderStyle), Some(style.clone()));
    assert_eq!(Input::Typed(style).coerce(Kind::Display), None);
    let length = Length::Em(n(2, 0));
    assert_eq!(
        Input::Typed(Value::Length(length)).coerce(Kind::Length),
        Some(Value::Length(length))
    );
    assert_eq!(
        Input::Typed(Value::Length(length)).coerce(Kind::BorderWidth),
        Some(Value::BorderWidth(BorderWidth::Custom(length)))
    );
    assert_eq!(Input::Typed(Value::Void).coerce(Kind::Void), Some(Value::Void));
    assert_eq!(Input::Typed(Value::Void).coerce(Kind::Todo), None);
    assert_eq!(Input::Typed(Value::Float(Float::Left)).coerce(Kind::Todo), None);
}
