use yewcss::style::block::{assemble, field_text, group_is_unset, render_group, CssBlock, CssError};
use yewcss::style::border::{BorderStyle, BorderWidth};
use yewcss::style::color::{Color, NamedColor};
use yewcss::style::number::Decimal;
use yewcss::style::quantities::Length;
use yewcss::style::schema::Syntax;
use yewcss::style::url::Url;
use yewcss::style::value::{Input, Value};
use yewcss::style::{CssField, Float};

fn fraction(digits: u64, scale: u8) -> Input {
    Input::Fraction(Decimal::new(false, digits, scale))
}

fn px(size: i64) -> CssField<Value> {
    CssField::Explicit(Value::Length(Length::from(size)))
}

fn declared(property: &str, inputs: &[Input]) -> CssBlock {
    let mut block = CssBlock::new();
    assert_eq!(block.declare(property, inputs), Ok(()));
    block
}

#[test]
fn a_block_with_nothing_declared_renders_empty() {
    assert_eq!(CssBlock::new().to_string(), "");
    assert_eq!(CssBlock::default().to_string(), "");
    assert_eq!(CssBlock::new().with(&CssBlock::new()).to_string(), "");
}

#[test]
fn integer_length_renders_in_pixels() {
    assert_eq!(declared("height", &[Input::Integer(150)]).to_string(), "height: 150px;");
    assert_eq!(declared("height", &[Input::Integer(150 + 10)]).to_string(), "height: 160px;");
}

#[test]
fn fraction_length_renders_as_percentage() {
    assert_eq!(declared("height", &[fraction(4, 1)]).to_string(), "height: 40%;");
    assert_eq!(declared("margin-right", &[fraction(25, 2)]).to_string(), "margin-right: 25%;");
}

#[test]
fn declarations_follow_the_catalogue_not_the_calls() {
    let mut block = CssBlock::new();
    assert_eq!(block.declare("width", &[Input::Integer(2)]), Ok(()));
    assert_eq!(block.declare("height", &[Input::Integer(1)]), Ok(()));
    assert_eq!(block.to_string(), "height: 1px;width: 2px;");
    let mut other = CssBlock::new();
    assert_eq!(other.declare("height", &[Input::Integer(1)]), Ok(()));
    assert_eq!(other.declare("width", &[Input::Integer(2)]), Ok(()));
    assert_eq!(other.to_string(), "height: 1px;width: 2px;");
    assert_eq!(block.get("width"), other.get("width"));
    assert_eq!(block.get("height"), other.get("height"));
}

#[test]
fn a_shorthand_with_one_input_leaves_the_other_slots_unset() {
    let block = declared("border", &[Input::Integer(5)]);
    let group = block.get("border").unwrap();
    assert_eq!(group.len(), 3);
    assert!(matches!(group[0], CssField::Explicit(Value::BorderWidth(_))));
    assert!(matches!(group[1], CssField::Unset));
    assert!(matches!(group[2], CssField::Unset));
    assert_eq!(block.to_string(), "border: 5px;");
}

#[test]
fn a_shorthand_with_fewer_inputs_than_slots_has_no_extra_spaces() {
    let block = declared(
        "border-radius",
        &[Input::Integer(50), Input::Integer(50), Input::Integer(50)],
    );
    assert_eq!(block.to_string(), "border-radius: 50px 50px 50px;");
    let group = block.get("border-radius").unwrap();
    assert_eq!(group.len(), 4);
    assert!(matches!(group[3], CssField::Unset));
    let block = declared(
        "border-top",
        &[Input::Integer(1), Input::Typed(Value::BorderStyle(BorderStyle::Solid))],
    );
    assert_eq!(block.to_string(), "border-top: 1px solid;");
    let block = declared(
        "border-radius",
        &[Input::Integer(1), fraction(5, 1), Input::Integer(3), Input::Integer(4)],
    );
    assert_eq!(block.to_string(), "border-radius: 1px 50% 3px 4px;");
}

#[test]
fn later_declaration_overwrites_earlier() {
    let mut block = CssBlock::new();
    assert_eq!(block.declare("margin", &[Input::Integer(5)]), Ok(()));
    assert_eq!(block.declare("margin", &[Input::Integer(10)]), Ok(()));
    assert_eq!(block.to_string(), "margin: 10px;");
}

#[test]
fn a_later_shorter_declaration_clears_the_slots_it_does_not_fill() {
    let mut block = CssBlock::new();
    let full = [
        Input::Integer(5),
        Input::Typed(Value::BorderStyle(BorderStyle::Dotted)),
        Input::Named(NamedColor::Red),
    ];
    assert_eq!(block.declare("border", &full), Ok(()));
    assert_eq!(block.declare("border", &[Input::Integer(1)]), Ok(()));
    assert_eq!(block.to_string(), "border: 1px;");
}

#[test]
fn merge_keeps_what_the_left_block_declares() {
    let a = declared("margin", &[Input::Integer(5)]);
    let b = declared("margin", &[Input::Integer(10)]);
    assert_eq!(a.with(&b).to_string(), "margin: 5px;");
    assert_eq!(b.with(&a).to_string(), "margin: 10px;");
    assert_eq!(a.to_string(), "margin: 5px;");
    assert_eq!(b.to_string(), "margin: 10px;");
}

#[test]
fn merge_takes_from_the_right_block_what_the_left_leaves_unset() {
    let mut a = declared("margin", &[Input::Integer(5)]);
    let mut b = declared("margin", &[Input::Integer(10)]);
    assert_eq!(b.declare("padding", &[Input::Integer(20)]), Ok(()));
    assert_eq!(a.with(&b).to_string(), "margin: 5px;padding: 20px;");
    a.update(&b);
    assert_eq!(a.to_string(), "margin: 5px;padding: 20px;");
    a.update(&CssBlock::new());
    assert_eq!(a.to_string(), "margin: 5px;padding: 20px;");
    let mut empty = CssBlock::new();
    empty.update(&b);
    assert_eq!(empty.to_string(), b.to_string());
}

#[test]
fn merge_is_made_slot_by_slot() {
    let mut x = CssBlock::new();
    let mut y = CssBlock::new();
    assert_eq!(x.declare("border", &[Input::Integer(1)]), Ok(()));
    assert_eq!(
        y.declare(
            "border",
            &[
                Input::Integer(2),
                Input::Typed(Value::BorderStyle(BorderStyle::Dashed)),
                Input::Rgb(1, 2, 3),
            ],
        ),
        Ok(())
    );
    assert_eq!(x.declare("color", &[Input::Named(NamedColor::Navy)]), Ok(()));
    assert_eq!(y.declare("width", &[Input::Integer(9)]), Ok(()));
    let merged = x.with(&y);
    for property in ["border", "color", "width", "height"] {
        let ours = x.get(property).unwrap();
        let theirs = y.get(property).unwrap();
        let expected: Vec<CssField<Value>> =
            ours.into_iter().zip(theirs).map(|(a, b)| a.or(b)).collect();
        assert_eq!(format!("{:?}", merged.get(property).unwrap()), format!("{:?}", expected));
    }
    assert_eq!(merged.to_string(), "border: 1px dashed rgb(1, 2, 3);color: navy;width: 9px;");
}

#[test]
fn reset_and_inherit_count_as_set_in_a_merge() {
    let mut a = CssBlock::new();
    assert_eq!(a.set_field("margin", 0, CssField::Initial), Ok(()));
    assert_eq!(a.set_field("color", 0, CssField::Inherit), Ok(()));
    let mut b = declared("margin", &[Input::Integer(10)]);
    assert_eq!(b.declare("color", &[Input::Named(NamedColor::Red)]), Ok(()));
    assert_eq!(a.with(&b).to_string(), "color: inherit;margin: initial;");
    assert_eq!(b.with(&a).to_string(), "color: red;margin: 10px;");
}

#[test]
fn border_with_named_color() {
    let inputs = [
        Input::Integer(5),
        Input::Typed(Value::BorderStyle(BorderStyle::Dotted)),
        Input::Named(NamedColor::Red),
    ];
    assert_eq!(declared("border", &inputs).to_string(), "border: 5px dotted red;");
}

#[test]
fn rgba_tuple_renders_exactly() {
    let block = declared("color", &[Input::Rgba(0, 0, 255, Decimal::new(false, 5, 1))]);
    assert_eq!(block.to_string(), "color: rgba(0, 0, 255, 0.5);");
    let color = Color::RGBA(0, 0, 255, Decimal::new(false, 5, 1));
    let block = declared("color", &[Input::Typed(Value::Color(color))]);
    assert_eq!(block.to_string(), "color: rgba(0, 0, 255, 0.5);");
}

#[test]
fn unknown_property_is_a_schema_error() {
    let mut block = declared("margin", &[Input::Integer(5)]);
    assert_eq!(block.declare("no-such-property", &[Input::Integer(1)]), Err(CssError::Schema));
    assert_eq!(block.declare("border_radius", &[Input::Integer(1)]), Err(CssError::Schema));
    assert_eq!(block.declare("", &[]), Err(CssError::Schema));
    assert_eq!(block.to_string(), "margin: 5px;");
    assert_eq!(block.get("no-such-property"), None);
}

#[test]
fn too_many_or_no_inputs_are_an_arity_error() {
    let mut block = declared("margin", &[Input::Integer(5)]);
    assert_eq!(
        block.declare("margin", &[Input::Integer(1), Input::Integer(2)]),
        Err(CssError::Arity)
    );
    assert_eq!(block.declare("margin", &[]), Err(CssError::Arity));
    let four = [Input::Integer(1), Input::Integer(2), Input::Integer(3), Input::Integer(4)];
    assert_eq!(block.declare("border", &four), Err(CssError::Arity));
    let five = [
        Input::Integer(1),
        Input::Integer(2),
        Input::Integer(3),
        Input::Integer(4),
        Input::Integer(5),
    ];
    assert_eq!(block.declare("border-radius", &five), Err(CssError::Arity));
    assert_eq!(block.declare("margin", &[Input::Rgb(1, 2, 3), Input::Integer(2)]), Err(CssError::Arity));
    assert_eq!(block.to_string(), "margin: 5px;");
}

#[test]
fn an_input_of_the_wrong_kind_is_a_coercion_error() {
    let mut block = declared("margin", &[Input::Integer(5)]);
    assert_eq!(block.declare("margin", &[Input::Rgb(1, 2, 3)]), Err(CssError::Coercion));
    assert_eq!(block.declare("color", &[Input::Integer(1)]), Err(CssError::Coercion));
    assert_eq!(
        block.declare("margin", &[Input::Fraction(Decimal::new(false, u64::MAX, 0))]),
        Err(CssError::Coercion)
    );
    assert_eq!(
        block.declare("border", &[Input::Integer(1), Input::Integer(2)]),
        Err(CssError::Coercion)
    );
    assert_eq!(
        block.declare("float", &[Input::Typed(Value::BorderStyle(BorderStyle::Solid))]),
        Err(CssError::Coercion)
    );
    assert_eq!(block.to_string(), "margin: 5px;");
    assert_eq!(block.get("border").unwrap().len(), 3);
    assert!(group_is_unset(&block.get("border").unwrap()));
}

#[test]
fn a_property_without_defined_values_takes_no_input() {
    let mut block = CssBlock::new();
    assert_eq!(block.declare("animation", &[Input::Integer(1)]), Err(CssError::Coercion));
    assert_eq!(
        block.declare("position", &[Input::Typed(Value::Float(Float::Left))]),
        Err(CssError::Coercion)
    );
    assert_eq!(block.declare("all", &[Input::Integer(1)]), Err(CssError::Coercion));
    assert_eq!(block.to_string(), "");
    assert_eq!(block.set_field("animation", 0, CssField::Inherit), Ok(()));
    assert_eq!(block.set_field("all", 0, CssField::Initial), Ok(()));
    assert_eq!(block.to_string(), "all: initial;animation: inherit;");
    assert_eq!(block.declare("all", &[Input::Typed(Value::Void)]), Ok(()));
    assert_eq!(block.to_string(), "all: ;animation: inherit;");
}

#[test]
fn fields_are_put_at_a_position_of_a_group() {
    let mut block = CssBlock::new();
    assert_eq!(block.set_field("width", 0, px(3)), Ok(()));
    assert_eq!(block.to_string(), "width: 3px;");
    assert_eq!(block.set_field("width", 0, CssField::Initial), Ok(()));
    assert_eq!(block.to_string(), "width: initial;");
    assert_eq!(block.set_field("width", 0, CssField::Unset), Ok(()));
    assert_eq!(block.to_string(), "");
    let red = CssField::Explicit(Value::Color(Color::Named(NamedColor::Red)));
    assert_eq!(block.set_field("border", 2, red), Ok(()));
    assert_eq!(block.to_string(), "border: red;");
    let thin = CssField::Explicit(Value::BorderWidth(BorderWidth::Thin));
    assert_eq!(block.set_field("border", 0, thin), Ok(()));
    assert_eq!(block.to_string(), "border: thin red;");
    assert_eq!(block.set_field("border", 1, CssField::Inherit), Ok(()));
    assert_eq!(block.to_string(), "border: thin inherit red;");
}

#[test]
fn fields_that_do_not_fit_are_turned_down() {
    let mut block = declared("width", &[Input::Integer(3)]);
    assert_eq!(block.set_field("widht", 0, px(1)), Err(CssError::Schema));
    assert_eq!(block.set_field("width", 1, px(1)), Err(CssError::Arity));
    assert_eq!(block.set_field("border", 3, CssField::Initial), Err(CssError::Arity));
    assert_eq!(block.set_field("color", 0, px(1)), Err(CssError::Coercion));
    assert_eq!(block.set_field("border", 1, px(1)), Err(CssError::Coercion));
    assert_eq!(block.set_field("animation", 0, px(1)), Err(CssError::Coercion));
    assert_eq!(block.to_string(), "width: 3px;");
}

#[test]
fn a_copy_of_a_block_is_independent() {
    let first = declared("margin", &[Input::Integer(5)]);
    let mut copy = first.clone();
    assert_eq!(copy.to_string(), "margin: 5px;");
    assert_eq!(copy.declare("margin", &[Input::Integer(6)]), Ok(()));
    assert_eq!(copy.declare("padding", &[Input::Integer(7)]), Ok(()));
    assert_eq!(copy.to_string(), "margin: 6px;padding: 7px;");
    assert_eq!(first.to_string(), "margin: 5px;");
}

#[test]
fn groups_are_made_from_inputs() {
    let group = assemble(Syntax::Border, &[Input::Integer(5)]).unwrap();
    assert_eq!(group.len(), 3);
    assert!(!group_is_unset(&group));
    assert_eq!(render_group(&group), "5px");
    assert_eq!(field_text(&group[0]), "5px");
    assert_eq!(field_text(&group[1]), "");
    let group = assemble(Syntax::Length, &[Input::Integer(5)]).unwrap();
    assert_eq!(group, vec![px(5)]);
    assert_eq!(assemble(Syntax::Length, &[]), Err(CssError::Arity));
    assert_eq!(
        assemble(Syntax::Length, &[Input::Integer(5), Input::Integer(6)]),
        Err(CssError::Arity)
    );
    assert_eq!(assemble(Syntax::Color, &[Input::Integer(5)]), Err(CssError::Coercion));
    assert_eq!(assemble(Syntax::Todo, &[Input::Integer(5)]), Err(CssError::Coercion));
    let unset: Vec<CssField<Value>> = vec![CssField::Unset, CssField::Unset];
    assert!(group_is_unset(&unset));
    assert_eq!(render_group(&unset), "");
    assert_eq!(render_group(&vec![CssField::Unset, CssField::Initial, px(2)]), "initial 2px");
    assert_eq!(field_text(&CssField::Inherit), "inherit");
}

#[test]
fn a_styled_paragraph() {
    let mut block = CssBlock::new();
    let link = Url::parse("https://picsum.photos/200/300").unwrap();
    assert_eq!(block.declare("width", &[fraction(4, 1)]), Ok(()));
    assert_eq!(block.declare("height", &[Input::Integer(150 + 10)]), Ok(()));
    assert_eq!(block.declare("margin", &[Input::Integer(5)]), Ok(()));
    assert_eq!(block.declare("padding", &[Input::Integer(50)]), Ok(()));
    assert_eq!(block.declare("background-image", &[Input::Link(link)]), Ok(()));
    assert_eq!(
        block.declare("color", &[Input::Rgba(0, 0, 255, Decimal::new(false, 5, 1))]),
        Ok(())
    );
    assert_eq!(
        block.declare(
            "border",
            &[
                Input::Integer(5),
                Input::Typed(Value::BorderStyle(BorderStyle::Dotted)),
                Input::Named(NamedColor::Red),
            ],
        ),
        Ok(())
    );
    assert_eq!(
        block.declare(
            "border-radius",
            &[Input::Integer(50), Input::Integer(50), Input::Integer(50)],
        ),
        Ok(())
    );
    assert_eq!(block.declare("float", &[Input::Typed(Value::Float(Float::Left))]), Ok(()));
    assert_eq!(
        block.to_string(),
        "background-image: url(\"https://picsum.photos/200/300\");\
         border: 5px dotted red;\
         border-radius: 50px 50px 50px;\
         color: rgba(0, 0, 255, 0.5);\
         float: left;\
         height: 160px;\
         margin: 5px;\
         padding: 50px;\
         width: 40%;"
    );
    let mut sheet = CssBlock::new();
    assert_eq!(sheet.declare("float", &[Input::Typed(Value::Float(Float::Right))]), Ok(()));
    assert_eq!(sheet.declare("margin-right", &[fraction(25, 2)]), Ok(()));
    assert_eq!(sheet.to_string(), "float: right;margin-right: 25%;");
    assert_eq!(
        sheet.with(&block).to_string(),
        "background-image: url(\"https://picsum.photos/200/300\");\
         border: 5px dotted red;\
         border-radius: 50px 50px 50px;\
         color: rgba(0, 0, 255, 0.5);\
         float: right;\
         height: 160px;\
         margin: 5px;\
         margin-right: 25%;\
         padding: 50px;\
         width: 40%;"
    );
}

#[test]
fn every_block_that_the_library_hands_out_is_well_formed() {
    let mut block = CssBlock::new();
    assert!(block.is_well_formed());
    assert_eq!(block.declare("border", &[Input::Integer(5)]), Ok(()));
    assert!(block.is_well_formed());
    assert_eq!(block.declare("border", &[Input::Rgb(1, 2, 3)]), Err(CssError::Coercion));
    assert!(block.is_well_formed());
    assert_eq!(block.set_field("color", 0, CssField::Inherit), Ok(()));
    assert!(block.is_well_formed());
    let merged = block.with(&declared("width", &[Input::Integer(1)]));
    assert!(merged.is_well_formed());
    assert!(merged.clone().is_well_formed());
    block.update(&merged);
    assert!(block.is_well_formed());
    assert!(CssBlock::default().is_well_formed());
}
