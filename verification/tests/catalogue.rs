use yewcss::style::schema::{
    find_property, name_of, syntax_of, Syntax, PROPERTY_COUNT, PROPERTY_NAMES, PROPERTY_SYNTAX,
};
use yewcss::style::value::Kind;

#[test]
fn the_catalogue_has_one_syntax_for_every_name() {
    assert_eq!(PROPERTY_COUNT, 546);
    assert_eq!(PROPERTY_NAMES.len(), PROPERTY_COUNT);
    assert_eq!(PROPERTY_SYNTAX.len(), PROPERTY_COUNT);
    assert_eq!(name_of(0), "accent-color");
    assert_eq!(name_of(PROPERTY_COUNT - 1), "z-index");
}

#[test]
fn names_are_unique_and_ascending() {
    for i in 1..PROPERTY_COUNT {
        assert!(name_of(i - 1) < name_of(i), "{} before {}", name_of(i - 1), name_of(i));
    }
}

#[test]
fn every_name_is_found_at_its_own_place() {
    for i in 0..PROPERTY_COUNT {
        assert_eq!(find_property(name_of(i)), Some(i));
    }
    assert_eq!(find_property("border-bottom-left-radius").map(name_of), Some("border-bottom-left-radius"));
    assert_eq!(find_property("continue").map(name_of), Some("continue"));
}

#[test]
fn unknown_names_are_not_found() {
    assert_eq!(find_property(""), None);
    assert_eq!(find_property("border_radius"), None);
    assert_eq!(find_property("Width"), None);
    assert_eq!(find_property("width "), None);
    assert_eq!(find_property("_continue"), None);
}

fn syntax(name: &str) -> Syntax {
    syntax_of(find_property(name).unwrap())
}

#[test]
fn properties_take_what_the_catalogue_says() {
    assert_eq!(syntax("accent-color"), Syntax::Color);
    assert_eq!(syntax("align-content"), Syntax::AlignContent);
    assert_eq!(syntax("align-items"), Syntax::AlignItems);
    assert_eq!(syntax("align-self"), Syntax::AlignSelf);
    assert_eq!(syntax("alignment-baseline"), Syntax::AlignmentBaseline);
    assert_eq!(syntax("all"), Syntax::Void);
    assert_eq!(syntax("animation"), Syntax::Todo);
    assert_eq!(syntax("animation-delay"), Syntax::Duration);
    assert_eq!(syntax("animation-duration"), Syntax::Duration);
    assert_eq!(syntax("background-image"), Syntax::Image);
    assert_eq!(syntax("border"), Syntax::Border);
    assert_eq!(syntax("border-block-end-width"), Syntax::Length);
    assert_eq!(syntax("border-block-width"), Syntax::BorderWidth);
    assert_eq!(syntax("border-radius"), Syntax::Corners);
    assert_eq!(syntax("border-style"), Syntax::BorderStyle);
    assert_eq!(syntax("border-top"), Syntax::Border);
    assert_eq!(syntax("display"), Syntax::Display);
    assert_eq!(syntax("float"), Syntax::Float);
    assert_eq!(syntax("height"), Syntax::Length);
    assert_eq!(syntax("margin-right"), Syntax::Length);
    assert_eq!(syntax("position"), Syntax::Todo);
    assert_eq!(syntax("width"), Syntax::Length);
    assert_eq!(syntax("z-index"), Syntax::Todo);
}

#[test]
fn the_catalogue_holds_as_many_properties_of_each_syntax_as_expected() {
    let count = |wanted: Syntax| PROPERTY_SYNTAX.iter().filter(|s| **s == wanted).count();
    assert_eq!(count(Syntax::Todo), 405);
    assert_eq!(count(Syntax::Length), 70);
    assert_eq!(count(Syntax::Color), 24);
    assert_eq!(count(Syntax::Border), 11);
    assert_eq!(count(Syntax::BorderStyle), 11);
    assert_eq!(count(Syntax::BorderWidth), 9);
    assert_eq!(count(Syntax::Image), 6);
    assert_eq!(count(Syntax::Duration), 2);
    assert_eq!(count(Syntax::Corners), 1);
    assert_eq!(count(Syntax::Void), 1);
}

#[test]
fn a_syntax_lists_the_kinds_of_its_slots() {
    assert_eq!(Syntax::Length.arity(), 1);
    assert_eq!(Syntax::Length.kind_at(0), Kind::Length);
    assert_eq!(Syntax::Todo.kind_at(0), Kind::Todo);
    assert_eq!(Syntax::Void.kind_at(0), Kind::Void);
    assert_eq!(Syntax::Float.kind_at(0), Kind::Float);
    assert_eq!(Syntax::Border.arity(), 3);
    assert_eq!(Syntax::Border.kind_at(0), Kind::BorderWidth);
    assert_eq!(Syntax::Border.kind_at(1), Kind::BorderStyle);
    assert_eq!(Syntax::Border.kind_at(2), Kind::Color);
    assert_eq!(Syntax::Corners.arity(), 4);
    assert_eq!(Syntax::Corners.kind_at(0), Kind::Length);
    assert_eq!(Syntax::Corners.kind_at(3), Kind::Length);
}
