//! Tests for the class composition mechanism and the dependency store.

use ui_dsl::class::{
    eval_image_class, eval_style_class, eval_text_style_class, ColorSpec, ImageClass,
    ImageMutation, NumSpec, StyleClass, StyleMutation, TextStyleClass, TextStyleMutation, ValSpec,
};
use ui_dsl::store::{DepStore, DepValue, UiError};
use ui_dsl::style::{AlignItems, Color, FlexWrap, ImageProps, JustifyContent, Style, TextStyle, Val};

const GREEN: Color = Color { r: 0, g: 200, b: 0, a: 255 };

#[test]
fn empty_composition_is_identity() {
    let store = DepStore::new();
    let mut style = Style::default();
    style.width = Val::Px(40);
    let before = style;
    let identity = StyleClass::Many(Vec::new());
    let r = identity.apply(&mut style, &store);
    assert!(r.is_ok());
    assert_eq!(style, before);
}

#[test]
fn empty_text_style_composition_is_identity() {
    let store = DepStore::new();
    let mut ts = TextStyle::default();
    let before = ts;
    let identity = TextStyleClass::Many(Vec::new());
    assert!(identity.apply(&mut ts, &store).is_ok());
    assert_eq!(ts, before);
}

#[test]
fn empty_image_composition_is_identity() {
    let store = DepStore::new();
    let mut props = ImageProps::default();
    let before = props;
    let identity = ImageClass::Many(Vec::new());
    assert!(identity.apply(&mut props, &store).is_ok());
    assert_eq!(props, before);
}

#[test]
fn composition_applies_members_left_to_right() {
    let store = DepStore::new();
    let c_half = StyleClass::One(StyleMutation::Width(ValSpec::Lit(Val::Percent {
        num: 50,
        den: 1,
    })));
    let c_green = StyleClass::One(StyleMutation::Background(ColorSpec::Lit(GREEN)));
    let c_tall = StyleClass::One(StyleMutation::Height(ValSpec::Lit(Val::Px(120))));
    let composed = StyleClass::Many(vec![c_half, c_green, c_tall]);

    let mut via_composition = Style::default();
    assert!(composed.apply(&mut via_composition, &store).is_ok());

    // The same three members applied one after the other to the same start.
    let mut via_sequence = Style::default();
    let c_half2 = StyleClass::One(StyleMutation::Width(ValSpec::Lit(Val::Percent {
        num: 50,
        den: 1,
    })));
    let c_green2 = StyleClass::One(StyleMutation::Background(ColorSpec::Lit(GREEN)));
    let c_tall2 = StyleClass::One(StyleMutation::Height(ValSpec::Lit(Val::Px(120))));
    assert!(c_half2.apply(&mut via_sequence, &store).is_ok());
    assert!(c_green2.apply(&mut via_sequence, &store).is_ok());
    assert!(c_tall2.apply(&mut via_sequence, &store).is_ok());

    assert_eq!(via_composition, via_sequence);
    assert_eq!(via_composition.width, Val::Percent { num: 50, den: 1 });
    assert_eq!(via_composition.background, GREEN);
    assert_eq!(via_composition.height, Val::Px(120));
}

#[test]
fn later_members_overwrite_earlier_ones() {
    let store = DepStore::new();
    let first = StyleClass::One(StyleMutation::Width(ValSpec::Lit(Val::Px(10))));
    let second = StyleClass::One(StyleMutation::Width(ValSpec::Lit(Val::Px(20))));
    let composed = StyleClass::Many(vec![first, second]);
    let mut style = Style::default();
    assert!(composed.apply(&mut style, &store).is_ok());
    assert_eq!(style.width, Val::Px(20));
}

#[test]
fn nested_compositions_flatten_in_order() {
    let store = DepStore::new();
    let inner = StyleClass::Many(vec![
        StyleClass::One(StyleMutation::Justify(JustifyContent::Center)),
        StyleClass::One(StyleMutation::Align(AlignItems::Center)),
    ]);
    let outer = StyleClass::Many(vec![
        StyleClass::One(StyleMutation::Wrap(FlexWrap::Wrap)),
        inner,
        StyleClass::One(StyleMutation::Justify(JustifyContent::End)),
    ]);
    let mut style = Style::default();
    assert!(outer.apply(&mut style, &store).is_ok());
    assert_eq!(style.flex_wrap, FlexWrap::Wrap);
    assert_eq!(style.align_items, AlignItems::Center);
    // The member after the nested composition ran last.
    assert_eq!(style.justify_content, JustifyContent::End);
}

#[test]
fn mutators_read_dependencies_from_the_store() {
    let mut store = DepStore::new();
    store.insert(1, DepValue::Size(Val::Percent { num: 100, den: 4 }));
    store.insert(2, DepValue::Color(GREEN));
    let class = StyleClass::Many(vec![
        StyleClass::One(StyleMutation::Width(ValSpec::Dep(1))),
        StyleClass::One(StyleMutation::Background(ColorSpec::Dep(2))),
    ]);
    let mut style = Style::default();
    assert!(class.apply(&mut style, &store).is_ok());
    assert_eq!(style.width, Val::Percent { num: 100, den: 4 });
    assert_eq!(style.background, GREEN);
}

#[test]
fn missing_dependency_reports_its_key() {
    let store = DepStore::new();
    let class = StyleClass::One(StyleMutation::Width(ValSpec::Dep(9)));
    let mut style = Style::default();
    let r = class.apply(&mut style, &store);
    assert_eq!(r, Err(UiError::MissingDependency(9)));
    // The style is untouched on failure.
    assert_eq!(style, Style::default());
}

#[test]
fn wrong_kind_of_dependency_counts_as_missing() {
    let mut store = DepStore::new();
    store.insert(3, DepValue::Number(17));
    let class = StyleClass::One(StyleMutation::Background(ColorSpec::Dep(3)));
    let mut style = Style::default();
    assert_eq!(class.apply(&mut style, &store), Err(UiError::MissingDependency(3)));
}

#[test]
fn first_missing_dependency_wins() {
    let store = DepStore::new();
    let class = StyleClass::Many(vec![
        StyleClass::One(StyleMutation::Width(ValSpec::Dep(5))),
        StyleClass::One(StyleMutation::Height(ValSpec::Dep(6))),
    ]);
    let mut style = Style::default();
    assert_eq!(class.apply(&mut style, &store), Err(UiError::MissingDependency(5)));
}

#[test]
fn failure_in_the_middle_leaves_the_value_unchanged() {
    let store = DepStore::new();
    let class = StyleClass::Many(vec![
        StyleClass::One(StyleMutation::Width(ValSpec::Lit(Val::Px(10)))),
        StyleClass::One(StyleMutation::Height(ValSpec::Dep(6))),
    ]);
    let mut style = Style::default();
    assert_eq!(class.apply(&mut style, &store), Err(UiError::MissingDependency(6)));
    assert_eq!(style, Style::default());
}

#[test]
fn eval_returns_the_new_style_without_mutating() {
    let store = DepStore::new();
    let class = StyleClass::One(StyleMutation::Height(ValSpec::Lit(Val::Px(7))));
    let start = Style::default();
    let r = eval_style_class(&class, start, &store);
    assert_eq!(r.map(|s| s.height), Ok(Val::Px(7)));
    assert_eq!(start, Style::default());
}

#[test]
fn text_style_classes_compose() {
    let mut store = DepStore::new();
    store.insert(4, DepValue::Number(32));
    let class = TextStyleClass::Many(vec![
        TextStyleClass::One(TextStyleMutation::FontSize(NumSpec::Dep(4))),
        TextStyleClass::One(TextStyleMutation::FontColor(ColorSpec::Lit(GREEN))),
    ]);
    let mut ts = TextStyle::default();
    assert!(class.apply(&mut ts, &store).is_ok());
    assert_eq!(ts.font_size, 32);
    assert_eq!(ts.color, GREEN);
}

#[test]
fn text_style_missing_dependency_reports_its_key() {
    let store = DepStore::new();
    let class = TextStyleClass::One(TextStyleMutation::FontSize(NumSpec::Dep(40)));
    let before = TextStyle::default();
    let r = eval_text_style_class(&class, before, &store);
    assert_eq!(r, Err(UiError::MissingDependency(40)));
}

#[test]
fn image_classes_set_layout_and_source() {
    let mut store = DepStore::new();
    store.insert(8, DepValue::Number(4242));
    let class = ImageClass::Many(vec![
        ImageClass::One(ImageMutation::Layout(StyleMutation::Width(ValSpec::Lit(Val::Px(64))))),
        ImageClass::One(ImageMutation::Source(NumSpec::Dep(8))),
    ]);
    let mut props = ImageProps::default();
    assert!(class.apply(&mut props, &store).is_ok());
    assert_eq!(props.style.width, Val::Px(64));
    assert_eq!(props.image, 4242);
}

#[test]
fn image_class_missing_dependency_reports_its_key() {
    let store = DepStore::new();
    let class = ImageClass::One(ImageMutation::Source(NumSpec::Dep(77)));
    let r = eval_image_class(&class, ImageProps::default(), &store);
    assert_eq!(r, Err(UiError::MissingDependency(77)));
}

#[test]
fn store_returns_what_was_registered() {
    let mut store = DepStore::new();
    store.insert(10, DepValue::Number(5));
    store.insert(11, DepValue::Size(Val::Auto));
    assert_eq!(store.get(10), Ok(DepValue::Number(5)));
    assert_eq!(store.get(11), Ok(DepValue::Size(Val::Auto)));
    assert_eq!(store.get(12), Err(UiError::MissingDependency(12)));
}

#[test]
fn defaults_are_the_documented_ones() {
    let s = Style::default();
    assert_eq!(s.width, Val::Auto);
    assert_eq!(s.height, Val::Auto);
    assert_eq!(s.justify_content, JustifyContent::Start);
    assert_eq!(s.align_items, AlignItems::Stretch);
    assert_eq!(s.flex_wrap, FlexWrap::NoWrap);
    assert_eq!(s.background, Color { r: 0, g: 0, b: 0, a: 0 });
    let t = TextStyle::default();
    assert_eq!(t.font_size, 12);
    assert_eq!(t.color, Color { r: 255, g: 255, b: 255, a: 255 });
    let p = ImageProps::default();
    assert_eq!(p.style, s);
    assert_eq!(p.image, 0);
}
