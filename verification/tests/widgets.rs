//! Tests for the widget constructors and the entity tree.

use ui_dsl::class::{
    ColorSpec, ImageClass, ImageMutation, NumSpec, StyleClass, StyleMutation, TextStyleClass,
    TextStyleMutation, ValSpec,
};
use ui_dsl::store::{DepStore, DepValue, UiError};
use ui_dsl::style::{AlignItems, Color, FlexWrap, JustifyContent, Style, TextStyle, Val};
use ui_dsl::tree::{EntityId, UiTree, UiValue};
use ui_dsl::widgets::{
    blank, blanki, button, buttoni, grid, gridi, image, image_pane, image_panei, imagei, node,
    nodei, root, rooti, simple_button, simple_buttoni, text, text_button, text_buttoni, texti,
};
use ui_dsl::EntityWriter;

fn identity() -> StyleClass {
    StyleClass::Many(Vec::new())
}

fn text_identity() -> TextStyleClass {
    TextStyleClass::Many(Vec::new())
}

#[test]
fn root_commits_one_top_level_container() {
    let store = DepStore::new();
    let mut tree = UiTree::new();
    let id = root(&identity(), &store, &mut tree).unwrap();
    assert_eq!(id, EntityId(0));
    assert_eq!(tree.len(), 1);
    assert_eq!(tree.nodes[0].value, UiValue::Node(Style::default()));
    assert_eq!(tree.nodes[0].parent, None);
    assert!(tree.nodes[0].children.is_empty());
    assert!(tree.nodes[0].extras.is_empty());
}

#[test]
fn rooti_attaches_extras() {
    let store = DepStore::new();
    let mut tree = UiTree::new();
    let id = rooti(&identity(), &store, &mut tree, vec![7, 8]).unwrap();
    assert_eq!(tree.nodes[id.0].extras, vec![7, 8]);
}

#[test]
fn node_applies_its_class_before_committing() {
    let store = DepStore::new();
    let mut tree = UiTree::new();
    let r = root(&identity(), &store, &mut tree).unwrap();
    let class = StyleClass::One(StyleMutation::Background(ColorSpec::Lit(Color {
        r: 1,
        g: 2,
        b: 3,
        a: 4,
    })));
    let id = node(&class, &mut tree, &store, r).unwrap();
    let mut expected = Style::default();
    expected.background = Color { r: 1, g: 2, b: 3, a: 4 };
    assert_eq!(tree.nodes[id.0].value, UiValue::Node(expected));
    assert_eq!(tree.nodes[id.0].parent, Some(r));
    assert_eq!(tree.children_of(r), vec![id]);
}

#[test]
fn blank_commits_under_an_existing_entity() {
    let store = DepStore::new();
    let mut tree = UiTree::new();
    let r = root(&identity(), &store, &mut tree).unwrap();
    let b = blank(r, &identity(), &store, &mut tree).unwrap();
    assert_eq!(tree.nodes[b.0].parent, Some(r));
    assert_eq!(tree.children_of(r), vec![b]);
    let b2 = blanki(r, &identity(), &store, &mut tree, vec![1]).unwrap();
    assert_eq!(tree.children_of(r), vec![b, b2]);
    assert_eq!(tree.nodes[b2.0].extras, vec![1]);
}

#[test]
fn children_appear_in_creation_order() {
    let store = DepStore::new();
    let mut tree = UiTree::new();
    let r = root(&identity(), &store, &mut tree).unwrap();
    let a = node(&identity(), &mut tree, &store, r).unwrap();
    let b = node(&identity(), &mut tree, &store, r).unwrap();
    let c = node(&identity(), &mut tree, &store, r).unwrap();
    assert_eq!(tree.children_of(r), vec![a, b, c]);
}

#[test]
fn sibling_contexts_stay_scoped_to_their_own_entity() {
    let store = DepStore::new();
    let mut tree = UiTree::new();
    let r = root(&identity(), &store, &mut tree).unwrap();
    let a = node(&identity(), &mut tree, &store, r).unwrap();
    let b = node(&identity(), &mut tree, &store, r).unwrap();
    let under_a = node(&identity(), &mut tree, &store, a).unwrap();
    let under_b = node(&identity(), &mut tree, &store, b).unwrap();
    assert_eq!(tree.children_of(a), vec![under_a]);
    assert_eq!(tree.children_of(b), vec![under_b]);
    assert!(!tree.children_of(a).contains(&under_b));
    assert!(!tree.children_of(b).contains(&under_a));
    assert_eq!(tree.children_of(r), vec![a, b]);
}

#[test]
fn text_commits_exactly_one_run() {
    let store = DepStore::new();
    let mut tree = UiTree::new();
    let r = root(&identity(), &store, &mut tree).unwrap();
    let class = TextStyleClass::One(TextStyleMutation::FontSize(NumSpec::Lit(20)));
    let id = text("hello".to_string(), &identity(), &class, &mut tree, &store, r).unwrap();
    match &tree.nodes[id.0].value {
        UiValue::Text(props) => {
            assert_eq!(props.sections.len(), 1);
            assert_eq!(props.sections[0].value, "hello");
            assert_eq!(props.sections[0].style.font_size, 20);
            assert_eq!(props.style, Style::default());
        },
        other => panic!("expected a text value, got {:?}", other),
    }
}

#[test]
fn texti_missing_dependency_commits_nothing() {
    let store = DepStore::new();
    let mut tree = UiTree::new();
    let r = root(&identity(), &store, &mut tree).unwrap();
    let bad = TextStyleClass::One(TextStyleMutation::FontColor(ColorSpec::Dep(13)));
    let res = texti("x".to_string(), &identity(), &bad, vec![1], &mut tree, &store, r);
    assert_eq!(res, Err(UiError::MissingDependency(13)));
    assert_eq!(tree.len(), 1);
    assert!(tree.children_of(r).is_empty());
}

#[test]
fn buttons_commit_button_values() {
    let store = DepStore::new();
    let mut tree = UiTree::new();
    let r = root(&identity(), &store, &mut tree).unwrap();
    let b = button(&identity(), &mut tree, &store, r).unwrap();
    let sb = simple_button(&identity(), &mut tree, &store, r).unwrap();
    let bi = buttoni(&identity(), vec![3], &mut tree, &store, r).unwrap();
    let sbi = simple_buttoni(&identity(), vec![4], &mut tree, &store, r).unwrap();
    for id in [b, sb, bi, sbi] {
        assert_eq!(tree.nodes[id.0].value, UiValue::Button(Style::default()));
    }
    assert_eq!(tree.nodes[bi.0].extras, vec![3]);
    assert_eq!(tree.nodes[sbi.0].extras, vec![4]);
    assert_eq!(tree.children_of(r), vec![b, sb, bi, sbi]);
}

#[test]
fn text_button_commits_a_button_with_one_text_child() {
    let store = DepStore::new();
    let mut tree = UiTree::new();
    let r = root(&identity(), &store, &mut tree).unwrap();
    let b = text_button("OK".to_string(), &identity(), &text_identity(), &mut tree, &store, r)
        .unwrap();
    // Exactly one button entity under the parent, with exactly one child.
    assert_eq!(tree.children_of(r), vec![b]);
    assert_eq!(tree.nodes[b.0].value, UiValue::Button(Style::default()));
    let children = tree.children_of(b);
    assert_eq!(children.len(), 1);
    let t = children[0];
    match &tree.nodes[t.0].value {
        UiValue::Text(props) => {
            assert_eq!(props.sections.len(), 1);
            assert_eq!(props.sections[0].value, "OK");
        },
        other => panic!("expected a text value, got {:?}", other),
    }
    assert!(tree.children_of(t).is_empty());
    assert_eq!(tree.len(), 3);
}

#[test]
fn text_buttoni_failure_leaves_the_committed_prefix() {
    let store = DepStore::new();
    let mut tree = UiTree::new();
    let r = root(&identity(), &store, &mut tree).unwrap();
    let bad = TextStyleClass::One(TextStyleMutation::FontSize(NumSpec::Dep(21)));
    let res = text_buttoni("x".to_string(), &identity(), &bad, vec![9], &mut tree, &store, r);
    assert_eq!(res, Err(UiError::MissingDependency(21)));
    // The button had already been committed; the text child had not.
    assert_eq!(tree.len(), 2);
    let children = tree.children_of(r);
    assert_eq!(children.len(), 1);
    assert_eq!(tree.nodes[children[0].0].value, UiValue::Button(Style::default()));
    assert!(tree.children_of(children[0]).is_empty());
}

#[test]
fn image_constructors_commit_image_values() {
    let mut store = DepStore::new();
    store.insert(2, DepValue::Number(99));
    let mut tree = UiTree::new();
    let r = root(&identity(), &store, &mut tree).unwrap();
    let class = ImageClass::One(ImageMutation::Source(NumSpec::Dep(2)));
    let a = image(&class, &mut tree, &store, r).unwrap();
    let b = imagei(&class, vec![5], &mut tree, &store, r).unwrap();
    let c = image_pane(&class, &mut tree, &store, r).unwrap();
    let d = image_panei(&class, vec![6], &mut tree, &store, r).unwrap();
    for id in [a, b, c, d] {
        match &tree.nodes[id.0].value {
            UiValue::Image(props) => assert_eq!(props.image, 99),
            other => panic!("expected an image value, got {:?}", other),
        }
    }
    assert_eq!(tree.nodes[b.0].extras, vec![5]);
    assert_eq!(tree.nodes[d.0].extras, vec![6]);
}

#[test]
fn grid_two_by_three_commits_six_cells_in_row_major_order() {
    let store = DepStore::new();
    let mut tree = UiTree::new();
    let r = root(&identity(), &store, &mut tree).unwrap();
    let (container, cells) = grid(2, 3, &identity(), &mut tree, &store, r).unwrap();
    assert_eq!(cells.len(), 6);
    assert_eq!(tree.children_of(container), cells);
    // Handles are consecutive, so cell (row, col) sits at index row * 3 + col.
    for (k, cell) in cells.iter().enumerate() {
        assert_eq!(cell.0, container.0 + 1 + k);
        match &tree.nodes[cell.0].value {
            UiValue::Node(s) => {
                assert_eq!(s.width, Val::Percent { num: 100, den: 3 });
                assert_eq!(s.height, Val::Percent { num: 100, den: 2 });
                assert_eq!(s.justify_content, JustifyContent::Center);
                assert_eq!(s.align_items, AlignItems::Center);
            },
            other => panic!("expected a cell container, got {:?}", other),
        }
        assert_eq!(tree.nodes[cell.0].parent, Some(container));
        assert!(tree.children_of(*cell).is_empty());
    }
    // The container wraps its rows and carries the applied class otherwise.
    match &tree.nodes[container.0].value {
        UiValue::Node(s) => assert_eq!(s.flex_wrap, FlexWrap::Wrap),
        other => panic!("expected a container, got {:?}", other),
    }
    // Populating cell (1, 2) touches only that cell.
    let content = node(&identity(), &mut tree, &store, cells[1 * 3 + 2]).unwrap();
    assert_eq!(tree.children_of(cells[5]), vec![content]);
    assert!(tree.children_of(cells[0]).is_empty());
}

#[test]
fn gridi_attaches_extras_and_honours_the_class() {
    let store = DepStore::new();
    let mut tree = UiTree::new();
    let r = root(&identity(), &store, &mut tree).unwrap();
    let class = StyleClass::One(StyleMutation::Background(ColorSpec::Lit(Color {
        r: 9,
        g: 9,
        b: 9,
        a: 9,
    })));
    let (container, cells) = gridi(1, 1, &class, vec![2], &mut tree, &store, r).unwrap();
    assert_eq!(cells.len(), 1);
    assert_eq!(tree.nodes[container.0].extras, vec![2]);
    match &tree.nodes[container.0].value {
        UiValue::Node(s) => {
            assert_eq!(s.background, Color { r: 9, g: 9, b: 9, a: 9 });
            assert_eq!(s.flex_wrap, FlexWrap::Wrap);
        },
        other => panic!("expected a container, got {:?}", other),
    }
}

#[test]
fn grid_with_no_rows_commits_only_the_container() {
    let store = DepStore::new();
    let mut tree = UiTree::new();
    let r = root(&identity(), &store, &mut tree).unwrap();
    let (container, cells) = grid(0, 3, &identity(), &mut tree, &store, r).unwrap();
    assert!(cells.is_empty());
    assert!(tree.children_of(container).is_empty());
    assert_eq!(tree.len(), 2);
}

#[test]
fn constructor_failure_commits_nothing() {
    let store = DepStore::new();
    let mut tree = UiTree::new();
    let r = root(&identity(), &store, &mut tree).unwrap();
    let bad = StyleClass::One(StyleMutation::Width(ValSpec::Dep(31)));
    assert_eq!(
        node(&bad, &mut tree, &store, r),
        Err(UiError::MissingDependency(31))
    );
    assert_eq!(
        grid(2, 2, &bad, &mut tree, &store, r),
        Err(UiError::MissingDependency(31))
    );
    let bad_image = ImageClass::One(ImageMutation::Source(NumSpec::Dep(32)));
    assert_eq!(
        image(&bad_image, &mut tree, &store, r),
        Err(UiError::MissingDependency(32))
    );
    assert_eq!(tree.len(), 1);
    assert!(tree.children_of(r).is_empty());
}

#[test]
fn insert_appends_extras_to_a_committed_entity() {
    let store = DepStore::new();
    let mut tree = UiTree::new();
    let id = rooti(&identity(), &store, &mut tree, vec![1]).unwrap();
    tree.insert(id, &vec![2, 3]);
    assert_eq!(tree.nodes[id.0].extras, vec![1, 2, 3]);
}

#[test]
fn entity_writer_records_handles() {
    let store = DepStore::new();
    let mut tree = UiTree::new();
    let r = root(&identity(), &store, &mut tree).unwrap();
    let mut slot: Option<EntityId> = None;
    let mut list: Vec<EntityId> = Vec::new();
    let a = node(&identity(), &mut tree, &store, r).unwrap();
    a.set(&mut slot);
    assert_eq!(slot, Some(a));
    let b = node(&identity(), &mut tree, &store, r).unwrap();
    a.push(&mut list);
    b.push(&mut list);
    assert_eq!(list, vec![a, b]);
}
