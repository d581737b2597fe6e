//! The widget constructors.
//!
//! Each constructor instantiates the default value of one UI kind, applies a
//! caller-supplied class to it, and commits the result (with optional
//! auxiliary data) to the entity tree, either at top level or under a given
//! insertion point.  The handle it returns is then the insertion point for
//! the children the caller builds next, so a whole subtree is built top-down,
//! depth-first, in the exact order the caller issues the calls.
//!
//! No constructor validates its inputs beyond their types: the only failure
//! is a class asking the store for a missing dependency, and in that case
//! nothing is committed by that call.

use vstd::prelude::*;

use crate::class::{
    style_class_sem, text_style_class_sem, image_class_sem, ImageClass, StyleClass, TextStyleClass,
};
use crate::store::{DepStore, UiError};
use crate::style::{
    default_image_props, default_style, default_text_style, AlignItems, Color, FlexWrap,
    ImageProps, JustifyContent, Style, TextProps, TextSection, TextStyle, Val,
};
use crate::tree::{spawned, EntityId, UiTree, UiValue};

verus! {

/// The committed value of entity `id` is a text element with layout style
/// `s` and exactly the one run `txt` in style `ts`.
pub open spec fn text_committed(
    post: UiTree,
    id: EntityId,
    s: Style,
    txt: String,
    ts: TextStyle,
) -> bool {
    &&& post.nodes@[id.0 as int].value matches UiValue::Text(props)
    &&& post.nodes@[id.0 as int].value->Text_0.style == s
    &&& post.nodes@[id.0 as int].value->Text_0.sections@ == seq![
        TextSection { value: txt, style: ts },
    ]
}

/// Commits a container as a top-level entity.  The class is applied to the
/// default style; a missing dependency aborts with nothing committed.
pub fn root(class: &StyleClass, store: &DepStore, tree: &mut UiTree) -> (r: Result<
    EntityId,
    UiError,
>)
    requires
        old(tree).wf(),
    ensures
        final(tree).wf(),
        match style_class_sem(*class, default_style(), *store) {
            Ok(s) => {
                &&& r matches Ok(id)
                &&& spawned(*old(tree), *final(tree), None, id)
                &&& final(tree).nodes@[id.0 as int].value == UiValue::Node(s)
                &&& final(tree).nodes@[id.0 as int].extras@ == Seq::<u64>::empty()
            },
            Err(e) => r == Result::<EntityId, UiError>::Err(e) && *final(tree) == *old(tree),
        },
{
    rooti(class, store, tree, Vec::new())
}

/// Commits a container as a top-level entity, with auxiliary data attached.
pub fn rooti(class: &StyleClass, store: &DepStore, tree: &mut UiTree, extras: Vec<u64>) -> (r:
    Result<EntityId, UiError>)
    requires
        old(tree).wf(),
    ensures
        final(tree).wf(),
        match style_class_sem(*class, default_style(), *store) {
            Ok(s) => {
                &&& r matches Ok(id)
                &&& spawned(*old(tree), *final(tree), None, id)
                &&& final(tree).nodes@[id.0 as int].value == UiValue::Node(s)
                &&& final(tree).nodes@[id.0 as int].extras@ == extras@
            },
            Err(e) => r == Result::<EntityId, UiError>::Err(e) && *final(tree) == *old(tree),
        },
{
    let mut style = Style::default();
    match class.apply(&mut style, store) {
        Ok(()) => Ok(tree.spawn(None, UiValue::Node(style), extras)),
        Err(e) => Err(e),
    }
}

/// Commits a container under an already committed entity.  Used to embed
/// further widgets after the initial subtree has been built.
pub fn blank(parent: EntityId, class: &StyleClass, store: &DepStore, tree: &mut UiTree) -> (r:
    Result<EntityId, UiError>)
    requires
        old(tree).wf(),
        old(tree).contains(parent),
    ensures
        final(tree).wf(),
        match style_class_sem(*class, default_style(), *store) {
            Ok(s) => {
                &&& r matches Ok(id)
                &&& spawned(*old(tree), *final(tree), Some(parent), id)
                &&& final(tree).nodes@[id.0 as int].value == UiValue::Node(s)
                &&& final(tree).nodes@[id.0 as int].extras@ == Seq::<u64>::empty()
            },
            Err(e) => r == Result::<EntityId, UiError>::Err(e) && *final(tree) == *old(tree),
        },
{
    blanki(parent, class, store, tree, Vec::new())
}

/// Commits a container under an already committed entity, with auxiliary
/// data attached.
pub fn blanki(
    parent: EntityId,
    class: &StyleClass,
    store: &DepStore,
    tree: &mut UiTree,
    extras: Vec<u64>,
) -> (r: Result<EntityId, UiError>)
    requires
        old(tree).wf(),
        old(tree).contains(parent),
    ensures
        final(tree).wf(),
        match style_class_sem(*class, default_style(), *store) {
            Ok(s) => {
                &&& r matches Ok(id)
                &&& spawned(*old(tree), *final(tree), Some(parent), id)
                &&& final(tree).nodes@[id.0 as int].value == UiValue::Node(s)
                &&& final(tree).nodes@[id.0 as int].extras@ == extras@
            },
            Err(e) => r == Result::<EntityId, UiError>::Err(e) && *final(tree) == *old(tree),
        },
{
    let mut style = Style::default();
    match class.apply(&mut style, store) {
        Ok(()) => Ok(tree.spawn(Some(parent), UiValue::Node(style), extras)),
        Err(e) => Err(e),
    }
}

/// Commits a container under the current insertion point.
pub fn node(class: &StyleClass, tree: &mut UiTree, store: &DepStore, parent: EntityId) -> (r:
    Result<EntityId, UiError>)
    requires
        old(tree).wf(),
        old(tree).contains(parent),
    ensures
        final(tree).wf(),
        match style_class_sem(*class, default_style(), *store) {
            Ok(s) => {
                &&& r matches Ok(id)
                &&& spawned(*old(tree), *final(tree), Some(parent), id)
                &&& final(tree).nodes@[id.0 as int].value == UiValue::Node(s)
                &&& final(tree).nodes@[id.0 as int].extras@ == Seq::<u64>::empty()
            },
            Err(e) => r == Result::<EntityId, UiError>::Err(e) && *final(tree) == *old(tree),
        },
{
    nodei(class, Vec::new(), tree, store, parent)
}

/// Commits a container under the current insertion point, with auxiliary
/// data attached.
pub fn nodei(
    class: &StyleClass,
    extras: Vec<u64>,
    tree: &mut UiTree,
    store: &DepStore,
    parent: EntityId,
) -> (r: Result<EntityId, UiError>)
    requires
        old(tree).wf(),
        old(tree).contains(parent),
    ensures
        final(tree).wf(),
        match style_class_sem(*class, default_style(), *store) {
            Ok(s) => {
                &&& r matches Ok(id)
                &&& spawned(*old(tree), *final(tree), Some(parent), id)
                &&& final(tree).nodes@[id.0 as int].value == UiValue::Node(s)
                &&& final(tree).nodes@[id.0 as int].extras@ == extras@
            },
            Err(e) => r == Result::<EntityId, UiError>::Err(e) && *final(tree) == *old(tree),
        },
{
    let mut style = Style::default();
    match class.apply(&mut style, store) {
        Ok(()) => Ok(tree.spawn(Some(parent), UiValue::Node(style), extras)),
        Err(e) => Err(e),
    }
}

/// Commits a text element with exactly one run of text.  The first class
/// shapes the element's layout style, the second the run's text style; they
/// are applied in that order, and the first missing dependency aborts with
/// nothing committed.
pub fn text(
    value: String,
    class: &StyleClass,
    text_class: &TextStyleClass,
    tree: &mut UiTree,
    store: &DepStore,
    parent: EntityId,
) -> (r: Result<EntityId, UiError>)
    requires
        old(tree).wf(),
        old(tree).contains(parent),
    ensures
        final(tree).wf(),
        match style_class_sem(*class, default_style(), *store) {
            Err(e) => r == Result::<EntityId, UiError>::Err(e) && *final(tree) == *old(tree),
            Ok(s) => match text_style_class_sem(*text_class, default_text_style(), *store) {
                Err(e) => r == Result::<EntityId, UiError>::Err(e) && *final(tree) == *old(tree),
                Ok(ts) => {
                    &&& r matches Ok(id)
                    &&& spawned(*old(tree), *final(tree), Some(parent), id)
                    &&& text_committed(*final(tree), id, s, value, ts)
                    &&& final(tree).nodes@[id.0 as int].extras@ == Seq::<u64>::empty()
                },
            },
        },
{
    texti(value, class, text_class, Vec::new(), tree, store, parent)
}

/// Commits a text element with exactly one run of text and auxiliary data
/// attached.
pub fn texti(
    value: String,
    class: &StyleClass,
    text_class: &TextStyleClass,
    extras: Vec<u64>,
    tree: &mut UiTree,
    store: &DepStore,
    parent: EntityId,
) -> (r: Result<EntityId, UiError>)
    requires
        old(tree).wf(),
        old(tree).contains(parent),
    ensures
        final(tree).wf(),
        match style_class_sem(*class, default_style(), *store) {
            Err(e) => r == Result::<EntityId, UiError>::Err(e) && *final(tree) == *old(tree),
            Ok(s) => match text_style_class_sem(*text_class, default_text_style(), *store) {
                Err(e) => r == Result::<EntityId, UiError>::Err(e) && *final(tree) == *old(tree),
                Ok(ts) => {
                    &&& r matches Ok(id)
                    &&& spawned(*old(tree), *final(tree), Some(parent), id)
                    &&& text_committed(*final(tree), id, s, value, ts)
                    &&& final(tree).nodes@[id.0 as int].extras@ == extras@
                },
            },
        },
{
    let mut style = Style::default();
    match class.apply(&mut style, store) {
        Ok(()) => {},
        Err(e) => {
            return Err(e);
        },
    }
    let mut tstyle = TextStyle::default();
    match text_class.apply(&mut tstyle, store) {
        Ok(()) => {},
        Err(e) => {
            return Err(e);
        },
    }
    let mut sections: Vec<TextSection> = Vec::new();
    sections.push(TextSection { value, style: tstyle });
    Ok(tree.spawn(Some(parent), UiValue::Text(TextProps { style, sections }), extras))
}

/// Commits a button under the current insertion point.
pub fn button(class: &StyleClass, tree: &mut UiTree, store: &DepStore, parent: EntityId) -> (r:
    Result<EntityId, UiError>)
    requires
        old(tree).wf(),
        old(tree).contains(parent),
    ensures
        final(tree).wf(),
        match style_class_sem(*class, default_style(), *store) {
            Ok(s) => {
                &&& r matches Ok(id)
                &&& spawned(*old(tree), *final(tree), Some(parent), id)
                &&& final(tree).nodes@[id.0 as int].value == UiValue::Button(s)
                &&& final(tree).nodes@[id.0 as int].extras@ == Seq::<u64>::empty()
            },
            Err(e) => r == Result::<EntityId, UiError>::Err(e) && *final(tree) == *old(tree),
        },
{
    buttoni(class, Vec::new(), tree, store, parent)
}

/// Commits a button under the current insertion point, with auxiliary data
/// attached.
pub fn buttoni(
    class: &StyleClass,
    extras: Vec<u64>,
    tree: &mut UiTree,
    store: &DepStore,
    parent: EntityId,
) -> (r: Result<EntityId, UiError>)
    requires
        old(tree).wf(),
        old(tree).contains(parent),
    ensures
        final(tree).wf(),
        match style_class_sem(*class, default_style(), *store) {
            Ok(s) => {
                &&& r matches Ok(id)
                &&& spawned(*old(tree), *final(tree), Some(parent), id)
                &&& final(tree).nodes@[id.0 as int].value == UiValue::Button(s)
                &&& final(tree).nodes@[id.0 as int].extras@ == extras@
            },
            Err(e) => r == Result::<EntityId, UiError>::Err(e) && *final(tree) == *old(tree),
        },
{
    let mut style = Style::default();
    match class.apply(&mut style, store) {
        Ok(()) => Ok(tree.spawn(Some(parent), UiValue::Button(style), extras)),
        Err(e) => Err(e),
    }
}

/// Commits a button that is not meant to get children.
pub fn simple_button(class: &StyleClass, tree: &mut UiTree, store: &DepStore, parent: EntityId) -> (
    r: Result<EntityId, UiError>)
    requires
        old(tree).wf(),
        old(tree).contains(parent),
    ensures
        final(tree).wf(),
        match style_class_sem(*class, default_style(), *store) {
            Ok(s) => {
                &&& r matches Ok(id)
                &&& spawned(*old(tree), *final(tree), Some(parent), id)
                &&& final(tree).nodes@[id.0 as int].value == UiValue::Button(s)
                &&& final(tree).nodes@[id.0 as int].extras@ == Seq::<u64>::empty()
            },
            Err(e) => r == Result::<EntityId, UiError>::Err(e) && *final(tree) == *old(tree),
        },
{
    simple_buttoni(class, Vec::new(), tree, store, parent)
}

/// Commits a button that is not meant to get children, with auxiliary data
/// attached.
pub fn simple_buttoni(
    class: &StyleClass,
    extras: Vec<u64>,
    tree: &mut UiTree,
    store: &DepStore,
    parent: EntityId,
) -> (r: Result<EntityId, UiError>)
    requires
        old(tree).wf(),
        old(tree).contains(parent),
    ensures
        final(tree).wf(),
        match style_class_sem(*class, default_style(), *store) {
            Ok(s) => {
                &&& r matches Ok(id)
                &&& spawned(*old(tree), *final(tree), Some(parent), id)
                &&& final(tree).nodes@[id.0 as int].value == UiValue::Button(s)
                &&& final(tree).nodes@[id.0 as int].extras@ == extras@
            },
            Err(e) => r == Result::<EntityId, UiError>::Err(e) && *final(tree) == *old(tree),
        },
{
    let mut style = Style::default();
    match class.apply(&mut style, store) {
        Ok(()) => Ok(tree.spawn(Some(parent), UiValue::Button(style), extras)),
        Err(e) => Err(e),
    }
}

/// Commits an image element under the current insertion point.
pub fn image(class: &ImageClass, tree: &mut UiTree, store: &DepStore, parent: EntityId) -> (r:
    Result<EntityId, UiError>)
    requires
        old(tree).wf(),
        old(tree).contains(parent),
    ensures
        final(tree).wf(),
        match image_class_sem(*class, default_image_props(), *store) {
            Ok(p) => {
                &&& r matches Ok(id)
                &&& spawned(*old(tree), *final(tree), Some(parent), id)
                &&& final(tree).nodes@[id.0 as int].value == UiValue::Image(p)
                &&& final(tree).nodes@[id.0 as int].extras@ == Seq::<u64>::empty()
            },
            Err(e) => r == Result::<EntityId, UiError>::Err(e) && *final(tree) == *old(tree),
        },
{
    imagei(class, Vec::new(), tree, store, parent)
}

/// Commits an image element, with auxiliary data attached.
pub fn imagei(
    class: &ImageClass,
    extras: Vec<u64>,
    tree: &mut UiTree,
    store: &DepStore,
    parent: EntityId,
) -> (r: Result<EntityId, UiError>)
    requires
        old(tree).wf(),
        old(tree).contains(parent),
    ensures
        final(tree).wf(),
        match image_class_sem(*class, default_image_props(), *store) {
            Ok(p) => {
                &&& r matches Ok(id)
                &&& spawned(*old(tree), *final(tree), Some(parent), id)
                &&& final(tree).nodes@[id.0 as int].value == UiValue::Image(p)
                &&& final(tree).nodes@[id.0 as int].extras@ == extras@
            },
            Err(e) => r == Result::<EntityId, UiError>::Err(e) && *final(tree) == *old(tree),
        },
{
    let mut props = ImageProps::default();
    match class.apply(&mut props, store) {
        Ok(()) => Ok(tree.spawn(Some(parent), UiValue::Image(props), extras)),
        Err(e) => Err(e),
    }
}

/// Commits an image element meant to get children.
pub fn image_pane(class: &ImageClass, tree: &mut UiTree, store: &DepStore, parent: EntityId) -> (r:
    Result<EntityId, UiError>)
    requires
        old(tree).wf(),
        old(tree).contains(parent),
    ensures
        final(tree).wf(),
        match image_class_sem(*class, default_image_props(), *store) {
            Ok(p) => {
                &&& r matches Ok(id)
                &&& spawned(*old(tree), *final(tree), Some(parent), id)
                &&& final(tree).nodes@[id.0 as int].value == UiValue::Image(p)
                &&& final(tree).nodes@[id.0 as int].extras@ == Seq::<u64>::empty()
            },
            Err(e) => r == Result::<EntityId, UiError>::Err(e) && *final(tree) == *old(tree),
        },
{
    image_panei(class, Vec::new(), tree, store, parent)
}

/// Commits an image element meant to get children, with auxiliary data
/// attached.
pub fn image_panei(
    class: &ImageClass,
    extras: Vec<u64>,
    tree: &mut UiTree,
    store: &DepStore,
    parent: EntityId,
) -> (r: Result<EntityId, UiError>)
    requires
        old(tree).wf(),
        old(tree).contains(parent),
    ensures
        final(tree).wf(),
        match image_class_sem(*class, default_image_props(), *store) {
            Ok(p) => {
                &&& r matches Ok(id)
                &&& spawned(*old(tree), *final(tree), Some(parent), id)
                &&& final(tree).nodes@[id.0 as int].value == UiValue::Image(p)
                &&& final(tree).nodes@[id.0 as int].extras@ == extras@
            },
            Err(e) => r == Result::<EntityId, UiError>::Err(e) && *final(tree) == *old(tree),
        },
{
    let mut props = ImageProps::default();
    match class.apply(&mut props, store) {
        Ok(()) => Ok(tree.spawn(Some(parent), UiValue::Image(props), extras)),
        Err(e) => Err(e),
    }
}

/// Commits a button whose single child is a text element: built purely from
/// [`buttoni`] and [`texti`], so constructors compose just as classes do.
pub fn text_button(
    txt: String,
    class: &StyleClass,
    text_style: &TextStyleClass,
    tree: &mut UiTree,
    store: &DepStore,
    parent: EntityId,
) -> (r: Result<EntityId, UiError>)
    requires
        old(tree).wf(),
        old(tree).contains(parent),
    ensures
        final(tree).wf(),
        match style_class_sem(*class, default_style(), *store) {
            Err(e) => r == Result::<EntityId, UiError>::Err(e) && *final(tree) == *old(tree),
            Ok(bs) => match text_style_class_sem(*text_style, default_text_style(), *store) {
                Err(e) => {
                    &&& r == Result::<EntityId, UiError>::Err(e)
                    &&& spawned(
                        *old(tree),
                        *final(tree),
                        Some(parent),
                        EntityId(old(tree).nodes@.len() as usize),
                    )
                    &&& final(tree).nodes@[old(tree).nodes@.len() as int].value == UiValue::Button(
                        bs,
                    )
                },
                Ok(ts) => text_button_built(
                    *old(tree),
                    *final(tree),
                    parent,
                    bs,
                    txt,
                    ts,
                    Seq::<u64>::empty(),
                    r,
                ),
            },
        },
{
    text_buttoni(txt, class, text_style, Vec::new(), tree, store, parent)
}

/// Commits a button whose single child is a text element, with auxiliary
/// data attached to the button.
///
/// If the text-style class fails, the button had already been committed:
/// the caller is left with that prefix, as there is no rollback.
pub fn text_buttoni(
    txt: String,
    class: &StyleClass,
    text_style: &TextStyleClass,
    extras: Vec<u64>,
    tree: &mut UiTree,
    store: &DepStore,
    parent: EntityId,
) -> (r: Result<EntityId, UiError>)
    requires
        old(tree).wf(),
        old(tree).contains(parent),
    ensures
        final(tree).wf(),
        match style_class_sem(*class, default_style(), *store) {
            Err(e) => r == Result::<EntityId, UiError>::Err(e) && *final(tree) == *old(tree),
            Ok(bs) => match text_style_class_sem(*text_style, default_text_style(), *store) {
                Err(e) => {
                    &&& r == Result::<EntityId, UiError>::Err(e)
                    &&& spawned(
                        *old(tree),
                        *final(tree),
                        Some(parent),
                        EntityId(old(tree).nodes@.len() as usize),
                    )
                    &&& final(tree).nodes@[old(tree).nodes@.len() as int].value == UiValue::Button(
                        bs,
                    )
                },
                Ok(ts) => text_button_built(*old(tree), *final(tree), parent, bs, txt, ts, extras@, r),
            },
        },
{
    match buttoni(class, extras, tree, store, parent) {
        Ok(b) => {
            let layout = StyleClass::Many(Vec::new());
            match texti(txt, &layout, text_style, Vec::new(), tree, store, b) {
                Ok(_t) => Ok(b),
                Err(e) => Err(e),
            }
        },
        Err(e) => Err(e),
    }
}

/// Exactly what a finished text button looks like: one button entity under
/// `parent` whose only child is one text element carrying the single run
/// `txt`, and nothing else touched.
pub open spec fn text_button_built(
    pre: UiTree,
    post: UiTree,
    parent: EntityId,
    bs: Style,
    txt: String,
    ts: TextStyle,
    extras: Seq<u64>,
    r: Result<EntityId, UiError>,
) -> bool {
    let n0 = pre.nodes@.len() as int;
    &&& r matches Ok(b)
    &&& b.0 == n0
    &&& post.nodes@.len() == n0 + 2
    &&& post.nodes@[n0].value == UiValue::Button(bs)
    &&& post.nodes@[n0].extras@ == extras
    &&& post.nodes@[n0].parent == Some(parent)
    &&& post.nodes@[n0].children@ == seq![EntityId((n0 + 1) as usize)]
    &&& text_committed(post, EntityId((n0 + 1) as usize), default_style(), txt, ts)
    &&& post.nodes@[n0 + 1].extras@ == Seq::<u64>::empty()
    &&& post.nodes@[n0 + 1].parent == Some(EntityId(n0 as usize))
    &&& post.nodes@[n0 + 1].children@ == Seq::<EntityId>::empty()
    &&& post.nodes@[parent.0 as int].children@ == pre.nodes@[parent.0 as int].children@.push(
        EntityId(n0 as usize),
    )
    &&& forall|j: int| 0 <= j < n0 && j != parent.0 ==> post.nodes@[j] == pre.nodes@[j]
}

/// The style of every cell of a `rows` by `columns` grid: an exact
/// `100/columns` percent wide and `100/rows` percent tall centered container.
pub open spec fn grid_cell_style(rows: usize, columns: usize) -> Style {
    Style {
        width: Val::Percent { num: 100, den: columns as u64 },
        height: Val::Percent { num: 100, den: rows as u64 },
        justify_content: JustifyContent::Center,
        align_items: AlignItems::Center,
        flex_wrap: FlexWrap::NoWrap,
        background: Color { r: 0, g: 0, b: 0, a: 0 },
    }
}

/// The position of cell `(row, col)` in the row-major cell order.
pub open spec fn cell_index(row: int, col: int, columns: int) -> int {
    row * columns + col
}

/// Exactly what a finished grid looks like: one wrapping container under
/// `parent` whose children are `rows * columns` fresh cell entities with
/// consecutive handles in row-major order, each an exactly sized centered
/// container with no children yet, and nothing else touched.
pub open spec fn grid_built(
    pre: UiTree,
    post: UiTree,
    parent: EntityId,
    container_style: Style,
    rows: usize,
    columns: usize,
    extras: Seq<u64>,
    container: EntityId,
    cells: Seq<EntityId>,
) -> bool {
    let n0 = pre.nodes@.len() as int;
    &&& container.0 == n0
    &&& post.nodes@.len() == n0 + 1 + (rows as int) * (columns as int)
    &&& cells.len() == (rows as int) * (columns as int)
    &&& forall|k: int| 0 <= k < cells.len() ==> (#[trigger] cells[k]).0 == n0 + 1 + k
    &&& post.nodes@[n0].value == UiValue::Node(container_style)
    &&& post.nodes@[n0].extras@ == extras
    &&& post.nodes@[n0].parent == Some(parent)
    &&& post.nodes@[n0].children@ == cells
    &&& forall|k: int|
        0 <= k < cells.len() ==> {
            let c = (#[trigger] cells[k]).0 as int;
            &&& post.nodes@[c].value == UiValue::Node(grid_cell_style(rows, columns))
            &&& post.nodes@[c].extras@ == Seq::<u64>::empty()
            &&& post.nodes@[c].parent == Some(container)
            &&& post.nodes@[c].children@ == Seq::<EntityId>::empty()
        }
    &&& post.nodes@[parent.0 as int].children@ == pre.nodes@[parent.0 as int].children@.push(
        container,
    )
    &&& post.nodes@[parent.0 as int].value == pre.nodes@[parent.0 as int].value
    &&& post.nodes@[parent.0 as int].extras == pre.nodes@[parent.0 as int].extras
    &&& post.nodes@[parent.0 as int].parent == pre.nodes@[parent.0 as int].parent
    &&& forall|j: int| 0 <= j < n0 && j != parent.0 ==> post.nodes@[j] == pre.nodes@[j]
}

/// Commits a wrapping container filled with `rows * columns` equally sized
/// cell containers, visited row by row, and returns the container's handle
/// together with the cells' handles in row-major order.  The caller then
/// populates each cell through its handle.
pub fn grid(
    rows: usize,
    columns: usize,
    class: &StyleClass,
    tree: &mut UiTree,
    store: &DepStore,
    parent: EntityId,
) -> (r: Result<(EntityId, Vec<EntityId>), UiError>)
    requires
        old(tree).wf(),
        old(tree).contains(parent),
    ensures
        final(tree).wf(),
        match style_class_sem(*class, default_style(), *store) {
            Err(e) => r == Result::<(EntityId, Vec<EntityId>), UiError>::Err(e) && *final(tree)
                == *old(tree),
            Ok(s) => {
                &&& r matches Ok(pr)
                &&& grid_built(
                    *old(tree),
                    *final(tree),
                    parent,
                    Style { flex_wrap: FlexWrap::Wrap, ..s },
                    rows,
                    columns,
                    Seq::<u64>::empty(),
                    pr.0,
                    pr.1@,
                )
                &&& forall|rw: int, cl: int|
                    0 <= rw < rows && 0 <= cl < columns ==> {
                        &&& 0 <= #[trigger] cell_index(rw, cl, columns as int) < pr.1@.len()
                        &&& pr.1@[cell_index(rw, cl, columns as int)].0 == old(
                            tree,
                        ).nodes@.len() + 1 + cell_index(rw, cl, columns as int)
                    }
            },
        },
{
    gridi(rows, columns, class, Vec::new(), tree, store, parent)
}

/// Commits a wrapping container filled with `rows * columns` equally sized
/// cell containers, with auxiliary data attached to the container.
#[verifier::loop_isolation(false)]
pub fn gridi(
    rows: usize,
    columns: usize,
    class: &StyleClass,
    extras: Vec<u64>,
    tree: &mut UiTree,
    store: &DepStore,
    parent: EntityId,
) -> (r: Result<(EntityId, Vec<EntityId>), UiError>)
    requires
        old(tree).wf(),
        old(tree).contains(parent),
    ensures
        final(tree).wf(),
        match style_class_sem(*class, default_style(), *store) {
            Err(e) => r == Result::<(EntityId, Vec<EntityId>), UiError>::Err(e) && *final(tree)
                == *old(tree),
            Ok(s) => {
                &&& r matches Ok(pr)
                &&& grid_built(
                    *old(tree),
                    *final(tree),
                    parent,
                    Style { flex_wrap: FlexWrap::Wrap, ..s },
                    rows,
                    columns,
                    extras@,
                    pr.0,
                    pr.1@,
                )
                &&& forall|rw: int, cl: int|
                    0 <= rw < rows && 0 <= cl < columns ==> {
                        &&& 0 <= #[trigger] cell_index(rw, cl, columns as int) < pr.1@.len()
                        &&& pr.1@[cell_index(rw, cl, columns as int)].0 == old(
                            tree,
                        ).nodes@.len() + 1 + cell_index(rw, cl, columns as int)
                    }
            },
        },
{
    let ghost n0 = old(tree).nodes@.len() as int;
    let mut style = Style::default();
    match class.apply(&mut style, store) {
        Ok(()) => {},
        Err(e) => {
            return Err(e);
        },
    }
    style.flex_wrap = FlexWrap::Wrap;
    let ghost cstyle = style;
    let ghost gex = extras@;
    let container = tree.spawn(Some(parent), UiValue::Node(style), extras);
    let mut cells: Vec<EntityId> = Vec::new();
    let mut rw: usize = 0;
    while rw < rows
        invariant
            rw <= rows,
            tree.wf(),
            cells@.len() == rw * (columns as int),
            tree.nodes@.len() == n0 + 1 + rw * (columns as int),
            forall|k: int| 0 <= k < cells@.len() ==> (#[trigger] cells@[k]).0 == n0 + 1 + k,
            tree.nodes@[n0].value == UiValue::Node(cstyle),
            tree.nodes@[n0].extras@ == gex,
            tree.nodes@[n0].parent == Some(parent),
            tree.nodes@[n0].children@ == cells@,
            forall|k: int|
                0 <= k < cells@.len() ==> {
                    let c = (#[trigger] cells@[k]).0 as int;
                    &&& tree.nodes@[c].value == UiValue::Node(grid_cell_style(rows, columns))
                    &&& tree.nodes@[c].extras@ == Seq::<u64>::empty()
                    &&& tree.nodes@[c].parent == Some(container)
                    &&& tree.nodes@[c].children@ == Seq::<EntityId>::empty()
                },
            tree.nodes@[parent.0 as int].children@ == old(tree).nodes@[parent.0 as int].children@
                .push(container),
            tree.nodes@[parent.0 as int].value == old(tree).nodes@[parent.0 as int].value,
            tree.nodes@[parent.0 as int].extras == old(tree).nodes@[parent.0 as int].extras,
            tree.nodes@[parent.0 as int].parent == old(tree).nodes@[parent.0 as int].parent,
            forall|j: int|
                0 <= j < n0 && j != parent.0 ==> tree.nodes@[j] == old(tree).nodes@[j],
        decreases rows - rw,
    {
        let mut cl: usize = 0;
        while cl < columns
            invariant
                rw < rows,
                cl <= columns,
                tree.wf(),
                cells@.len() == rw * (columns as int) + cl,
                tree.nodes@.len() == n0 + 1 + rw * (columns as int) + cl,
                forall|k: int| 0 <= k < cells@.len() ==> (#[trigger] cells@[k]).0 == n0 + 1 + k,
                tree.nodes@[n0].value == UiValue::Node(cstyle),
                tree.nodes@[n0].extras@ == gex,
                tree.nodes@[n0].parent == Some(parent),
                tree.nodes@[n0].children@ == cells@,
                forall|k: int|
                    0 <= k < cells@.len() ==> {
                        let c = (#[trigger] cells@[k]).0 as int;
                        &&& tree.nodes@[c].value == UiValue::Node(grid_cell_style(rows, columns))
                        &&& tree.nodes@[c].extras@ == Seq::<u64>::empty()
                        &&& tree.nodes@[c].parent == Some(container)
                        &&& tree.nodes@[c].children@ == Seq::<EntityId>::empty()
                    },
                tree.nodes@[parent.0 as int].children@ == old(tree).nodes@[parent.0 as int]
                    .children@.push(container),
                tree.nodes@[parent.0 as int].value == old(tree).nodes@[parent.0 as int].value,
                tree.nodes@[parent.0 as int].extras == old(tree).nodes@[parent.0 as int].extras,
                tree.nodes@[parent.0 as int].parent == old(tree).nodes@[parent.0 as int].parent,
                forall|j: int|
                    0 <= j < n0 && j != parent.0 ==> tree.nodes@[j] == old(tree).nodes@[j],
            decreases columns - cl,
        {
            let cell_style = Style {
                width: Val::Percent { num: 100, den: columns as u64 },
                height: Val::Percent { num: 100, den: rows as u64 },
                justify_content: JustifyContent::Center,
                align_items: AlignItems::Center,
                flex_wrap: FlexWrap::NoWrap,
                background: Color { r: 0, g: 0, b: 0, a: 0 },
            };
            let cell = tree.spawn(Some(container), UiValue::Node(cell_style), Vec::new());
            cells.push(cell);
            cl = cl + 1;
        }
        proof {
            assert((rw + 1) * (columns as int) == rw * (columns as int) + (columns as int))
                by (nonlinear_arith);
        }
        rw = rw + 1;
    }
    proof {
        assert(grid_built(
            *old(tree),
            *tree,
            parent,
            cstyle,
            rows,
            columns,
            gex,
            container,
            cells@,
        ));
        assert forall|rwi: int, cli: int|
            0 <= rwi < rows && 0 <= cli < columns implies {
            &&& 0 <= #[trigger] cell_index(rwi, cli, columns as int) < cells@.len()
            &&& cells@[cell_index(rwi, cli, columns as int)].0 == n0 + 1 + cell_index(
                rwi,
                cli,
                columns as int,
            )
        } by {
            assert(0 <= rwi * (columns as int) + cli < (rows as int) * (columns as int))
                by (nonlinear_arith)
                requires
                    0 <= rwi < rows as int,
                    0 <= cli < columns as int,
            ;
        }
    }
    Ok((container, cells))
}

} // verus!
