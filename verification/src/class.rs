//! Mutators and their composition.
//!
//! A *class* edits a freshly created UI value in place before it is committed
//! to the entity tree.  A single mutation is one edit; a class is either one
//! mutation or an ordered collection of classes applied left to right, so
//! classes nest and compose like the values they describe.  Any member may
//! fetch a named dependency from the [`crate::store::DepStore`]; the first
//! missing dependency aborts the whole application with its key.

use vstd::prelude::*;

use crate::store::{DepStore, DepValue, UiError};
use crate::style::{AlignItems, Color, FlexWrap, ImageProps, JustifyContent, Style, TextStyle, Val};

verus! {

/// A size given literally or fetched from the dependency store.
#[derive(Clone, Copy, Debug, PartialEq, Eq, Structural)]
pub enum ValSpec {
    Lit(Val),
    Dep(u64),
}

/// A color given literally or fetched from the dependency store.
#[derive(Clone, Copy, Debug, PartialEq, Eq, Structural)]
pub enum ColorSpec {
    Lit(Color),
    Dep(u64),
}

/// A number given literally or fetched from the dependency store.
#[derive(Clone, Copy, Debug, PartialEq, Eq, Structural)]
pub enum NumSpec {
    Lit(u64),
    Dep(u64),
}

/// What a [`ValSpec`] resolves to against a given store.
pub open spec fn val_spec_sem(v: ValSpec, store: DepStore) -> Result<Val, UiError> {
    match v {
        ValSpec::Lit(x) => Ok(x),
        ValSpec::Dep(k) => match store.spec_lookup(k) {
            Some(DepValue::Size(x)) => Ok(x),
            _ => Err(UiError::MissingDependency(k)),
        },
    }
}

/// What a [`ColorSpec`] resolves to against a given store.
pub open spec fn color_spec_sem(c: ColorSpec, store: DepStore) -> Result<Color, UiError> {
    match c {
        ColorSpec::Lit(x) => Ok(x),
        ColorSpec::Dep(k) => match store.spec_lookup(k) {
            Some(DepValue::Color(x)) => Ok(x),
            _ => Err(UiError::MissingDependency(k)),
        },
    }
}

/// What a [`NumSpec`] resolves to against a given store.
pub open spec fn num_spec_sem(n: NumSpec, store: DepStore) -> Result<u64, UiError> {
    match n {
        NumSpec::Lit(x) => Ok(x),
        NumSpec::Dep(k) => match store.spec_lookup(k) {
            Some(DepValue::Number(x)) => Ok(x),
            _ => Err(UiError::MissingDependency(k)),
        },
    }
}

/// Resolves a size against the store.
pub fn resolve_val(v: &ValSpec, store: &DepStore) -> (r: Result<Val, UiError>)
    ensures
        r == val_spec_sem(*v, *store),
{
    match v {
        ValSpec::Lit(x) => Ok(*x),
        ValSpec::Dep(k) => match store.get(*k) {
            Ok(DepValue::Size(x)) => Ok(x),
            Ok(_) => Err(UiError::MissingDependency(*k)),
            Err(e) => Err(e),
        },
    }
}

/// Resolves a color against the store.
pub fn resolve_color(c: &ColorSpec, store: &DepStore) -> (r: Result<Color, UiError>)
    ensures
        r == color_spec_sem(*c, *store),
{
    match c {
        ColorSpec::Lit(x) => Ok(*x),
        ColorSpec::Dep(k) => match store.get(*k) {
            Ok(DepValue::Color(x)) => Ok(x),
            Ok(_) => Err(UiError::MissingDependency(*k)),
            Err(e) => Err(e),
        },
    }
}

/// Resolves a number against the store.
pub fn resolve_num(n: &NumSpec, store: &DepStore) -> (r: Result<u64, UiError>)
    ensures
        r == num_spec_sem(*n, *store),
{
    match n {
        NumSpec::Lit(x) => Ok(*x),
        NumSpec::Dep(k) => match store.get(*k) {
            Ok(DepValue::Number(x)) => Ok(x),
            Ok(_) => Err(UiError::MissingDependency(*k)),
            Err(e) => Err(e),
        },
    }
}

/// One edit of a [`Style`].
#[derive(Clone, Copy, Debug, PartialEq, Eq, Structural)]
pub enum StyleMutation {
    Width(ValSpec),
    Height(ValSpec),
    Justify(JustifyContent),
    Align(AlignItems),
    Wrap(FlexWrap),
    Background(ColorSpec),
}

/// A mutator for style-bearing UI values: one mutation, or an ordered
/// collection of classes applied left to right.  `Many` of an empty
/// collection is the identity class.
#[derive(Debug)]
pub enum StyleClass {
    One(StyleMutation),
    Many(Vec<StyleClass>),
}

/// What one style mutation does to a style, against a given store.
pub open spec fn style_mutation_sem(m: StyleMutation, s: Style, store: DepStore) -> Result<
    Style,
    UiError,
> {
    match m {
        StyleMutation::Width(v) => match val_spec_sem(v, store) {
            Ok(x) => Ok(Style { width: x, ..s }),
            Err(e) => Err(e),
        },
        StyleMutation::Height(v) => match val_spec_sem(v, store) {
            Ok(x) => Ok(Style { height: x, ..s }),
            Err(e) => Err(e),
        },
        StyleMutation::Justify(j) => Ok(Style { justify_content: j, ..s }),
        StyleMutation::Align(a) => Ok(Style { align_items: a, ..s }),
        StyleMutation::Wrap(w) => Ok(Style { flex_wrap: w, ..s }),
        StyleMutation::Background(c) => match color_spec_sem(c, store) {
            Ok(x) => Ok(Style { background: x, ..s }),
            Err(e) => Err(e),
        },
    }
}

/// What a style class does to a style, against a given store.
pub open spec fn style_class_sem(c: StyleClass, s: Style, store: DepStore) -> Result<
    Style,
    UiError,
>
    decreases c,
{
    match c {
        StyleClass::One(m) => style_mutation_sem(m, s, store),
        StyleClass::Many(cs) => style_classes_sem(cs@, s, store),
    }
}

/// What an ordered collection of style classes does, applied left to right;
/// the empty collection leaves the style unchanged.
pub open spec fn style_classes_sem(cs: Seq<StyleClass>, s: Style, store: DepStore) -> Result<
    Style,
    UiError,
>
    decreases cs,
{
    if cs.len() == 0 {
        Ok(s)
    } else {
        match style_class_sem(cs[0], s, store) {
            Ok(s1) => style_classes_sem(cs.drop_first(), s1, store),
            Err(e) => Err(e),
        }
    }
}

/// Applies one style mutation.
pub fn apply_style_mutation(m: &StyleMutation, s: Style, store: &DepStore) -> (r: Result<
    Style,
    UiError,
>)
    ensures
        r == style_mutation_sem(*m, s, *store),
{
    match m {
        StyleMutation::Width(v) => match resolve_val(v, store) {
            Ok(x) => Ok(Style { width: x, ..s }),
            Err(e) => Err(e),
        },
        StyleMutation::Height(v) => match resolve_val(v, store) {
            Ok(x) => Ok(Style { height: x, ..s }),
            Err(e) => Err(e),
        },
        StyleMutation::Justify(j) => Ok(Style { justify_content: *j, ..s }),
        StyleMutation::Align(a) => Ok(Style { align_items: *a, ..s }),
        StyleMutation::Wrap(w) => Ok(Style { flex_wrap: *w, ..s }),
        StyleMutation::Background(c) => match resolve_color(c, store) {
            Ok(x) => Ok(Style { background: x, ..s }),
            Err(e) => Err(e),
        },
    }
}

impl StyleClass {
    /// Applies this class to `s`, fetching dependencies from `store`.
    ///
    /// On the first missing dependency the style is left exactly as it was
    /// and the error names the missing key.
    pub fn apply(&self, s: &mut Style, store: &DepStore) -> (r: Result<(), UiError>)
        ensures
            match style_class_sem(*self, *old(s), *store) {
                Ok(s2) => r is Ok && *final(s) == s2,
                Err(e) => r == Result::<(), UiError>::Err(e) && *final(s) == *old(s),
            },
    {
        match eval_style_class(self, *s, store) {
            Ok(s2) => {
                *s = s2;
                Ok(())
            },
            Err(e) => Err(e),
        }
    }
}

/// Evaluates a style class against a starting style and a store.
#[verifier::loop_isolation(false)]
pub fn eval_style_class(c: &StyleClass, s: Style, store: &DepStore) -> (r: Result<Style, UiError>)
    ensures
        r == style_class_sem(*c, s, *store),
    decreases *c,
{
    match c {
        StyleClass::One(m) => apply_style_mutation(m, s, store),
        StyleClass::Many(cs) => {
            let n = cs.len();
            let mut cur = s;
            let mut i: usize = 0;
            proof {
                assert(cs@.skip(0) =~= cs@);
            }
            while i < n
                invariant
                    i <= n,
                    n == cs@.len(),
                    style_classes_sem(cs@, s, *store) == style_classes_sem(
                        cs@.skip(i as int),
                        cur,
                        *store,
                    ),
                decreases n - i,
            {
                proof {
                    assert(cs@.skip(i as int)[0] == cs@[i as int]);
                    assert(cs@.skip(i as int).drop_first() =~= cs@.skip(i as int + 1));
                    assert(decreases_to!(*c => (*c)->Many_0));
                    assert(decreases_to!(cs@ => cs@[i as int]));
                }
                match eval_style_class(&cs[i], cur, store) {
                    Ok(s1) => {
                        cur = s1;
                    },
                    Err(e) => {
                        proof {
                            assert(style_classes_sem(cs@.skip(i as int), cur, *store)
                                == Err::<Style, UiError>(e));
                        }
                        return Err(e);
                    },
                }
                i = i + 1;
            }
            proof {
                assert(cs@.skip(n as int) =~= Seq::<StyleClass>::empty());
            }
            Ok(cur)
        },
    }
}

/// One edit of a [`TextStyle`].
#[derive(Clone, Copy, Debug, PartialEq, Eq, Structural)]
pub enum TextStyleMutation {
    FontSize(NumSpec),
    FontColor(ColorSpec),
}

/// A mutator for text styles: one mutation, or an ordered collection of
/// classes applied left to right.  `Many` of an empty collection is the
/// identity class.
#[derive(Debug)]
pub enum TextStyleClass {
    One(TextStyleMutation),
    Many(Vec<TextStyleClass>),
}

/// What one text-style mutation does, against a given store.
pub open spec fn text_style_mutation_sem(
    m: TextStyleMutation,
    t: TextStyle,
    store: DepStore,
) -> Result<TextStyle, UiError> {
    match m {
        TextStyleMutation::FontSize(n) => match num_spec_sem(n, store) {
            Ok(x) => Ok(TextStyle { font_size: x, ..t }),
            Err(e) => Err(e),
        },
        TextStyleMutation::FontColor(c) => match color_spec_sem(c, store) {
            Ok(x) => Ok(TextStyle { color: x, ..t }),
            Err(e) => Err(e),
        },
    }
}

/// What a text-style class does, against a given store.
pub open spec fn text_style_class_sem(c: TextStyleClass, t: TextStyle, store: DepStore) -> Result<
    TextStyle,
    UiError,
>
    decreases c,
{
    match c {
        TextStyleClass::One(m) => text_style_mutation_sem(m, t, store),
        TextStyleClass::Many(cs) => text_style_classes_sem(cs@, t, store),
    }
}

/// What an ordered collection of text-style classes does, applied left to
/// right; the empty collection leaves the text style unchanged.
pub open spec fn text_style_classes_sem(
    cs: Seq<TextStyleClass>,
    t: TextStyle,
    store: DepStore,
) -> Result<TextStyle, UiError>
    decreases cs,
{
    if cs.len() == 0 {
        Ok(t)
    } else {
        match text_style_class_sem(cs[0], t, store) {
            Ok(t1) => text_style_classes_sem(cs.drop_first(), t1, store),
            Err(e) => Err(e),
        }
    }
}

/// Applies one text-style mutation.
pub fn apply_text_style_mutation(m: &TextStyleMutation, t: TextStyle, store: &DepStore) -> (r:
    Result<TextStyle, UiError>)
    ensures
        r == text_style_mutation_sem(*m, t, *store),
{
    match m {
        TextStyleMutation::FontSize(n) => match resolve_num(n, store) {
            Ok(x) => Ok(TextStyle { font_size: x, ..t }),
            Err(e) => Err(e),
        },
        TextStyleMutation::FontColor(c) => match resolve_color(c, store) {
            Ok(x) => Ok(TextStyle { color: x, ..t }),
            Err(e) => Err(e),
        },
    }
}

impl TextStyleClass {
    /// Applies this class to `t`, fetching dependencies from `store`.
    ///
    /// On the first missing dependency the text style is left exactly as it
    /// was and the error names the missing key.
    pub fn apply(&self, t: &mut TextStyle, store: &DepStore) -> (r: Result<(), UiError>)
        ensures
            match text_style_class_sem(*self, *old(t), *store) {
                Ok(t2) => r is Ok && *final(t) == t2,
                Err(e) => r == Result::<(), UiError>::Err(e) && *final(t) == *old(t),
            },
    {
        match eval_text_style_class(self, *t, store) {
            Ok(t2) => {
                *t = t2;
                Ok(())
            },
            Err(e) => Err(e),
        }
    }
}

/// Evaluates a text-style class against a starting text style and a store.
#[verifier::loop_isolation(false)]
pub fn eval_text_style_class(c: &TextStyleClass, t: TextStyle, store: &DepStore) -> (r: Result<
    TextStyle,
    UiError,
>)
    ensures
        r == text_style_class_sem(*c, t, *store),
    decreases *c,
{
    match c {
        TextStyleClass::One(m) => apply_text_style_mutation(m, t, store),
        TextStyleClass::Many(cs) => {
            let n = cs.len();
            let mut cur = t;
            let mut i: usize = 0;
            proof {
                assert(cs@.skip(0) =~= cs@);
            }
            while i < n
                invariant
                    i <= n,
                    text_style_classes_sem(cs@, t, *store) == text_style_classes_sem(
                        cs@.skip(i as int),
                        cur,
                        *store,
                    ),
                decreases n - i,
            {
                proof {
                    assert(cs@.skip(i as int)[0] == cs@[i as int]);
                    assert(cs@.skip(i as int).drop_first() =~= cs@.skip(i as int + 1));
                    assert(decreases_to!(*c => (*c)->Many_0));
                    assert(decreases_to!(cs@ => cs@[i as int]));
                }
                match eval_text_style_class(&cs[i], cur, store) {
                    Ok(t1) => {
                        cur = t1;
                    },
                    Err(e) => {
                        proof {
                            assert(text_style_classes_sem(cs@.skip(i as int), cur, *store)
                                == Err::<TextStyle, UiError>(e));
                        }
                        return Err(e);
                    },
                }
                i = i + 1;
            }
            proof {
                assert(cs@.skip(n as int) =~= Seq::<TextStyleClass>::empty());
            }
            Ok(cur)
        },
    }
}

/// One edit of the configuration of an image element.
#[derive(Clone, Copy, Debug, PartialEq, Eq, Structural)]
pub enum ImageMutation {
    /// An edit of the layout style.
    Layout(StyleMutation),
    /// Sets the handle of the picture the element shows.
    Source(NumSpec),
}

/// A mutator for image elements: one mutation, or an ordered collection of
/// classes applied left to right.  `Many` of an empty collection is the
/// identity class.
#[derive(Debug)]
pub enum ImageClass {
    One(ImageMutation),
    Many(Vec<ImageClass>),
}

/// What one image mutation does, against a given store.
pub open spec fn image_mutation_sem(m: ImageMutation, p: ImageProps, store: DepStore) -> Result<
    ImageProps,
    UiError,
> {
    match m {
        ImageMutation::Layout(sm) => match style_mutation_sem(sm, p.style, store) {
            Ok(s) => Ok(ImageProps { style: s, ..p }),
            Err(e) => Err(e),
        },
        ImageMutation::Source(n) => match num_spec_sem(n, store) {
            Ok(x) => Ok(ImageProps { image: x, ..p }),
            Err(e) => Err(e),
        },
    }
}

/// What an image class does, against a given store.
pub open spec fn image_class_sem(c: ImageClass, p: ImageProps, store: DepStore) -> Result<
    ImageProps,
    UiError,
>
    decreases c,
{
    match c {
        ImageClass::One(m) => image_mutation_sem(m, p, store),
        ImageClass::Many(cs) => image_classes_sem(cs@, p, store),
    }
}

/// What an ordered collection of image classes does, applied left to right;
/// the empty collection leaves the configuration unchanged.
pub open spec fn image_classes_sem(cs: Seq<ImageClass>, p: ImageProps, store: DepStore) -> Result<
    ImageProps,
    UiError,
>
    decreases cs,
{
    if cs.len() == 0 {
        Ok(p)
    } else {
        match image_class_sem(cs[0], p, store) {
            Ok(p1) => image_classes_sem(cs.drop_first(), p1, store),
            Err(e) => Err(e),
        }
    }
}

/// Applies one image mutation.
pub fn apply_image_mutation(m: &ImageMutation, p: ImageProps, store: &DepStore) -> (r: Result<
    ImageProps,
    UiError,
>)
    ensures
        r == image_mutation_sem(*m, p, *store),
{
    match m {
        ImageMutation::Layout(sm) => match apply_style_mutation(sm, p.style, store) {
            Ok(s) => Ok(ImageProps { style: s, ..p }),
            Err(e) => Err(e),
        },
        ImageMutation::Source(n) => match resolve_num(n, store) {
            Ok(x) => Ok(ImageProps { image: x, ..p }),
            Err(e) => Err(e),
        },
    }
}

impl ImageClass {
    /// Applies this class to `p`, fetching dependencies from `store`.
    ///
    /// On the first missing dependency the configuration is left exactly as
    /// it was and the error names the missing key.
    pub fn apply(&self, p: &mut ImageProps, store: &DepStore) -> (r: Result<(), UiError>)
        ensures
            match image_class_sem(*self, *old(p), *store) {
                Ok(p2) => r is Ok && *final(p) == p2,
                Err(e) => r == Result::<(), UiError>::Err(e) && *final(p) == *old(p),
            },
    {
        match eval_image_class(self, *p, store) {
            Ok(p2) => {
                *p = p2;
                Ok(())
            },
            Err(e) => Err(e),
        }
    }
}

/// Evaluates an image class against a starting configuration and a store.
#[verifier::loop_isolation(false)]
pub fn eval_image_class(c: &ImageClass, p: ImageProps, store: &DepStore) -> (r: Result<
    ImageProps,
    UiError,
>)
    ensures
        r == image_class_sem(*c, p, *store),
    decreases *c,
{
    match c {
        ImageClass::One(m) => apply_image_mutation(m, p, store),
        ImageClass::Many(cs) => {
            let n = cs.len();
            let mut cur = p;
            let mut i: usize = 0;
            proof {
                assert(cs@.skip(0) =~= cs@);
            }
            while i < n
                invariant
                    i <= n,
                    image_classes_sem(cs@, p, *store) == image_classes_sem(
                        cs@.skip(i as int),
                        cur,
                        *store,
                    ),
                decreases n - i,
            {
                proof {
                    assert(cs@.skip(i as int)[0] == cs@[i as int]);
                    assert(cs@.skip(i as int).drop_first() =~= cs@.skip(i as int + 1));
                    assert(decreases_to!(*c => (*c)->Many_0));
                    assert(decreases_to!(cs@ => cs@[i as int]));
                }
                match eval_image_class(&cs[i], cur, store) {
                    Ok(p1) => {
                        cur = p1;
                    },
                    Err(e) => {
                        proof {
                            assert(image_classes_sem(cs@.skip(i as int), cur, *store)
                                == Err::<ImageProps, UiError>(e));
                        }
                        return Err(e);
                    },
                }
                i = i + 1;
            }
            proof {
                assert(cs@.skip(n as int) =~= Seq::<ImageClass>::empty());
            }
            Ok(cur)
        },
    }
}

/// Identity law: a class that is an empty collection leaves any style
/// unchanged, against any store.
pub proof fn lemma_style_class_identity(c: StyleClass, s: Style, store: DepStore)
    requires
        c is Many,
        c->Many_0@.len() == 0,
    ensures
        style_class_sem(c, s, store) == Ok::<Style, UiError>(s),
{
}

/// Identity law for text-style classes.
pub proof fn lemma_text_style_class_identity(c: TextStyleClass, t: TextStyle, store: DepStore)
    requires
        c is Many,
        c->Many_0@.len() == 0,
    ensures
        text_style_class_sem(c, t, store) == Ok::<TextStyle, UiError>(t),
{
}

/// Identity law for image classes.
pub proof fn lemma_image_class_identity(c: ImageClass, p: ImageProps, store: DepStore)
    requires
        c is Many,
        c->Many_0@.len() == 0,
    ensures
        image_class_sem(c, p, store) == Ok::<ImageProps, UiError>(p),
{
}

/// Composition law: applying one collection of style classes and then a
/// second, left to right, is the same as applying their concatenation; the
/// first error wins.
pub proof fn lemma_style_classes_concat(
    a: Seq<StyleClass>,
    b: Seq<StyleClass>,
    s: Style,
    store: DepStore,
)
    ensures
        style_classes_sem(a + b, s, store) == match style_classes_sem(a, s, store) {
            Ok(s1) => style_classes_sem(b, s1, store),
            Err(e) => Err::<Style, UiError>(e),
        },
    decreases a.len(),
{
    if a.len() == 0 {
        assert(a + b =~= b);
    } else {
        assert((a + b)[0] == a[0]);
        assert((a + b).drop_first() =~= a.drop_first() + b);
        match style_class_sem(a[0], s, store) {
            Ok(s1) => {
                lemma_style_classes_concat(a.drop_first(), b, s1, store);
            },
            Err(e) => {},
        }
    }
}

/// Composition law for text-style classes.
pub proof fn lemma_text_style_classes_concat(
    a: Seq<TextStyleClass>,
    b: Seq<TextStyleClass>,
    t: TextStyle,
    store: DepStore,
)
    ensures
        text_style_classes_sem(a + b, t, store) == match text_style_classes_sem(a, t, store) {
            Ok(t1) => text_style_classes_sem(b, t1, store),
            Err(e) => Err::<TextStyle, UiError>(e),
        },
    decreases a.len(),
{
    if a.len() == 0 {
        assert(a + b =~= b);
    } else {
        assert((a + b)[0] == a[0]);
        assert((a + b).drop_first() =~= a.drop_first() + b);
        match text_style_class_sem(a[0], t, store) {
            Ok(t1) => {
                lemma_text_style_classes_concat(a.drop_first(), b, t1, store);
            },
            Err(e) => {},
        }
    }
}

/// Composition law for image classes.
pub proof fn lemma_image_classes_concat(
    a: Seq<ImageClass>,
    b: Seq<ImageClass>,
    p: ImageProps,
    store: DepStore,
)
    ensures
        image_classes_sem(a + b, p, store) == match image_classes_sem(a, p, store) {
            Ok(p1) => image_classes_sem(b, p1, store),
            Err(e) => Err::<ImageProps, UiError>(e),
        },
    decreases a.len(),
{
    if a.len() == 0 {
        assert(a + b =~= b);
    } else {
        assert((a + b)[0] == a[0]);
        assert((a + b).drop_first() =~= a.drop_first() + b);
        match image_class_sem(a[0], p, store) {
            Ok(p1) => {
                lemma_image_classes_concat(a.drop_first(), b, p1, store);
            },
            Err(e) => {},
        }
    }
}

} // verus!

