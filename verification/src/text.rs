//! Widgets that render and process text: labels and text boxes.

use vstd::prelude::*;

use crate::attrs::Attr;
use crate::base::BaseWidget;
use crate::base::Downcast;
use crate::callback::OnValueChange;
use crate::image::ImageContainer;
use crate::context::KISSContext;
use crate::context::KissError;
use crate::native::WidgetClass;
use crate::widget::Widget;
use crate::widget::WidgetStr;
use crate::widget::check_nul;
use crate::widget::str_has_nul;

verus! {

/// A static widget that renders text within its parent.
#[derive(Clone, Copy, PartialEq, Eq, Structural, Debug)]
pub struct Label(pub BaseWidget);

impl Widget for Label {
    open spec fn base_spec(self) -> BaseWidget {
        self.0
    }

    fn to_base(self) -> (r: BaseWidget) {
        self.0
    }
}

impl Downcast for Label {
    open spec fn classes() -> Set<WidgetClass> {
        set![WidgetClass::Label]
    }

    fn can_downcast(base: &BaseWidget, ctx: &KISSContext) -> (r: bool) {
        matches!(base.classname(ctx), WidgetClass::Label)
    }

    fn downcast(base: BaseWidget) -> (r: Label) {
        Label(base)
    }
}

impl ImageContainer for Label {

}

impl Label {
    /// Create a label showing `text`.
    pub fn new(ctx: &mut KISSContext, text: &str) -> (r: Result<Label, KissError>)
        requires
            old(ctx).wf(),
        ensures
            final(ctx).wf(),
            !old(ctx).running ==> r == Result::<Label, KissError>::Err(KissError::NotRunning)
                && *final(ctx) == *old(ctx),
            old(ctx).running && str_has_nul(text) ==> r == Result::<Label, KissError>::Err(
                KissError::InteriorNul,
            ) && *final(ctx) == *old(ctx),
            old(ctx).running && !str_has_nul(text) ==> (r matches Ok(l) && {
                &&& l.0.id() == old(ctx).native.count()
                &&& *final(ctx) == (KISSContext { native: final(ctx).native, ..*old(ctx) })
                &&& final(ctx).native.count() == old(ctx).native.count() + 1
                &&& final(ctx).native.class_of(l.0.id()) == WidgetClass::Label
                &&& final(ctx).native.alive(l.0.id())
                &&& final(ctx).native.parent_of(l.0.id()) is None
                &&& final(ctx).native.str_attr(l.0.id(), Attr::Title) == Some(text@)
                &&& forall|m: Attr|
                    m != Attr::Title ==> final(ctx).native.str_attr(l.0.id(), m) is None
                &&& forall|i: int|
                    old(ctx).native.has(i) ==> final(ctx).native.obj(i) == old(ctx).native.obj(i)
            }),
    {
        if !ctx.is_running() {
            return Err(KissError::NotRunning);
        }
        if check_nul(text) {
            return Err(KissError::InteriorNul);
        }
        let h = ctx.native.create(WidgetClass::Label);
        ctx.native.set_str_raw(h, Attr::Title, text.to_owned());
        Ok(Label(BaseWidget { raw: h }))
    }

    /// Create a blank label; the text can be set later.
    pub fn new_empty(ctx: &mut KISSContext) -> (r: Result<Label, KissError>)
        requires
            old(ctx).wf(),
        ensures
            final(ctx).wf(),
            !old(ctx).running ==> r == Result::<Label, KissError>::Err(KissError::NotRunning)
                && *final(ctx) == *old(ctx),
            old(ctx).running ==> (r matches Ok(l) && {
                &&& l.0.id() == old(ctx).native.count()
                &&& *final(ctx) == (KISSContext { native: final(ctx).native, ..*old(ctx) })
                &&& final(ctx).native.count() == old(ctx).native.count() + 1
                &&& final(ctx).native.class_of(l.0.id()) == WidgetClass::Label
                &&& final(ctx).native.alive(l.0.id())
                &&& final(ctx).native.parent_of(l.0.id()) is None
                &&& forall|m: Attr| final(ctx).native.str_attr(l.0.id(), m) is None
                &&& forall|i: int|
                    old(ctx).native.has(i) ==> final(ctx).native.obj(i) == old(ctx).native.obj(i)
            }),
    {
        if !ctx.is_running() {
            return Err(KissError::NotRunning);
        }
        let h = ctx.native.create(WidgetClass::Label);
        Ok(Label(BaseWidget { raw: h }))
    }

    /// Update the text of this label. Fails while a borrowed view of the
    /// text is alive.
    pub fn set_text(self, ctx: &mut KISSContext, text: &str) -> (r: Result<(), KissError>)
        requires
            old(ctx).wf(),
            old(ctx).running ==> self.0.valid(*old(ctx)),
        ensures
            final(ctx).wf(),
            !old(ctx).running ==> r == Result::<(), KissError>::Err(KissError::NotRunning)
                && *final(ctx) == *old(ctx),
            old(ctx).running && old(ctx).refcount(self.0, Attr::Title) > 0 ==> r == Result::<
                (),
                KissError,
            >::Err(KissError::BorrowViolation) && *final(ctx) == *old(ctx),
            old(ctx).running && old(ctx).refcount(self.0, Attr::Title) == 0 && str_has_nul(text)
                ==> r == Result::<(), KissError>::Err(KissError::InteriorNul) && *final(ctx)
                == *old(ctx),
            old(ctx).running && old(ctx).refcount(self.0, Attr::Title) == 0 && !str_has_nul(text)
                ==> {
                &&& r == Result::<(), KissError>::Ok(())
                &&& *final(ctx) == (KISSContext { native: final(ctx).native, ..*old(ctx) })
                &&& final(ctx).native.count() == old(ctx).native.count()
                &&& final(ctx).native.obj(self.0.id()) == (crate::native::NativeObject {
                    strs: final(ctx).native.obj(self.0.id()).strs,
                    ..old(ctx).native.obj(self.0.id())
                })
                &&& final(ctx).native.str_attr(self.0.id(), Attr::Title) == Some(text@)
                &&& forall|m: Attr|
                    m != Attr::Title ==> final(ctx).native.str_attr(self.0.id(), m) == old(
                        ctx,
                    ).native.str_attr(self.0.id(), m)
                &&& forall|i: int|
                    final(ctx).native.has(i) && i != self.0.id() ==> final(ctx).native.obj(i)
                        == old(ctx).native.obj(i)
            },
    {
        self.0.set_str_attribute(ctx, Attr::Title, text)
    }

    /// Get the text of this label as a borrow-tracked view; `None` if no
    /// text is set.
    pub fn get_text(self, ctx: &mut KISSContext) -> (r: Result<Option<WidgetStr>, KissError>)
        requires
            old(ctx).wf(),
            old(ctx).running ==> self.0.valid(*old(ctx)),
            old(ctx).running ==> old(ctx).refcount(self.0, Attr::Title) < usize::MAX,
        ensures
            final(ctx).wf(),
            !old(ctx).running ==> r == Result::<Option<WidgetStr>, KissError>::Err(
                KissError::NotRunning,
            ) && *final(ctx) == *old(ctx),
            old(ctx).running && old(ctx).native.str_attr(self.0.id(), Attr::Title) is None ==> (r
                matches Ok(o) && o is None && *final(ctx) == *old(ctx)),
            old(ctx).running && old(ctx).native.str_attr(self.0.id(), Attr::Title) is Some ==> (r
                matches Ok(o) && o matches Some(ws) && {
                &&& ws.target == self.0
                &&& ws.attr == Attr::Title
                &&& Some(ws.data@) == old(ctx).native.str_attr(self.0.id(), Attr::Title)
                &&& ws.wf(*final(ctx))
                &&& *final(ctx) == (KISSContext {
                    borrowed_strs: final(ctx).borrowed_strs,
                    ..*old(ctx)
                })
                &&& final(ctx).refcount(self.0, Attr::Title) == old(ctx).refcount(
                    self.0,
                    Attr::Title,
                ) + 1
                &&& forall|h2: usize, n2: Attr|
                    !(h2 == self.0.raw && n2 == Attr::Title) ==> final(ctx).refcount_at(h2, n2)
                        == old(ctx).refcount_at(h2, n2)
            }),
    {
        self.0.get_str_attribute(ctx, Attr::Title)
    }
}

/// A widget that renders user-editable text.
#[derive(Clone, Copy, PartialEq, Eq, Structural, Debug)]
pub struct TextBox(pub BaseWidget);

impl Widget for TextBox {
    open spec fn base_spec(self) -> BaseWidget {
        self.0
    }

    fn to_base(self) -> (r: BaseWidget) {
        self.0
    }
}

impl Downcast for TextBox {
    open spec fn classes() -> Set<WidgetClass> {
        set![WidgetClass::Text]
    }

    fn can_downcast(base: &BaseWidget, ctx: &KISSContext) -> (r: bool) {
        matches!(base.classname(ctx), WidgetClass::Text)
    }

    fn downcast(base: BaseWidget) -> (r: TextBox) {
        TextBox(base)
    }
}

impl OnValueChange for TextBox {

}

impl TextBox {
    /// Create a new, empty text box.
    pub fn new(ctx: &mut KISSContext) -> (r: Result<TextBox, KissError>)
        requires
            old(ctx).wf(),
        ensures
            final(ctx).wf(),
            !old(ctx).running ==> r == Result::<TextBox, KissError>::Err(KissError::NotRunning)
                && *final(ctx) == *old(ctx),
            old(ctx).running ==> (r matches Ok(t) && {
                &&& t.0.id() == old(ctx).native.count()
                &&& *final(ctx) == (KISSContext { native: final(ctx).native, ..*old(ctx) })
                &&& final(ctx).native.count() == old(ctx).native.count() + 1
                &&& final(ctx).native.class_of(t.0.id()) == WidgetClass::Text
                &&& final(ctx).native.alive(t.0.id())
                &&& final(ctx).native.parent_of(t.0.id()) is None
                &&& forall|m: Attr| final(ctx).native.str_attr(t.0.id(), m) is None
                &&& forall|m: Attr| !final(ctx).native.wired(t.0.id(), m)
                &&& forall|i: int|
                    old(ctx).native.has(i) ==> final(ctx).native.obj(i) == old(ctx).native.obj(i)
            }),
    {
        if !ctx.is_running() {
            return Err(KissError::NotRunning);
        }
        let h = ctx.native.create(WidgetClass::Text);
        Ok(TextBox(BaseWidget { raw: h }))
    }

    /// Set whether the text box accepts and renders newline characters.
    pub fn set_multiline(self, ctx: &mut KISSContext, multiline: bool) -> (r: Result<
        TextBox,
        KissError,
    >)
        requires
            old(ctx).wf(),
            old(ctx).running ==> self.0.valid(*old(ctx)),
        ensures
            final(ctx).wf(),
            !old(ctx).running ==> r == Result::<TextBox, KissError>::Err(KissError::NotRunning)
                && *final(ctx) == *old(ctx),
            old(ctx).running && old(ctx).refcount(self.0, Attr::Multiline) > 0 ==> r == Result::<
                TextBox,
                KissError,
            >::Err(KissError::BorrowViolation) && *final(ctx) == *old(ctx),
            old(ctx).running && old(ctx).refcount(self.0, Attr::Multiline) == 0 ==> {
                &&& r == Result::<TextBox, KissError>::Ok(self)
                &&& *final(ctx) == (KISSContext { native: final(ctx).native, ..*old(ctx) })
                &&& final(ctx).native.count() == old(ctx).native.count()
                &&& final(ctx).native.obj(self.0.id()) == (crate::native::NativeObject {
                    strs: final(ctx).native.obj(self.0.id()).strs,
                    ..old(ctx).native.obj(self.0.id())
                })
                &&& final(ctx).native.str_attr(self.0.id(), Attr::Multiline) == Some(
                    if multiline {
                        "YES"@
                    } else {
                        "NO"@
                    },
                )
                &&& forall|i: int|
                    final(ctx).native.has(i) && i != self.0.id() ==> final(ctx).native.obj(i)
                        == old(ctx).native.obj(i)
            },
    {
        match self.0.set_bool_attribute(ctx, Attr::Multiline, multiline) {
            Ok(()) => Ok(self),
            Err(e) => Err(e),
        }
    }

    /// Set the rendered width of the text box in columns.
    pub fn set_visible_columns(self, ctx: &mut KISSContext, cols: u32) -> (r: Result<
        TextBox,
        KissError,
    >)
        requires
            old(ctx).wf(),
            old(ctx).running ==> self.0.valid(*old(ctx)),
            cols <= i32::MAX,
        ensures
            final(ctx).wf(),
            !old(ctx).running ==> r == Result::<TextBox, KissError>::Err(KissError::NotRunning)
                && *final(ctx) == *old(ctx),
            old(ctx).running ==> {
                &&& r == Result::<TextBox, KissError>::Ok(self)
                &&& *final(ctx) == (KISSContext { native: final(ctx).native, ..*old(ctx) })
                &&& final(ctx).native.count() == old(ctx).native.count()
                &&& final(ctx).native.obj(self.0.id()) == (crate::native::NativeObject {
                    ints: final(ctx).native.obj(self.0.id()).ints,
                    ..old(ctx).native.obj(self.0.id())
                })
                &&& final(ctx).native.int_attr(self.0.id(), Attr::VisibleColumns) == cols as i32
                &&& forall|i: int|
                    final(ctx).native.has(i) && i != self.0.id() ==> final(ctx).native.obj(i)
                        == old(ctx).native.obj(i)
            },
    {
        match self.0.set_int_attribute(ctx, Attr::VisibleColumns, cols as i32) {
            Ok(()) => Ok(self),
            Err(e) => Err(e),
        }
    }

    /// Set the rendered height of the text box in lines.
    pub fn set_visible_lines(self, ctx: &mut KISSContext, lines: u32) -> (r: Result<
        TextBox,
        KissError,
    >)
        requires
            old(ctx).wf(),
            old(ctx).running ==> self.0.valid(*old(ctx)),
            lines <= i32::MAX,
        ensures
            final(ctx).wf(),
            !old(ctx).running ==> r == Result::<TextBox, KissError>::Err(KissError::NotRunning)
                && *final(ctx) == *old(ctx),
            old(ctx).running ==> {
                &&& r == Result::<TextBox, KissError>::Ok(self)
                &&& *final(ctx) == (KISSContext { native: final(ctx).native, ..*old(ctx) })
                &&& final(ctx).native.count() == old(ctx).native.count()
                &&& final(ctx).native.obj(self.0.id()) == (crate::native::NativeObject {
                    ints: final(ctx).native.obj(self.0.id()).ints,
                    ..old(ctx).native.obj(self.0.id())
                })
                &&& final(ctx).native.int_attr(self.0.id(), Attr::VisibleLines) == lines as i32
                &&& forall|i: int|
                    final(ctx).native.has(i) && i != self.0.id() ==> final(ctx).native.obj(i)
                        == old(ctx).native.obj(i)
            },
    {
        match self.0.set_int_attribute(ctx, Attr::VisibleLines, lines as i32) {
            Ok(()) => Ok(self),
            Err(e) => Err(e),
        }
    }

    /// Set the text of this text box. Fails while a borrowed view of the
    /// text is alive.
    pub fn set_text(self, ctx: &mut KISSContext, value: &str) -> (r: Result<(), KissError>)
        requires
            old(ctx).wf(),
            old(ctx).running ==> self.0.valid(*old(ctx)),
        ensures
            final(ctx).wf(),
            !old(ctx).running ==> r == Result::<(), KissError>::Err(KissError::NotRunning)
                && *final(ctx) == *old(ctx),
            old(ctx).running && old(ctx).refcount(self.0, Attr::Value) > 0 ==> r == Result::<
                (),
                KissError,
            >::Err(KissError::BorrowViolation) && *final(ctx) == *old(ctx),
            old(ctx).running && old(ctx).refcount(self.0, Attr::Value) == 0 && str_has_nul(value)
                ==> r == Result::<(), KissError>::Err(KissError::InteriorNul) && *final(ctx)
                == *old(ctx),
            old(ctx).running && old(ctx).refcount(self.0, Attr::Value) == 0 && !str_has_nul(value)
                ==> {
                &&& r == Result::<(), KissError>::Ok(())
                &&& *final(ctx) == (KISSContext { native: final(ctx).native, ..*old(ctx) })
                &&& final(ctx).native.count() == old(ctx).native.count()
                &&& final(ctx).native.obj(self.0.id()) == (crate::native::NativeObject {
                    strs: final(ctx).native.obj(self.0.id()).strs,
                    ..old(ctx).native.obj(self.0.id())
                })
                &&& final(ctx).native.str_attr(self.0.id(), Attr::Value) == Some(value@)
                &&& forall|m: Attr|
                    m != Attr::Value ==> final(ctx).native.str_attr(self.0.id(), m) == old(
                        ctx,
                    ).native.str_attr(self.0.id(), m)
                &&& forall|i: int|
                    final(ctx).native.has(i) && i != self.0.id() ==> final(ctx).native.obj(i)
                        == old(ctx).native.obj(i)
            },
    {
        self.0.set_str_attribute(ctx, Attr::Value, value)
    }

    /// Get the text of this text box as a borrow-tracked view; `None` if no
    /// text was ever set.
    pub fn get_text(self, ctx: &mut KISSContext) -> (r: Result<Option<WidgetStr>, KissError>)
        requires
            old(ctx).wf(),
            old(ctx).running ==> self.0.valid(*old(ctx)),
            old(ctx).running ==> old(ctx).refcount(self.0, Attr::Value) < usize::MAX,
        ensures
            final(ctx).wf(),
            !old(ctx).running ==> r == Result::<Option<WidgetStr>, KissError>::Err(
                KissError::NotRunning,
            ) && *final(ctx) == *old(ctx),
            old(ctx).running && old(ctx).native.str_attr(self.0.id(), Attr::Value) is None ==> (r
                matches Ok(o) && o is None && *final(ctx) == *old(ctx)),
            old(ctx).running && old(ctx).native.str_attr(self.0.id(), Attr::Value) is Some ==> (r
                matches Ok(o) && o matches Some(ws) && {
                &&& ws.target == self.0
                &&& ws.attr == Attr::Value
                &&& Some(ws.data@) == old(ctx).native.str_attr(self.0.id(), Attr::Value)
                &&& ws.wf(*final(ctx))
                &&& *final(ctx) == (KISSContext {
                    borrowed_strs: final(ctx).borrowed_strs,
                    ..*old(ctx)
                })
                &&& final(ctx).refcount(self.0, Attr::Value) == old(ctx).refcount(
                    self.0,
                    Attr::Value,
                ) + 1
                &&& forall|h2: usize, n2: Attr|
                    !(h2 == self.0.raw && n2 == Attr::Value) ==> final(ctx).refcount_at(h2, n2)
                        == old(ctx).refcount_at(h2, n2)
            }),
    {
        self.0.get_str_attribute(ctx, Attr::Value)
    }
}

} // verus!
