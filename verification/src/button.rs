//! Buttons that can receive user input.

use vstd::prelude::*;

use crate::attrs::Attr;
use crate::base::BaseWidget;
use crate::base::Downcast;
use crate::callback::OnClick;
use crate::image::ImageContainer;
use crate::context::KISSContext;
use crate::context::KissError;
use crate::native::WidgetClass;
use crate::widget::Widget;
use crate::widget::str_has_nul;

verus! {

/// A button that can be clicked momentarily, invoking a registered callback
/// when that happens.
#[derive(Clone, Copy, PartialEq, Eq, Structural, Debug)]
pub struct Button(pub BaseWidget);

impl Widget for Button {
    open spec fn base_spec(self) -> BaseWidget {
        self.0
    }

    fn to_base(self) -> (r: BaseWidget) {
        self.0
    }
}

impl Downcast for Button {
    open spec fn classes() -> Set<WidgetClass> {
        set![WidgetClass::Button]
    }

    fn can_downcast(base: &BaseWidget, ctx: &KISSContext) -> (r: bool) {
        matches!(base.classname(ctx), WidgetClass::Button)
    }

    fn downcast(base: BaseWidget) -> (r: Button) {
        Button(base)
    }
}

impl OnClick for Button {

}

impl ImageContainer for Button {

}

impl Button {
    /// Create a new button with no label.
    pub fn new(ctx: &mut KISSContext) -> (r: Result<Button, KissError>)
        requires
            old(ctx).wf(),
        ensures
            final(ctx).wf(),
            !old(ctx).running ==> r == Result::<Button, KissError>::Err(KissError::NotRunning)
                && *final(ctx) == *old(ctx),
            old(ctx).running ==> (r matches Ok(b) && {
                &&& b.0.id() == old(ctx).native.count()
                &&& *final(ctx) == (KISSContext { native: final(ctx).native, ..*old(ctx) })
                &&& final(ctx).native.count() == old(ctx).native.count() + 1
                &&& final(ctx).native.class_of(b.0.id()) == WidgetClass::Button
                &&& final(ctx).native.alive(b.0.id())
                &&& final(ctx).native.parent_of(b.0.id()) is None
                &&& forall|m: Attr| final(ctx).native.str_attr(b.0.id(), m) is None
                &&& forall|m: Attr| !final(ctx).native.wired(b.0.id(), m)
                &&& forall|i: int|
                    old(ctx).native.has(i) ==> final(ctx).native.obj(i) == old(ctx).native.obj(i)
            }),
    {
        if !ctx.is_running() {
            return Err(KissError::NotRunning);
        }
        let h = ctx.native.create(WidgetClass::Button);
        Ok(Button(BaseWidget { raw: h }))
    }

    /// Set the label of this button; it may be blank.
    pub fn set_label(self, ctx: &mut KISSContext, label: &str) -> (r: Result<Button, KissError>)
        requires
            old(ctx).wf(),
            old(ctx).running ==> self.0.valid(*old(ctx)),
        ensures
            final(ctx).wf(),
            !old(ctx).running ==> r == Result::<Button, KissError>::Err(KissError::NotRunning)
                && *final(ctx) == *old(ctx),
            old(ctx).running && old(ctx).refcount(self.0, Attr::Title) > 0 ==> r == Result::<
                Button,
                KissError,
            >::Err(KissError::BorrowViolation) && *final(ctx) == *old(ctx),
            old(ctx).running && old(ctx).refcount(self.0, Attr::Title) == 0 && str_has_nul(label)
                ==> r == Result::<Button, KissError>::Err(KissError::InteriorNul) && *final(ctx)
                == *old(ctx),
            old(ctx).running && old(ctx).refcount(self.0, Attr::Title) == 0 && !str_has_nul(label)
                ==> {
                &&& r == Result::<Button, KissError>::Ok(self)
                &&& *final(ctx) == (KISSContext { native: final(ctx).native, ..*old(ctx) })
                &&& final(ctx).native.count() == old(ctx).native.count()
                &&& final(ctx).native.obj(self.0.id()) == (crate::native::NativeObject {
                    strs: final(ctx).native.obj(self.0.id()).strs,
                    ..old(ctx).native.obj(self.0.id())
                })
                &&& final(ctx).native.str_attr(self.0.id(), Attr::Title) == Some(label@)
                &&& forall|m: Attr|
                    m != Attr::Title ==> final(ctx).native.str_attr(self.0.id(), m) == old(
                        ctx,
                    ).native.str_attr(self.0.id(), m)
                &&& forall|i: int|
                    final(ctx).native.has(i) && i != self.0.id() ==> final(ctx).native.obj(i)
                        == old(ctx).native.obj(i)
            },
    {
        match self.0.set_str_attribute(ctx, Attr::Title, label) {
            Ok(()) => Ok(self),
            Err(e) => Err(e),
        }
    }
}

} // verus!
