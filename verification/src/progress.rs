//! Progress bars.

use vstd::prelude::*;

use crate::attrs::Attr;
use crate::base::BaseWidget;
use crate::base::Downcast;
use crate::container::Orientation;
use crate::context::KISSContext;
use crate::context::KissError;
use crate::native::WidgetClass;
use crate::widget::Widget;

verus! {

/// A widget that renders a bar which fills as its value approaches a
/// maximum.
#[derive(Clone, Copy, PartialEq, Eq, Structural, Debug)]
pub struct ProgressBar(pub BaseWidget);

impl Widget for ProgressBar {
    open spec fn base_spec(self) -> BaseWidget {
        self.0
    }

    fn to_base(self) -> (r: BaseWidget) {
        self.0
    }
}

impl Downcast for ProgressBar {
    open spec fn classes() -> Set<WidgetClass> {
        set![WidgetClass::ProgressBar]
    }

    fn can_downcast(base: &BaseWidget, ctx: &KISSContext) -> (r: bool) {
        matches!(base.classname(ctx), WidgetClass::ProgressBar)
    }

    fn downcast(base: BaseWidget) -> (r: ProgressBar) {
        ProgressBar(base)
    }
}

impl ProgressBar {
    /// Create a new progress bar.
    pub fn new(ctx: &mut KISSContext) -> (r: Result<ProgressBar, KissError>)
        requires
            old(ctx).wf(),
        ensures
            final(ctx).wf(),
            !old(ctx).running ==> r == Result::<ProgressBar, KissError>::Err(KissError::NotRunning)
                && *final(ctx) == *old(ctx),
            old(ctx).running ==> (r matches Ok(p) && {
                &&& p.0.id() == old(ctx).native.count()
                &&& *final(ctx) == (KISSContext { native: final(ctx).native, ..*old(ctx) })
                &&& final(ctx).native.count() == old(ctx).native.count() + 1
                &&& final(ctx).native.class_of(p.0.id()) == WidgetClass::ProgressBar
                &&& final(ctx).native.alive(p.0.id())
                &&& final(ctx).native.parent_of(p.0.id()) is None
                &&& forall|m: Attr| final(ctx).native.str_attr(p.0.id(), m) is None
                &&& forall|i: int|
                    old(ctx).native.has(i) ==> final(ctx).native.obj(i) == old(ctx).native.obj(i)
            }),
    {
        if !ctx.is_running() {
            return Err(KissError::NotRunning);
        }
        let h = ctx.native.create(WidgetClass::ProgressBar);
        Ok(ProgressBar(BaseWidget { raw: h }))
    }

    /// Set this progress bar as indefinite or not. In the indefinite state
    /// the bar renders a looping animation instead of its value.
    pub fn set_indefinite(self, ctx: &mut KISSContext, is_indefinite: bool) -> (r: Result<
        ProgressBar,
        KissError,
    >)
        requires
            old(ctx).wf(),
            old(ctx).running ==> self.0.valid(*old(ctx)),
        ensures
            final(ctx).wf(),
            !old(ctx).running ==> r == Result::<ProgressBar, KissError>::Err(KissError::NotRunning)
                && *final(ctx) == *old(ctx),
            old(ctx).running && old(ctx).refcount(self.0, Attr::Marquee) > 0 ==> r == Result::<
                ProgressBar,
                KissError,
            >::Err(KissError::BorrowViolation) && *final(ctx) == *old(ctx),
            old(ctx).running && old(ctx).refcount(self.0, Attr::Marquee) == 0 ==> {
                &&& r == Result::<ProgressBar, KissError>::Ok(self)
                &&& *final(ctx) == (KISSContext { native: final(ctx).native, ..*old(ctx) })
                &&& final(ctx).native.count() == old(ctx).native.count()
                &&& final(ctx).native.obj(self.0.id()) == (crate::native::NativeObject {
                    strs: final(ctx).native.obj(self.0.id()).strs,
                    ..old(ctx).native.obj(self.0.id())
                })
                &&& final(ctx).native.str_attr(self.0.id(), Attr::Marquee) == Some(
                    if is_indefinite {
                        "YES"@
                    } else {
                        "NO"@
                    },
                )
                &&& forall|i: int|
                    final(ctx).native.has(i) && i != self.0.id() ==> final(ctx).native.obj(i)
                        == old(ctx).native.obj(i)
            },
    {
        match self.0.set_bool_attribute(ctx, Attr::Marquee, is_indefinite) {
            Ok(()) => Ok(self),
            Err(e) => Err(e),
        }
    }

    /// Set whether the bar renders dashed (`true`) or solid (`false`).
    pub fn set_dashed(self, ctx: &mut KISSContext, dashed: bool) -> (r: Result<
        ProgressBar,
        KissError,
    >)
        requires
            old(ctx).wf(),
            old(ctx).running ==> self.0.valid(*old(ctx)),
        ensures
            final(ctx).wf(),
            !old(ctx).running ==> r == Result::<ProgressBar, KissError>::Err(KissError::NotRunning)
                && *final(ctx) == *old(ctx),
            old(ctx).running && old(ctx).refcount(self.0, Attr::Dashed) > 0 ==> r == Result::<
                ProgressBar,
                KissError,
            >::Err(KissError::BorrowViolation) && *final(ctx) == *old(ctx),
            old(ctx).running && old(ctx).refcount(self.0, Attr::Dashed) == 0 ==> {
                &&& r == Result::<ProgressBar, KissError>::Ok(self)
                &&& *final(ctx) == (KISSContext { native: final(ctx).native, ..*old(ctx) })
                &&& final(ctx).native.count() == old(ctx).native.count()
                &&& final(ctx).native.obj(self.0.id()) == (crate::native::NativeObject {
                    strs: final(ctx).native.obj(self.0.id()).strs,
                    ..old(ctx).native.obj(self.0.id())
                })
                &&& final(ctx).native.str_attr(self.0.id(), Attr::Dashed) == Some(
                    if dashed {
                        "YES"@
                    } else {
                        "NO"@
                    },
                )
                &&& forall|i: int|
                    final(ctx).native.has(i) && i != self.0.id() ==> final(ctx).native.obj(i)
                        == old(ctx).native.obj(i)
            },
    {
        match self.0.set_bool_attribute(ctx, Attr::Dashed, dashed) {
            Ok(()) => Ok(self),
            Err(e) => Err(e),
        }
    }

    /// Set whether the bar fills horizontally or vertically.
    pub fn set_orientation(self, ctx: &mut KISSContext, orientation: Orientation) -> (r: Result<
        ProgressBar,
        KissError,
    >)
        requires
            old(ctx).wf(),
            old(ctx).running ==> self.0.valid(*old(ctx)),
        ensures
            final(ctx).wf(),
            !old(ctx).running ==> r == Result::<ProgressBar, KissError>::Err(KissError::NotRunning)
                && *final(ctx) == *old(ctx),
            old(ctx).running && old(ctx).refcount(self.0, Attr::Orientation) > 0 ==> r == Result::<
                ProgressBar,
                KissError,
            >::Err(KissError::BorrowViolation) && *final(ctx) == *old(ctx),
            old(ctx).running && old(ctx).refcount(self.0, Attr::Orientation) == 0 ==> {
                &&& r == Result::<ProgressBar, KissError>::Ok(self)
                &&& *final(ctx) == (KISSContext { native: final(ctx).native, ..*old(ctx) })
                &&& final(ctx).native.count() == old(ctx).native.count()
                &&& final(ctx).native.obj(self.0.id()) == (crate::native::NativeObject {
                    strs: final(ctx).native.obj(self.0.id()).strs,
                    ..old(ctx).native.obj(self.0.id())
                })
                &&& final(ctx).native.str_attr(self.0.id(), Attr::Orientation) == Some(
                    match orientation {
                        Orientation::Vertical => "VERTICAL"@,
                        Orientation::Horizontal => "HORIZONTAL"@,
                    },
                )
                &&& forall|i: int|
                    final(ctx).native.has(i) && i != self.0.id() ==> final(ctx).native.obj(i)
                        == old(ctx).native.obj(i)
            },
    {
        match self.0.set_const_str_attribute(ctx, Attr::Orientation, orientation.as_cstr()) {
            Ok(()) => Ok(self),
            Err(e) => Err(e),
        }
    }
}

} // verus!
