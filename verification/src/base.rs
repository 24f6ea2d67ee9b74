//! The general widget type every specialized widget can be viewed as.

use vstd::prelude::*;

use crate::context::KISSContext;
use crate::context::KissError;
use crate::native::WidgetClass;
use crate::widget::Widget;

verus! {

/// A general widget: a bare handle into the native object store, with no
/// declared subtype. Copyable — many views may reference the same handle;
/// equality is handle identity.
#[derive(Clone, Copy, PartialEq, Eq, Structural, Debug)]
pub struct BaseWidget {
    /// The handle of the native object this widget stands for.
    pub raw: usize,
}

impl BaseWidget {
    /// The handle as a mathematical value; widget identity.
    pub open spec fn id(self) -> int {
        self.raw as int
    }

    /// Whether this widget's handle was handed out by the session's toolkit.
    pub open spec fn valid(self, ctx: KISSContext) -> bool {
        ctx.native.has(self.id())
    }

    /// The class the native object behind this widget reports.
    pub open spec fn class_in(self, ctx: KISSContext) -> WidgetClass {
        ctx.native.class_of(self.id())
    }

    /// Load the widget stored in the session's named registry under `name`;
    /// `None` if no widget by that name was stored. The result can be
    /// downcast back to its original type.
    pub fn load(ctx: &KISSContext, name: &str) -> (r: Result<Option<BaseWidget>, KissError>)
        requires
            ctx.wf(),
        ensures
            !ctx.running ==> r == Result::<Option<BaseWidget>, KissError>::Err(
                KissError::NotRunning,
            ),
            ctx.running ==> (r matches Ok(found) && found == ctx.store_view().get(name@)),
            ctx.running && ctx.store_view().get(name@) is Some ==> ctx.native.has(
                ctx.store_view()[name@].id(),
            ),
    {
        ctx.load_widget(name)
    }

    /// Attempt to downcast this general widget to the specialized type `T`.
    /// Succeeds exactly when the class the native object reports belongs to
    /// `T`'s class set; on mismatch the original widget is handed back
    /// unchanged.
    pub fn try_downcast<T: Downcast>(self, ctx: &KISSContext) -> (r: Result<T, BaseWidget>)
        requires
            self.valid(*ctx),
        ensures
            downcast_post::<T>(T::classes(), self, *ctx, r),
    {
        T::try_downcast(self, ctx)
    }
}

impl Widget for BaseWidget {
    open spec fn base_spec(self) -> BaseWidget {
        self
    }

    fn to_base(self) -> (r: BaseWidget) {
        self
    }
}

impl crate::widget::Destroy for BaseWidget {

}

/// What a downcast attempt of `base` to `T` returns: the typed widget under
/// the same handle identity exactly when the class `base` reports belongs
/// to `T`'s class set, and otherwise `base` itself, unchanged.
pub open spec fn downcast_post<T: Widget>(
    classes: Set<WidgetClass>,
    base: BaseWidget,
    ctx: KISSContext,
    r: Result<T, BaseWidget>,
) -> bool {
    &&& classes.contains(base.class_in(ctx)) ==> (r matches Ok(t) && t.base_spec() == base)
    &&& !classes.contains(base.class_in(ctx)) ==> r == Result::<T, BaseWidget>::Err(base)
}

/// A widget type's ability to be downcast from a general widget, decided
/// purely by the class name the native object reports: the single type
/// identification mechanism.
pub trait Downcast: Widget {
    /// The set of classes whose native objects this type may stand for.
    spec fn classes() -> Set<WidgetClass>;

    /// Whether the class `base` reports belongs to this type's class set.
    fn can_downcast(base: &BaseWidget, ctx: &KISSContext) -> (r: bool)
        requires
            base.valid(*ctx),
        ensures
            r == Self::classes().contains(base.class_in(*ctx)),
    ;

    /// Reinterpret `base` as this type without any native call; the caller
    /// has checked the class, which is immutable for the object's lifetime.
    fn downcast(base: BaseWidget) -> (r: Self)
        ensures
            r.base_spec() == base,
    ;

    /// Attempt to downcast `base` to this type, handing `base` back
    /// unchanged if its class does not match.
    fn try_downcast(base: BaseWidget, ctx: &KISSContext) -> (r: Result<Self, BaseWidget>)
        requires
            base.valid(*ctx),
        ensures
            downcast_post::<Self>(Self::classes(), base, *ctx, r),
    {
        if Self::can_downcast(&base, ctx) {
            Ok(Self::downcast(base))
        } else {
            Err(base)
        }
    }
}

} // verus!
