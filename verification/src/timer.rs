//! Timers that invoke a callback on an interval.

use vstd::prelude::*;

use crate::attrs::Attr;
use crate::base::BaseWidget;
use crate::base::Downcast;
use crate::callback::CallbackId;
use crate::context::KISSContext;
use crate::context::KissError;
use crate::native::WidgetClass;
use crate::widget::Destroy;
use crate::widget::Widget;

verus! {

/// A timer that invokes a registered callback on a configurable interval.
/// Not renderable: adding it to a container has no visual effect. Should be
/// destroyed explicitly when no longer in use.
#[derive(Clone, Copy, PartialEq, Eq, Structural, Debug)]
pub struct Timer(pub BaseWidget);

impl Widget for Timer {
    open spec fn base_spec(self) -> BaseWidget {
        self.0
    }

    fn to_base(self) -> (r: BaseWidget) {
        self.0
    }
}

impl Downcast for Timer {
    open spec fn classes() -> Set<WidgetClass> {
        set![WidgetClass::Timer]
    }

    fn can_downcast(base: &BaseWidget, ctx: &KISSContext) -> (r: bool) {
        matches!(base.classname(ctx), WidgetClass::Timer)
    }

    fn downcast(base: BaseWidget) -> (r: Timer) {
        Timer(base)
    }
}

impl Destroy for Timer {

}

impl Timer {
    /// Create a new timer with the toolkit's default interval.
    pub fn new(ctx: &mut KISSContext) -> (r: Result<Timer, KissError>)
        requires
            old(ctx).wf(),
        ensures
            final(ctx).wf(),
            !old(ctx).running ==> r == Result::<Timer, KissError>::Err(KissError::NotRunning)
                && *final(ctx) == *old(ctx),
            old(ctx).running ==> (r matches Ok(t) && {
                &&& t.0.id() == old(ctx).native.count()
                &&& *final(ctx) == (KISSContext { native: final(ctx).native, ..*old(ctx) })
                &&& final(ctx).native.count() == old(ctx).native.count() + 1
                &&& final(ctx).native.class_of(t.0.id()) == WidgetClass::Timer
                &&& final(ctx).native.alive(t.0.id())
                &&& final(ctx).native.parent_of(t.0.id()) is None
                &&& forall|m: Attr| final(ctx).native.str_attr(t.0.id(), m) is None
                &&& forall|m: Attr| !final(ctx).native.wired(t.0.id(), m)
                &&& forall|i: int|
                    old(ctx).native.has(i) ==> final(ctx).native.obj(i) == old(ctx).native.obj(i)
            }),
    {
        if !ctx.is_running() {
            return Err(KissError::NotRunning);
        }
        let h = ctx.native.create(WidgetClass::Timer);
        Ok(Timer(BaseWidget { raw: h }))
    }

    /// Set the timer interval in milliseconds.
    pub fn set_interval(self, ctx: &mut KISSContext, time: u32) -> (r: Result<Timer, KissError>)
        requires
            old(ctx).wf(),
            old(ctx).running ==> self.0.valid(*old(ctx)),
            time <= i32::MAX,
        ensures
            final(ctx).wf(),
            !old(ctx).running ==> r == Result::<Timer, KissError>::Err(KissError::NotRunning)
                && *final(ctx) == *old(ctx),
            old(ctx).running ==> {
                &&& r == Result::<Timer, KissError>::Ok(self)
                &&& *final(ctx) == (KISSContext { native: final(ctx).native, ..*old(ctx) })
                &&& final(ctx).native.count() == old(ctx).native.count()
                &&& final(ctx).native.obj(self.0.id()) == (crate::native::NativeObject {
                    ints: final(ctx).native.obj(self.0.id()).ints,
                    ..old(ctx).native.obj(self.0.id())
                })
                &&& final(ctx).native.int_attr(self.0.id(), Attr::Time) == time as i32
                &&& forall|i: int|
                    final(ctx).native.has(i) && i != self.0.id() ==> final(ctx).native.obj(i)
                        == old(ctx).native.obj(i)
            },
    {
        match self.0.set_int_attribute(ctx, Attr::Time, time as i32) {
            Ok(()) => Ok(self),
            Err(e) => Err(e),
        }
    }

    /// Register the interval callback slot of this timer, returning the
    /// token the driver maps to its closure. The closure is invoked on every
    /// interval until the timer is stopped.
    pub fn set_on_interval(self, ctx: &mut KISSContext) -> (r: Result<CallbackId, KissError>)
        requires
            old(ctx).wf(),
            old(ctx).running ==> self.0.valid(*old(ctx)),
            old(ctx).next_callback < CallbackId::MAX,
        ensures
            final(ctx).wf(),
            !old(ctx).running ==> r == Result::<CallbackId, KissError>::Err(KissError::NotRunning)
                && *final(ctx) == *old(ctx),
            old(ctx).running ==> (r matches Ok(id) && {
                &&& id == old(ctx).next_callback
                &&& final(ctx).next_callback == old(ctx).next_callback + 1
                &&& final(ctx).callbacks@ == old(ctx).callbacks@.insert(
                    (self.0.raw, Attr::ActionCb),
                    id,
                )
                &&& final(ctx).native.wired(self.0.id(), Attr::ActionCb)
                &&& final(ctx).native.count() == old(ctx).native.count()
                &&& final(ctx).native.obj(self.0.id()) == (crate::native::NativeObject {
                    wired: final(ctx).native.obj(self.0.id()).wired,
                    ..old(ctx).native.obj(self.0.id())
                })
                &&& forall|i: int|
                    final(ctx).native.has(i) && i != self.0.id() ==> final(ctx).native.obj(i)
                        == old(ctx).native.obj(i)
                &&& *final(ctx) == (KISSContext {
                    native: final(ctx).native,
                    callbacks: final(ctx).callbacks,
                    next_callback: final(ctx).next_callback,
                    drops: final(ctx).drops,
                    ..*old(ctx)
                })
            }),
    {
        ctx.register_callback(self.0, Attr::ActionCb)
    }

    /// Start the timer: the registered callback is invoked when the next
    /// interval elapses.
    pub fn start(self, ctx: &mut KISSContext) -> (r: Result<Timer, KissError>)
        requires
            old(ctx).wf(),
            old(ctx).running ==> self.0.valid(*old(ctx)),
        ensures
            final(ctx).wf(),
            !old(ctx).running ==> r == Result::<Timer, KissError>::Err(KissError::NotRunning)
                && *final(ctx) == *old(ctx),
            old(ctx).running && old(ctx).refcount(self.0, Attr::Run) > 0 ==> r == Result::<
                Timer,
                KissError,
            >::Err(KissError::BorrowViolation) && *final(ctx) == *old(ctx),
            old(ctx).running && old(ctx).refcount(self.0, Attr::Run) == 0 ==> {
                &&& r == Result::<Timer, KissError>::Ok(self)
                &&& *final(ctx) == (KISSContext { native: final(ctx).native, ..*old(ctx) })
                &&& final(ctx).native.count() == old(ctx).native.count()
                &&& final(ctx).native.obj(self.0.id()) == (crate::native::NativeObject {
                    strs: final(ctx).native.obj(self.0.id()).strs,
                    ..old(ctx).native.obj(self.0.id())
                })
                &&& final(ctx).native.str_attr(self.0.id(), Attr::Run) == Some("YES"@)
                &&& forall|i: int|
                    final(ctx).native.has(i) && i != self.0.id() ==> final(ctx).native.obj(i)
                        == old(ctx).native.obj(i)
            },
    {
        match self.0.set_bool_attribute(ctx, Attr::Run, true) {
            Ok(()) => Ok(self),
            Err(e) => Err(e),
        }
    }

    /// Stop the timer: the callback is not invoked again until the timer is
    /// restarted.
    pub fn stop(self, ctx: &mut KISSContext) -> (r: Result<Timer, KissError>)
        requires
            old(ctx).wf(),
            old(ctx).running ==> self.0.valid(*old(ctx)),
        ensures
            final(ctx).wf(),
            !old(ctx).running ==> r == Result::<Timer, KissError>::Err(KissError::NotRunning)
                && *final(ctx) == *old(ctx),
            old(ctx).running && old(ctx).refcount(self.0, Attr::Run) > 0 ==> r == Result::<
                Timer,
                KissError,
            >::Err(KissError::BorrowViolation) && *final(ctx) == *old(ctx),
            old(ctx).running && old(ctx).refcount(self.0, Attr::Run) == 0 ==> {
                &&& r == Result::<Timer, KissError>::Ok(self)
                &&& *final(ctx) == (KISSContext { native: final(ctx).native, ..*old(ctx) })
                &&& final(ctx).native.count() == old(ctx).native.count()
                &&& final(ctx).native.obj(self.0.id()) == (crate::native::NativeObject {
                    strs: final(ctx).native.obj(self.0.id()).strs,
                    ..old(ctx).native.obj(self.0.id())
                })
                &&& final(ctx).native.str_attr(self.0.id(), Attr::Run) == Some("NO"@)
                &&& forall|i: int|
                    final(ctx).native.has(i) && i != self.0.id() ==> final(ctx).native.obj(i)
                        == old(ctx).native.obj(i)
            },
    {
        match self.0.set_bool_attribute(ctx, Attr::Run, false) {
            Ok(()) => Ok(self),
            Err(e) => Err(e),
        }
    }
}

} // verus!
