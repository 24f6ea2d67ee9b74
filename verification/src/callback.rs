//! Callback registration and dispatch: the bridge from native events back
//! into user code.
//!
//! User closures cannot be stored inside verified state, so the registry
//! holds a token per registration and dispatch is split in two: the session
//! resolves a native event to the token of the closure that must run
//! ([`KISSContext::simulate_event`]), the driver invokes its closure, and the
//! resulting [`CallbackStatus`] is handed back
//! ([`KISSContext::finish_dispatch`]), which translates it to the native
//! return code and takes the close path for the containing dialog.

use vstd::prelude::*;

use crate::attrs::Attr;
use crate::attrs::no_value;
use crate::base::BaseWidget;
use crate::context::KISSContext;
use crate::context::KissError;
use crate::logmap::log_map;
use crate::native::WidgetClass;
use crate::widget::Widget;

verus! {

/// The native return code for "nothing special": the event loop goes on.
pub const IUP_DEFAULT: i32 = -2;

/// The native return code that closes the dialog the event came from.
pub const IUP_CLOSE: i32 = -3;

/// The return codes a native callback slot understands.
#[derive(Copy, Clone, PartialEq, Eq, Structural, Debug)]
pub enum CallbackReturn {
    /// Ignore the event.
    Ignore,
    /// Proceed normally.
    Default,
    /// Close the dialog the event came from.
    Close,
    /// Skip the remaining handlers and continue.
    Continue,
}

impl CallbackReturn {
    /// The integer code the native toolkit uses for this return value.
    pub fn code(self) -> (r: i32)
        ensures
            self is Ignore ==> r == -1,
            self is Default ==> r == IUP_DEFAULT,
            self is Close ==> r == IUP_CLOSE,
            self is Continue ==> r == -4,
    {
        match self {
            CallbackReturn::Ignore => -1,
            CallbackReturn::Default => IUP_DEFAULT,
            CallbackReturn::Close => IUP_CLOSE,
            CallbackReturn::Continue => -4,
        }
    }
}

/// What a callback tells the framework to do when it returns.
#[derive(Copy, Clone, PartialEq, Eq, Structural, Debug)]
pub enum CallbackStatus {
    /// Do nothing special; the event loop continues.
    Default,
    /// Close the dialog containing the widget the callback was invoked on.
    Close,
}

impl CallbackStatus {
    /// Request that the containing dialog be closed when the callback returns.
    pub fn close(&mut self)
        ensures
            *final(self) == CallbackStatus::Close,
    {
        *self = CallbackStatus::Close;
    }

    /// Translate the completion signal into the native callback return code.
    pub fn to_cb_return(self) -> (r: i32)
        ensures
            self is Close ==> r == IUP_CLOSE,
            self is Default ==> r == IUP_DEFAULT,
    {
        match self {
            CallbackStatus::Close => IUP_CLOSE,
            CallbackStatus::Default => IUP_DEFAULT,
        }
    }
}

/// A user callback: invoked with the widget the event happened on, and
/// returning a completion signal. Implemented by driver code outside the
/// library; nothing is assumed of what an implementation does.
pub trait Callback<Args> {
    /// React to one native event.
    fn on_callback(&mut self, args: Args) -> CallbackStatus;
}

/// Token identifying one registered callback closure. The registry stores
/// tokens; the driver that owns the closures maps each token to one of them.
pub type CallbackId = u64;

/// The registration table: a log of (handle, event slot) to callback token
/// bindings; the last binding for a slot wins, earlier ones are replaced.
pub struct CallbackMap {
    /// The bindings, in registration order.
    pub entries: Vec<((usize, Attr), CallbackId)>,
}

impl View for CallbackMap {
    type V = Map<(usize, Attr), CallbackId>;

    open spec fn view(&self) -> Map<(usize, Attr), CallbackId> {
        log_map(self.entries@)
    }
}

/// Create an empty registration table.
pub fn new_callback_map() -> (r: CallbackMap)
    ensures
        r.entries@.len() == 0,
        r@ == Map::<(usize, Attr), CallbackId>::empty(),
{
    CallbackMap { entries: Vec::new() }
}

impl KISSContext {
    /// Register a callback slot for (widget, event): the registry binds the
    /// slot to a fresh token and the native object's slot is wired to the
    /// trampoline. A previous binding for the same slot is replaced; its
    /// token goes to the deferred-cleanup list, since the replaced closure
    /// may still be mid-invocation further up the call stack.
    pub fn register_callback(&mut self, widget: BaseWidget, event: Attr) -> (r: Result<
        CallbackId,
        KissError,
    >)
        requires
            old(self).wf(),
            old(self).running ==> widget.valid(*old(self)),
            old(self).next_callback < CallbackId::MAX,
        ensures
            final(self).wf(),
            !old(self).running ==> r == Result::<CallbackId, KissError>::Err(KissError::NotRunning)
                && *final(self) == *old(self),
            old(self).running ==> (r matches Ok(id) && {
                &&& id == old(self).next_callback
                &&& final(self).next_callback == old(self).next_callback + 1
                &&& *final(self) == (KISSContext {
                    native: final(self).native,
                    callbacks: final(self).callbacks,
                    next_callback: final(self).next_callback,
                    drops: final(self).drops,
                    ..*old(self)
                })
                &&& final(self).callbacks@ == old(self).callbacks@.insert((widget.raw, event), id)
                &&& final(self).drops@ == (match old(self).cb_entry(widget.raw, event) {
                    Some(prev) => old(self).drops@.push(prev),
                    None => old(self).drops@,
                })
                &&& final(self).native.count() == old(self).native.count()
                &&& final(self).native.obj(widget.id()) == (crate::native::NativeObject {
                    wired: final(self).native.obj(widget.id()).wired,
                    ..old(self).native.obj(widget.id())
                })
                &&& final(self).native.wired(widget.id(), event)
                &&& forall|m: Attr|
                    m != event ==> final(self).native.wired(widget.id(), m) == old(self).native.wired(widget.id(), m)
                &&& forall|i: int|
                    final(self).native.has(i) && i != widget.id() ==> final(self).native.obj(i)
                        == old(self).native.obj(i)
            }),
    {
        if !self.running {
            return Err(KissError::NotRunning);
        }
        let id = self.next_callback;
        self.next_callback = id + 1;
        match crate::context::pairkey_get(&self.callbacks.entries, widget.raw, event) {
            Some(prev) => {
                self.drops.push(prev);
            },
            None => {},
        }
        let ghost pre_entries = self.callbacks.entries@;
        self.callbacks.entries.push(((widget.raw, event), id));
        self.native.wire_callback(widget.raw, event);
        proof {
            assert(self.callbacks.entries@.drop_last() =~= pre_entries);
        }
        Ok(id)
    }

    /// Resolve one native event to what the event loop must do: exactly one
    /// dispatch step per event. With a registered closure the step names its
    /// token; with none the event is a safe no-op.
    pub fn simulate_event(&self, target: BaseWidget, event: Attr) -> (r: Result<
        DispatchStep,
        KissError,
    >)
        requires
            self.wf(),
            self.running ==> target.valid(*self),
        ensures
            !self.running ==> r == Result::<DispatchStep, KissError>::Err(KissError::NotRunning),
            self.running && !self.native.wired(target.id(), event) ==> r == Result::<
                DispatchStep,
                KissError,
            >::Ok(DispatchStep::NoCallback),
            self.running && self.native.wired(target.id(), event) ==> (r matches Ok(step)
                && match self.cb_entry(target.raw, event) {
                Some(id) => step == (DispatchStep::Invoke { id, widget: target }),
                None => step == DispatchStep::NoCallback,
            }),
    {
        if !self.is_running() {
            return Err(KissError::NotRunning);
        }
        if !self.native.is_wired(target.raw, event) {
            return Ok(DispatchStep::NoCallback);
        }
        match crate::context::pairkey_get(&self.callbacks.entries, target.raw, event) {
            Some(id) => Ok(DispatchStep::Invoke { id, widget: target }),
            None => Ok(DispatchStep::NoCallback),
        }
    }

    /// Translate a callback's completion signal into the native return code,
    /// taking the close path for the containing dialog when the signal asks
    /// for it: the topmost object the widget hangs under, if it is a dialog,
    /// has its visibility rewritten to the hidden sentinel by the toolkit
    /// itself.
    pub fn finish_dispatch(&mut self, target: BaseWidget, status: CallbackStatus) -> (r: Result<
        i32,
        KissError,
    >)
        requires
            old(self).wf(),
            old(self).running ==> target.valid(*old(self)),
        ensures
            final(self).wf(),
            !old(self).running ==> r == Result::<i32, KissError>::Err(KissError::NotRunning)
                && *final(self) == *old(self),
            old(self).running && status is Default ==> r == Result::<i32, KissError>::Ok(
                IUP_DEFAULT,
            ) && *final(self) == *old(self),
            old(self).running && status is Close ==> (r == Result::<i32, KissError>::Ok(IUP_CLOSE)
                && {
                let root = old(self).native.root_of(target.id());
                if old(self).native.class_of(root) == WidgetClass::Dialog {
                    &&& *final(self) == (KISSContext { native: final(self).native, ..*old(self) })
                    &&& final(self).native.count() == old(self).native.count()
                    &&& final(self).native.str_attr(root, Attr::Visible) == Some("NO"@)
                    &&& forall|m: Attr|
                        m != Attr::Visible ==> final(self).native.str_attr(root, m) == old(self).native.str_attr(root, m)
                    &&& forall|i: int|
                        final(self).native.has(i) && i != root ==> final(self).native.obj(i)
                            == old(self).native.obj(i)
                } else {
                    *final(self) == *old(self)
                }
            }),
    {
        if !self.is_running() {
            return Err(KissError::NotRunning);
        }
        match status {
            CallbackStatus::Default => Ok(IUP_DEFAULT),
            CallbackStatus::Close => {
                let root = self.native.get_root(target.raw);
                if matches!(self.native.class_name(root), WidgetClass::Dialog) {
                    self.native.set_str_raw(root, Attr::Visible, no_value().to_owned());
                }
                Ok(IUP_CLOSE)
            },
        }
    }
}

/// A widget that can be clicked and can notify client code when that
/// happens.
pub trait OnClick: Widget {
    /// Register the click callback slot of this widget, returning the token
    /// the driver maps to its closure. Replaces a previous registration.
    fn set_onclick(self, ctx: &mut KISSContext) -> (r: Result<CallbackId, KissError>)
        requires
            old(ctx).wf(),
            old(ctx).running ==> self.base_spec().valid(*old(ctx)),
            old(ctx).next_callback < CallbackId::MAX,
        ensures
            final(ctx).wf(),
            !old(ctx).running ==> r == Result::<CallbackId, KissError>::Err(KissError::NotRunning)
                && *final(ctx) == *old(ctx),
            old(ctx).running ==> (r matches Ok(id) && {
                &&& id == old(ctx).next_callback
                &&& final(ctx).next_callback == old(ctx).next_callback + 1
                &&& final(ctx).callbacks@ == old(ctx).callbacks@.insert(
                    (self.base_spec().raw, Attr::Action),
                    id,
                )
                &&& final(ctx).native.wired(self.base_spec().id(), Attr::Action)
                &&& final(ctx).native.count() == old(ctx).native.count()
                &&& final(ctx).native.obj(self.base_spec().id()) == (crate::native::NativeObject {
                    wired: final(ctx).native.obj(self.base_spec().id()).wired,
                    ..old(ctx).native.obj(self.base_spec().id())
                })
                &&& forall|i: int|
                    final(ctx).native.has(i) && i != self.base_spec().id() ==> final(ctx).native.obj(i) == old(ctx).native.obj(i)
                &&& *final(ctx) == (KISSContext {
                    native: final(ctx).native,
                    callbacks: final(ctx).callbacks,
                    next_callback: final(ctx).next_callback,
                    drops: final(ctx).drops,
                    ..*old(ctx)
                })
            }),
    {
        ctx.register_callback(self.to_base(), Attr::Action)
    }
}

/// A widget whose value the user can change, notifying client code when
/// that happens.
pub trait OnValueChange: Widget {
    /// Register the value-changed callback slot of this widget, returning
    /// the token the driver maps to its closure.
    fn set_on_value_changed(self, ctx: &mut KISSContext) -> (r: Result<CallbackId, KissError>)
        requires
            old(ctx).wf(),
            old(ctx).running ==> self.base_spec().valid(*old(ctx)),
            old(ctx).next_callback < CallbackId::MAX,
        ensures
            final(ctx).wf(),
            !old(ctx).running ==> r == Result::<CallbackId, KissError>::Err(KissError::NotRunning)
                && *final(ctx) == *old(ctx),
            old(ctx).running ==> (r matches Ok(id) && {
                &&& id == old(ctx).next_callback
                &&& final(ctx).next_callback == old(ctx).next_callback + 1
                &&& final(ctx).callbacks@ == old(ctx).callbacks@.insert(
                    (self.base_spec().raw, Attr::ValueChangedCb),
                    id,
                )
                &&& final(ctx).native.wired(self.base_spec().id(), Attr::ValueChangedCb)
                &&& final(ctx).native.count() == old(ctx).native.count()
                &&& final(ctx).native.obj(self.base_spec().id()) == (crate::native::NativeObject {
                    wired: final(ctx).native.obj(self.base_spec().id()).wired,
                    ..old(ctx).native.obj(self.base_spec().id())
                })
                &&& forall|i: int|
                    final(ctx).native.has(i) && i != self.base_spec().id() ==> final(ctx).native.obj(i) == old(ctx).native.obj(i)
                &&& *final(ctx) == (KISSContext {
                    native: final(ctx).native,
                    callbacks: final(ctx).callbacks,
                    next_callback: final(ctx).next_callback,
                    drops: final(ctx).drops,
                    ..*old(ctx)
                })
            }),
    {
        ctx.register_callback(self.to_base(), Attr::ValueChangedCb)
    }
}

/// A widget that can be shown, notifying client code when that happens.
pub trait OnShow: Widget {
    /// Register the shown callback slot of this widget, returning the token
    /// the driver maps to its closure.
    fn set_on_show(self, ctx: &mut KISSContext) -> (r: Result<CallbackId, KissError>)
        requires
            old(ctx).wf(),
            old(ctx).running ==> self.base_spec().valid(*old(ctx)),
            old(ctx).next_callback < CallbackId::MAX,
        ensures
            final(ctx).wf(),
            !old(ctx).running ==> r == Result::<CallbackId, KissError>::Err(KissError::NotRunning)
                && *final(ctx) == *old(ctx),
            old(ctx).running ==> (r matches Ok(id) && {
                &&& id == old(ctx).next_callback
                &&& final(ctx).next_callback == old(ctx).next_callback + 1
                &&& final(ctx).callbacks@ == old(ctx).callbacks@.insert(
                    (self.base_spec().raw, Attr::MapCb),
                    id,
                )
                &&& final(ctx).native.wired(self.base_spec().id(), Attr::MapCb)
                &&& final(ctx).native.count() == old(ctx).native.count()
                &&& final(ctx).native.obj(self.base_spec().id()) == (crate::native::NativeObject {
                    wired: final(ctx).native.obj(self.base_spec().id()).wired,
                    ..old(ctx).native.obj(self.base_spec().id())
                })
                &&& forall|i: int|
                    final(ctx).native.has(i) && i != self.base_spec().id() ==> final(ctx).native.obj(i) == old(ctx).native.obj(i)
                &&& *final(ctx) == (KISSContext {
                    native: final(ctx).native,
                    callbacks: final(ctx).callbacks,
                    next_callback: final(ctx).next_callback,
                    drops: final(ctx).drops,
                    ..*old(ctx)
                })
            }),
    {
        ctx.register_callback(self.to_base(), Attr::MapCb)
    }
}

/// What the event loop must do for one native event.
#[derive(Copy, Clone, PartialEq, Eq, Structural, Debug)]
pub enum DispatchStep {
    /// A closure is registered for the event: invoke the closure behind `id`
    /// with `widget`, then hand its status to `finish_dispatch`. Exactly one
    /// such step is produced per native event.
    Invoke {
        /// Token of the registered closure.
        id: CallbackId,
        /// The widget the event happened on.
        widget: BaseWidget,
    },
    /// No closure is registered: the event is a no-op and the native return
    /// code is the default.
    NoCallback,
}

} // verus!
