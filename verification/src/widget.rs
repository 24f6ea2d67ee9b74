//! Operations common to all widget types: the typed attribute accessor
//! primitives, the borrow-tracked string view, and the `Widget` and
//! `Destroy` traits.

use vstd::prelude::*;
use vstd::string::StrSliceExecFns;

use crate::attrs::Attr;
use crate::attrs::bool_yes_no;
use crate::base::BaseWidget;
use crate::context::KISSContext;
use crate::context::KissError;
use crate::dialog::Dialog;

verus! {

/// Whether a text holds an embedded NUL character; such a text cannot
/// cross the native boundary, where strings are NUL-terminated.
pub open spec fn chars_have_nul(s: Seq<char>) -> bool {
    exists|i: int| 0 <= i < s.len() && s[i] == '\0'
}

/// Whether a string holds an embedded NUL character.
pub open spec fn str_has_nul(s: &str) -> bool {
    chars_have_nul(s@)
}

/// Scan a string for an embedded NUL character.
pub fn check_nul(s: &str) -> (r: bool)
    ensures
        r == str_has_nul(s),
{
    let n = s.unicode_len();
    let mut i: usize = 0;
    while i < n
        invariant
            i <= n,
            n == s@.len(),
            forall|j: int| 0 <= j < i ==> s@[j] != '\0',
        decreases n - i,
    {
        if s.get_char(i) == '\0' {
            return true;
        }
        i = i + 1;
    }
    false
}

/// A string borrowed from a widget's attribute storage. While a view is
/// alive, the borrow tracker blocks writes to the same (widget, attribute)
/// pair, because the native toolkit may free or move the backing buffer on
/// the next write. A view must be released explicitly when no longer needed.
pub struct WidgetStr {
    /// The widget the view was borrowed from.
    pub target: BaseWidget,
    /// The attribute the view was borrowed from.
    pub attr: Attr,
    /// The borrowed text.
    pub data: String,
}

impl WidgetStr {
    /// A live view: the borrow tracker counts it.
    pub open spec fn wf(self, ctx: KISSContext) -> bool {
        ctx.refcount(self.target, self.attr) > 0
    }

    /// The borrowed text.
    pub fn as_str(&self) -> (r: &str)
        ensures
            r@ == self.data@,
    {
        self.data.as_str()
    }

    /// Take a second view of the same borrowed text: the tracker counts one
    /// more live view, which must also be released before the attribute can
    /// be written again.
    pub fn duplicate(&self, ctx: &mut KISSContext) -> (r: WidgetStr)
        requires
            self.wf(*old(ctx)),
            old(ctx).refcount(self.target, self.attr) < usize::MAX,
        ensures
            r.target == self.target,
            r.attr == self.attr,
            r.data@ == self.data@,
            r.wf(*final(ctx)),
            *final(ctx) == (KISSContext {
                borrowed_strs: final(ctx).borrowed_strs,
                ..*old(ctx)
            }),
            final(ctx).refcount_at(self.target.raw, self.attr) == old(ctx).refcount_at(
                self.target.raw,
                self.attr,
            ) + 1,
            forall|h2: usize, n2: Attr|
                !(h2 == self.target.raw && n2 == self.attr) ==> final(ctx).refcount_at(h2, n2)
                    == old(ctx).refcount_at(h2, n2),
    {
        ctx.acquire_str(self.target, self.attr);
        WidgetStr { target: self.target, attr: self.attr, data: self.data.clone() }
    }

    /// Give the view up, releasing its count in the borrow tracker. Once the
    /// count drops to zero the attribute may be written again.
    pub fn release(self, ctx: &mut KISSContext)
        requires
            self.wf(*old(ctx)),
        ensures
            *final(ctx) == (KISSContext {
                borrowed_strs: final(ctx).borrowed_strs,
                ..*old(ctx)
            }),
            final(ctx).refcount_at(self.target.raw, self.attr) == old(ctx).refcount_at(
                self.target.raw,
                self.attr,
            ) - 1,
            forall|h2: usize, n2: Attr|
                !(h2 == self.target.raw && n2 == self.attr) ==> final(ctx).refcount_at(h2, n2)
                    == old(ctx).refcount_at(h2, n2),
    {
        ctx.release_str(self.target, self.attr);
    }
}

impl BaseWidget {
    /// Whether the native object behind this widget is still alive, that
    /// is, has not been destroyed.
    pub fn is_alive(self, ctx: &KISSContext) -> (r: bool)
        requires
            self.valid(*ctx),
        ensures
            r == ctx.native.alive(self.id()),
    {
        ctx.native.objects[self.raw].alive
    }

    /// The class the native object behind this widget reports.
    pub fn classname(&self, ctx: &KISSContext) -> (r: crate::native::WidgetClass)
        requires
            self.valid(*ctx),
        ensures
            r == self.class_in(*ctx),
    {
        ctx.native.class_name(self.raw)
    }

    /// Write a string attribute. Fails fast outside a running session,
    /// refuses to invalidate live borrowed views of the same attribute, and
    /// refuses strings that cannot cross the native boundary.
    pub fn set_str_attribute(self, ctx: &mut KISSContext, name: Attr, val: &str) -> (r: Result<
        (),
        KissError,
    >)
        requires
            old(ctx).wf(),
            old(ctx).running ==> self.valid(*old(ctx)),
        ensures
            final(ctx).wf(),
            !old(ctx).running ==> r == Result::<(), KissError>::Err(KissError::NotRunning)
                && *final(ctx) == *old(ctx),
            old(ctx).running && old(ctx).refcount(self, name) > 0 ==> r == Result::<(),
                KissError,
            >::Err(KissError::BorrowViolation) && *final(ctx) == *old(ctx),
            old(ctx).running && old(ctx).refcount(self, name) == 0 && str_has_nul(val) ==> r
                == Result::<(), KissError>::Err(KissError::InteriorNul) && *final(ctx) == *old(ctx),
            old(ctx).running && old(ctx).refcount(self, name) == 0 && !str_has_nul(val) ==> {
                &&& r == Result::<(), KissError>::Ok(())
                &&& *final(ctx) == (KISSContext { native: final(ctx).native, ..*old(ctx) })
                &&& final(ctx).native.count() == old(ctx).native.count()
                &&& final(ctx).native.obj(self.id()) == (crate::native::NativeObject {
                    strs: final(ctx).native.obj(self.id()).strs,
                    ..old(ctx).native.obj(self.id())
                })
                &&& final(ctx).native.str_attr(self.id(), name) == Some(val@)
                &&& forall|m: Attr|
                    m != name ==> final(ctx).native.str_attr(self.id(), m) == old(ctx).native.str_attr(self.id(), m)
                &&& forall|i: int|
                    final(ctx).native.has(i) && i != self.id() ==> final(ctx).native.obj(i)
                        == old(ctx).native.obj(i)
            },
    {
        match ctx.assert_str_not_borrowed(self, name) {
            Err(e) => Err(e),
            Ok(()) => {
                if check_nul(val) {
                    return Err(KissError::InteriorNul);
                }
                ctx.native.set_str_raw(self.raw, name, val.to_owned());
                Ok(())
            },
        }
    }

    /// Write an optional string attribute; `None` resets the attribute to
    /// its absent (default) state. The same checks as for a string write
    /// apply.
    pub fn set_opt_str_attribute(self, ctx: &mut KISSContext, name: Attr, val: Option<&str>) -> (r:
        Result<(), KissError>)
        requires
            old(ctx).wf(),
            old(ctx).running ==> self.valid(*old(ctx)),
        ensures
            final(ctx).wf(),
            !old(ctx).running ==> r == Result::<(), KissError>::Err(KissError::NotRunning)
                && *final(ctx) == *old(ctx),
            old(ctx).running && old(ctx).refcount(self, name) > 0 ==> r == Result::<(),
                KissError,
            >::Err(KissError::BorrowViolation) && *final(ctx) == *old(ctx),
            old(ctx).running && old(ctx).refcount(self, name) == 0 && (val matches Some(v)
                && str_has_nul(v)) ==> r == Result::<(), KissError>::Err(KissError::InteriorNul)
                && *final(ctx) == *old(ctx),
            old(ctx).running && old(ctx).refcount(self, name) == 0 && (match val {
                Some(v) => !str_has_nul(v),
                None => true,
            }) ==> {
                &&& r == Result::<(), KissError>::Ok(())
                &&& *final(ctx) == (KISSContext { native: final(ctx).native, ..*old(ctx) })
                &&& final(ctx).native.count() == old(ctx).native.count()
                &&& final(ctx).native.obj(self.id()) == (crate::native::NativeObject {
                    strs: final(ctx).native.obj(self.id()).strs,
                    ..old(ctx).native.obj(self.id())
                })
                &&& final(ctx).native.str_attr(self.id(), name) == (match val {
                    Some(v) => Some(v@),
                    None => None::<Seq<char>>,
                })
                &&& forall|m: Attr|
                    m != name ==> final(ctx).native.str_attr(self.id(), m) == old(ctx).native.str_attr(self.id(), m)
                &&& forall|i: int|
                    final(ctx).native.has(i) && i != self.id() ==> final(ctx).native.obj(i)
                        == old(ctx).native.obj(i)
            },
    {
        match val {
            Some(v) => self.set_str_attribute(ctx, name, v),
            None => {
                match ctx.assert_str_not_borrowed(self, name) {
                    Err(e) => Err(e),
                    Ok(()) => {
                        ctx.native.reset_str_raw(self.raw, name);
                        Ok(())
                    },
                }
            },
        }
    }

    /// Write a string attribute whose value is one of the library's own
    /// constants. Constants never carry embedded NUL bytes, so only the
    /// session and borrow checks apply.
    pub fn set_const_str_attribute(self, ctx: &mut KISSContext, name: Attr, val: &'static str) -> (
    r: Result<(), KissError>)
        requires
            old(ctx).wf(),
            old(ctx).running ==> self.valid(*old(ctx)),
        ensures
            final(ctx).wf(),
            !old(ctx).running ==> r == Result::<(), KissError>::Err(KissError::NotRunning)
                && *final(ctx) == *old(ctx),
            old(ctx).running && old(ctx).refcount(self, name) > 0 ==> r == Result::<(),
                KissError,
            >::Err(KissError::BorrowViolation) && *final(ctx) == *old(ctx),
            old(ctx).running && old(ctx).refcount(self, name) == 0 ==> {
                &&& r == Result::<(), KissError>::Ok(())
                &&& *final(ctx) == (KISSContext { native: final(ctx).native, ..*old(ctx) })
                &&& final(ctx).native.count() == old(ctx).native.count()
                &&& final(ctx).native.obj(self.id()) == (crate::native::NativeObject {
                    strs: final(ctx).native.obj(self.id()).strs,
                    ..old(ctx).native.obj(self.id())
                })
                &&& final(ctx).native.str_attr(self.id(), name) == Some(val@)
                &&& forall|m: Attr|
                    m != name ==> final(ctx).native.str_attr(self.id(), m) == old(ctx).native.str_attr(self.id(), m)
                &&& forall|i: int|
                    final(ctx).native.has(i) && i != self.id() ==> final(ctx).native.obj(i)
                        == old(ctx).native.obj(i)
            },
    {
        match ctx.assert_str_not_borrowed(self, name) {
            Err(e) => Err(e),
            Ok(()) => {
                ctx.native.set_str_raw(self.raw, name, val.to_owned());
                Ok(())
            },
        }
    }

    /// Read a string attribute as a borrow-tracked view. Handing a view out
    /// increments the tracker count for (widget, name); the view must be
    /// released before that attribute can be written again.
    pub fn get_str_attribute(self, ctx: &mut KISSContext, name: Attr) -> (r: Result<
        Option<WidgetStr>,
        KissError,
    >)
        requires
            old(ctx).wf(),
            old(ctx).running ==> self.valid(*old(ctx)),
            old(ctx).running ==> old(ctx).refcount(self, name) < usize::MAX,
        ensures
            final(ctx).wf(),
            !old(ctx).running ==> r == Result::<Option<WidgetStr>, KissError>::Err(
                KissError::NotRunning,
            ) && *final(ctx) == *old(ctx),
            old(ctx).running && old(ctx).native.str_attr(self.id(), name) is None ==> (r
                matches Ok(o) && o is None && *final(ctx) == *old(ctx)),
            old(ctx).running && old(ctx).native.str_attr(self.id(), name) is Some ==> (r
                matches Ok(o) && o matches Some(ws) && {
                &&& ws.target == self
                &&& ws.attr == name
                &&& Some(ws.data@) == old(ctx).native.str_attr(self.id(), name)
                &&& ws.wf(*final(ctx))
                &&& *final(ctx) == (KISSContext {
                    borrowed_strs: final(ctx).borrowed_strs,
                    ..*old(ctx)
                })
                &&& final(ctx).refcount(self, name) == old(ctx).refcount(self, name) + 1
                &&& forall|h2: usize, n2: Attr|
                    !(h2 == self.raw && n2 == name) ==> final(ctx).refcount_at(h2, n2) == old(ctx).refcount_at(h2, n2)
            }),
    {
        if !ctx.is_running() {
            return Err(KissError::NotRunning);
        }
        match ctx.native.get_str_raw(self.raw, name) {
            Some(s) => {
                ctx.acquire_str(self, name);
                Ok(Some(WidgetStr { target: self, attr: name, data: s }))
            },
            None => Ok(None),
        }
    }

    /// Write an integer attribute; fixed-size values need no borrow
    /// tracking.
    pub fn set_int_attribute(self, ctx: &mut KISSContext, name: Attr, val: i32) -> (r: Result<
        (),
        KissError,
    >)
        requires
            old(ctx).wf(),
            old(ctx).running ==> self.valid(*old(ctx)),
        ensures
            final(ctx).wf(),
            !old(ctx).running ==> r == Result::<(), KissError>::Err(KissError::NotRunning)
                && *final(ctx) == *old(ctx),
            old(ctx).running ==> {
                &&& r == Result::<(), KissError>::Ok(())
                &&& *final(ctx) == (KISSContext { native: final(ctx).native, ..*old(ctx) })
                &&& final(ctx).native.count() == old(ctx).native.count()
                &&& final(ctx).native.obj(self.id()) == (crate::native::NativeObject {
                    ints: final(ctx).native.obj(self.id()).ints,
                    ..old(ctx).native.obj(self.id())
                })
                &&& final(ctx).native.int_attr(self.id(), name) == val
                &&& forall|m: Attr|
                    m != name ==> final(ctx).native.int_attr(self.id(), m) == old(ctx).native.int_attr(self.id(), m)
                &&& forall|i: int|
                    final(ctx).native.has(i) && i != self.id() ==> final(ctx).native.obj(i)
                        == old(ctx).native.obj(i)
            },
    {
        if !ctx.is_running() {
            return Err(KissError::NotRunning);
        }
        ctx.native.set_int_raw(self.raw, name, val);
        Ok(())
    }

    /// Read an integer attribute; an attribute never written reads as zero.
    pub fn get_int_attribute(self, ctx: &KISSContext, name: Attr) -> (r: Result<i32, KissError>)
        requires
            ctx.running ==> self.valid(*ctx),
        ensures
            !ctx.running ==> r == Result::<i32, KissError>::Err(KissError::NotRunning),
            ctx.running ==> r == Result::<i32, KissError>::Ok(ctx.native.int_attr(self.id(), name)),
    {
        if !ctx.is_running() {
            return Err(KissError::NotRunning);
        }
        Ok(ctx.native.get_int_raw(self.raw, name))
    }

    /// Write an integer-pair attribute.
    pub fn set_int2_attribute(self, ctx: &mut KISSContext, name: Attr, val: (i32, i32)) -> (r:
        Result<(), KissError>)
        requires
            old(ctx).wf(),
            old(ctx).running ==> self.valid(*old(ctx)),
        ensures
            final(ctx).wf(),
            !old(ctx).running ==> r == Result::<(), KissError>::Err(KissError::NotRunning)
                && *final(ctx) == *old(ctx),
            old(ctx).running ==> {
                &&& r == Result::<(), KissError>::Ok(())
                &&& *final(ctx) == (KISSContext { native: final(ctx).native, ..*old(ctx) })
                &&& final(ctx).native.count() == old(ctx).native.count()
                &&& final(ctx).native.obj(self.id()) == (crate::native::NativeObject {
                    pairs: final(ctx).native.obj(self.id()).pairs,
                    ..old(ctx).native.obj(self.id())
                })
                &&& final(ctx).native.pair_attr(self.id(), name) == val
                &&& forall|m: Attr|
                    m != name ==> final(ctx).native.pair_attr(self.id(), m) == old(ctx).native.pair_attr(self.id(), m)
                &&& forall|i: int|
                    final(ctx).native.has(i) && i != self.id() ==> final(ctx).native.obj(i)
                        == old(ctx).native.obj(i)
            },
    {
        if !ctx.is_running() {
            return Err(KissError::NotRunning);
        }
        ctx.native.set_pair_raw(self.raw, name, val);
        Ok(())
    }

    /// Read an integer-pair attribute; an attribute never written reads as
    /// (0, 0).
    pub fn get_int2_attribute(self, ctx: &KISSContext, name: Attr) -> (r: Result<
        (i32, i32),
        KissError,
    >)
        requires
            ctx.running ==> self.valid(*ctx),
        ensures
            !ctx.running ==> r == Result::<(i32, i32), KissError>::Err(KissError::NotRunning),
            ctx.running ==> r == Result::<(i32, i32), KissError>::Ok(
                ctx.native.pair_attr(self.id(), name),
            ),
    {
        if !ctx.is_running() {
            return Err(KissError::NotRunning);
        }
        Ok(ctx.native.get_pair_raw(self.raw, name))
    }

    /// Write a boolean attribute: mapped onto the two sentinel strings of
    /// the native toolkit, through the constant string path.
    pub fn set_bool_attribute(self, ctx: &mut KISSContext, name: Attr, val: bool) -> (r: Result<
        (),
        KissError,
    >)
        requires
            old(ctx).wf(),
            old(ctx).running ==> self.valid(*old(ctx)),
        ensures
            final(ctx).wf(),
            !old(ctx).running ==> r == Result::<(), KissError>::Err(KissError::NotRunning)
                && *final(ctx) == *old(ctx),
            old(ctx).running && old(ctx).refcount(self, name) > 0 ==> r == Result::<(),
                KissError,
            >::Err(KissError::BorrowViolation) && *final(ctx) == *old(ctx),
            old(ctx).running && old(ctx).refcount(self, name) == 0 ==> {
                &&& r == Result::<(), KissError>::Ok(())
                &&& *final(ctx) == (KISSContext { native: final(ctx).native, ..*old(ctx) })
                &&& final(ctx).native.count() == old(ctx).native.count()
                &&& final(ctx).native.obj(self.id()) == (crate::native::NativeObject {
                    strs: final(ctx).native.obj(self.id()).strs,
                    ..old(ctx).native.obj(self.id())
                })
                &&& final(ctx).native.str_attr(self.id(), name) == Some(
                    if val {
                        "YES"@
                    } else {
                        "NO"@
                    },
                )
                &&& forall|m: Attr|
                    m != name ==> final(ctx).native.str_attr(self.id(), m) == old(ctx).native.str_attr(self.id(), m)
                &&& forall|i: int|
                    final(ctx).native.has(i) && i != self.id() ==> final(ctx).native.obj(i)
                        == old(ctx).native.obj(i)
            },
    {
        self.set_const_str_attribute(ctx, name, bool_yes_no(val))
    }

    /// Write a handle-reference attribute: a cross-reference to another
    /// widget.
    pub fn set_attr_handle(self, ctx: &mut KISSContext, name: Attr, handle: BaseWidget) -> (r:
        Result<(), KissError>)
        requires
            old(ctx).wf(),
            old(ctx).running ==> self.valid(*old(ctx)),
        ensures
            final(ctx).wf(),
            !old(ctx).running ==> r == Result::<(), KissError>::Err(KissError::NotRunning)
                && *final(ctx) == *old(ctx),
            old(ctx).running ==> {
                &&& r == Result::<(), KissError>::Ok(())
                &&& *final(ctx) == (KISSContext { native: final(ctx).native, ..*old(ctx) })
                &&& final(ctx).native.count() == old(ctx).native.count()
                &&& final(ctx).native.obj(self.id()) == (crate::native::NativeObject {
                    handles: final(ctx).native.obj(self.id()).handles,
                    ..old(ctx).native.obj(self.id())
                })
                &&& final(ctx).native.handle_attr(self.id(), name) == Some(handle.raw)
                &&& forall|m: Attr|
                    m != name ==> final(ctx).native.handle_attr(self.id(), m) == old(ctx).native.handle_attr(self.id(), m)
                &&& forall|i: int|
                    final(ctx).native.has(i) && i != self.id() ==> final(ctx).native.obj(i)
                        == old(ctx).native.obj(i)
            },
    {
        if !ctx.is_running() {
            return Err(KissError::NotRunning);
        }
        ctx.native.set_handle_raw(self.raw, name, handle.raw);
        Ok(())
    }

    /// Read a handle-reference attribute back as a general widget.
    pub fn get_attr_handle(self, ctx: &KISSContext, name: Attr) -> (r: Result<
        Option<BaseWidget>,
        KissError,
    >)
        requires
            ctx.running ==> self.valid(*ctx),
        ensures
            !ctx.running ==> r == Result::<Option<BaseWidget>, KissError>::Err(
                KissError::NotRunning,
            ),
            ctx.running ==> r == Result::<Option<BaseWidget>, KissError>::Ok(
                match ctx.native.handle_attr(self.id(), name) {
                    Some(t) => Some(BaseWidget { raw: t }),
                    None => None,
                },
            ),
    {
        if !ctx.is_running() {
            return Err(KissError::NotRunning);
        }
        match ctx.native.get_handle_raw(self.raw, name) {
            Some(t) => Ok(Some(BaseWidget { raw: t })),
            None => Ok(None),
        }
    }

    /// Wire the callback slot `name` of this widget to the trampoline, so
    /// that native events on the slot reach the registry.
    pub fn set_callback(self, ctx: &mut KISSContext, name: Attr) -> (r: Result<(), KissError>)
        requires
            old(ctx).wf(),
            old(ctx).running ==> self.valid(*old(ctx)),
        ensures
            final(ctx).wf(),
            !old(ctx).running ==> r == Result::<(), KissError>::Err(KissError::NotRunning)
                && *final(ctx) == *old(ctx),
            old(ctx).running ==> {
                &&& r == Result::<(), KissError>::Ok(())
                &&& *final(ctx) == (KISSContext { native: final(ctx).native, ..*old(ctx) })
                &&& final(ctx).native.count() == old(ctx).native.count()
                &&& final(ctx).native.obj(self.id()) == (crate::native::NativeObject {
                    wired: final(ctx).native.obj(self.id()).wired,
                    ..old(ctx).native.obj(self.id())
                })
                &&& final(ctx).native.wired(self.id(), name)
                &&& forall|m: Attr|
                    m != name ==> final(ctx).native.wired(self.id(), m) == old(ctx).native.wired(
                        self.id(),
                        m,
                    )
                &&& forall|i: int|
                    final(ctx).native.has(i) && i != self.id() ==> final(ctx).native.obj(i)
                        == old(ctx).native.obj(i)
            },
    {
        if !ctx.is_running() {
            return Err(KissError::NotRunning);
        }
        ctx.native.wire_callback(self.raw, name);
        Ok(())
    }
}

impl BaseWidget {
    /// Show this widget if it was previously hidden.
    pub fn show(self, ctx: &mut KISSContext) -> (r: Result<BaseWidget, KissError>)
        requires
            old(ctx).wf(),
            old(ctx).running ==> self.valid(*old(ctx)),
        ensures
            final(ctx).wf(),
            !old(ctx).running ==> r == Result::<BaseWidget, KissError>::Err(KissError::NotRunning)
                && *final(ctx) == *old(ctx),
            old(ctx).running && old(ctx).refcount(self, Attr::Visible) > 0 ==> r == Result::<
                BaseWidget,
                KissError,
            >::Err(KissError::BorrowViolation) && *final(ctx) == *old(ctx),
            old(ctx).running && old(ctx).refcount(self, Attr::Visible) == 0 ==> {
                &&& r == Result::<BaseWidget, KissError>::Ok(self)
                &&& *final(ctx) == (KISSContext { native: final(ctx).native, ..*old(ctx) })
                &&& final(ctx).native.count() == old(ctx).native.count()
                &&& final(ctx).native.obj(self.id()) == (crate::native::NativeObject {
                    strs: final(ctx).native.obj(self.id()).strs,
                    ..old(ctx).native.obj(self.id())
                })
                &&& final(ctx).native.str_attr(self.id(), Attr::Visible) == Some("YES"@)
                &&& forall|m: Attr|
                    m != Attr::Visible ==> final(ctx).native.str_attr(self.id(), m) == old(ctx).native.str_attr(self.id(), m)
                &&& forall|i: int|
                    final(ctx).native.has(i) && i != self.id() ==> final(ctx).native.obj(i)
                        == old(ctx).native.obj(i)
            },
    {
        match self.set_bool_attribute(ctx, Attr::Visible, true) {
            Ok(()) => Ok(self),
            Err(e) => Err(e),
        }
    }

    /// Hide this widget if it was previously visible.
    pub fn hide_widget(self, ctx: &mut KISSContext) -> (r: Result<BaseWidget, KissError>)
        requires
            old(ctx).wf(),
            old(ctx).running ==> self.valid(*old(ctx)),
        ensures
            final(ctx).wf(),
            !old(ctx).running ==> r == Result::<BaseWidget, KissError>::Err(KissError::NotRunning)
                && *final(ctx) == *old(ctx),
            old(ctx).running && old(ctx).refcount(self, Attr::Visible) > 0 ==> r == Result::<
                BaseWidget,
                KissError,
            >::Err(KissError::BorrowViolation) && *final(ctx) == *old(ctx),
            old(ctx).running && old(ctx).refcount(self, Attr::Visible) == 0 ==> {
                &&& r == Result::<BaseWidget, KissError>::Ok(self)
                &&& *final(ctx) == (KISSContext { native: final(ctx).native, ..*old(ctx) })
                &&& final(ctx).native.count() == old(ctx).native.count()
                &&& final(ctx).native.obj(self.id()) == (crate::native::NativeObject {
                    strs: final(ctx).native.obj(self.id()).strs,
                    ..old(ctx).native.obj(self.id())
                })
                &&& final(ctx).native.str_attr(self.id(), Attr::Visible) == Some("NO"@)
                &&& forall|m: Attr|
                    m != Attr::Visible ==> final(ctx).native.str_attr(self.id(), m) == old(ctx).native.str_attr(self.id(), m)
                &&& forall|i: int|
                    final(ctx).native.has(i) && i != self.id() ==> final(ctx).native.obj(i)
                        == old(ctx).native.obj(i)
            },
    {
        match self.set_bool_attribute(ctx, Attr::Visible, false) {
            Ok(()) => Ok(self),
            Err(e) => Err(e),
        }
    }

    /// Set the widget's visibility state: `true` is `show`, `false` is
    /// `hide`.
    pub fn set_visible(self, ctx: &mut KISSContext, visible: bool) -> (r: Result<
        BaseWidget,
        KissError,
    >)
        requires
            old(ctx).wf(),
            old(ctx).running ==> self.valid(*old(ctx)),
        ensures
            final(ctx).wf(),
            !old(ctx).running ==> r == Result::<BaseWidget, KissError>::Err(KissError::NotRunning)
                && *final(ctx) == *old(ctx),
            old(ctx).running && old(ctx).refcount(self, Attr::Visible) > 0 ==> r == Result::<
                BaseWidget,
                KissError,
            >::Err(KissError::BorrowViolation) && *final(ctx) == *old(ctx),
            old(ctx).running && old(ctx).refcount(self, Attr::Visible) == 0 ==> {
                &&& r == Result::<BaseWidget, KissError>::Ok(self)
                &&& *final(ctx) == (KISSContext { native: final(ctx).native, ..*old(ctx) })
                &&& final(ctx).native.count() == old(ctx).native.count()
                &&& final(ctx).native.obj(self.id()) == (crate::native::NativeObject {
                    strs: final(ctx).native.obj(self.id()).strs,
                    ..old(ctx).native.obj(self.id())
                })
                &&& final(ctx).native.str_attr(self.id(), Attr::Visible) == Some(
                    if visible {
                        "YES"@
                    } else {
                        "NO"@
                    },
                )
                &&& forall|m: Attr|
                    m != Attr::Visible ==> final(ctx).native.str_attr(self.id(), m) == old(ctx).native.str_attr(self.id(), m)
                &&& forall|i: int|
                    final(ctx).native.has(i) && i != self.id() ==> final(ctx).native.obj(i)
                        == old(ctx).native.obj(i)
            },
    {
        match self.set_bool_attribute(ctx, Attr::Visible, visible) {
            Ok(()) => Ok(self),
            Err(e) => Err(e),
        }
    }

    /// Set the widget's enabled state. A disabled widget does not react to
    /// user interaction and invokes no callbacks.
    pub fn set_enabled(self, ctx: &mut KISSContext, enabled: bool) -> (r: Result<
        BaseWidget,
        KissError,
    >)
        requires
            old(ctx).wf(),
            old(ctx).running ==> self.valid(*old(ctx)),
        ensures
            final(ctx).wf(),
            !old(ctx).running ==> r == Result::<BaseWidget, KissError>::Err(KissError::NotRunning)
                && *final(ctx) == *old(ctx),
            old(ctx).running && old(ctx).refcount(self, Attr::Active) > 0 ==> r == Result::<
                BaseWidget,
                KissError,
            >::Err(KissError::BorrowViolation) && *final(ctx) == *old(ctx),
            old(ctx).running && old(ctx).refcount(self, Attr::Active) == 0 ==> {
                &&& r == Result::<BaseWidget, KissError>::Ok(self)
                &&& *final(ctx) == (KISSContext { native: final(ctx).native, ..*old(ctx) })
                &&& final(ctx).native.count() == old(ctx).native.count()
                &&& final(ctx).native.obj(self.id()) == (crate::native::NativeObject {
                    strs: final(ctx).native.obj(self.id()).strs,
                    ..old(ctx).native.obj(self.id())
                })
                &&& final(ctx).native.str_attr(self.id(), Attr::Active) == Some(
                    if enabled {
                        "YES"@
                    } else {
                        "NO"@
                    },
                )
                &&& forall|m: Attr|
                    m != Attr::Active ==> final(ctx).native.str_attr(self.id(), m) == old(ctx).native.str_attr(self.id(), m)
                &&& forall|i: int|
                    final(ctx).native.has(i) && i != self.id() ==> final(ctx).native.obj(i)
                        == old(ctx).native.obj(i)
            },
    {
        match self.set_bool_attribute(ctx, Attr::Active, enabled) {
            Ok(()) => Ok(self),
            Err(e) => Err(e),
        }
    }

    /// Set the position of this widget relative to the top-left corner of
    /// its parent.
    pub fn set_position(self, ctx: &mut KISSContext, x: i32, y: i32) -> (r: Result<
        BaseWidget,
        KissError,
    >)
        requires
            old(ctx).wf(),
            old(ctx).running ==> self.valid(*old(ctx)),
        ensures
            final(ctx).wf(),
            !old(ctx).running ==> r == Result::<BaseWidget, KissError>::Err(KissError::NotRunning)
                && *final(ctx) == *old(ctx),
            old(ctx).running ==> {
                &&& r == Result::<BaseWidget, KissError>::Ok(self)
                &&& *final(ctx) == (KISSContext { native: final(ctx).native, ..*old(ctx) })
                &&& final(ctx).native.count() == old(ctx).native.count()
                &&& final(ctx).native.obj(self.id()) == (crate::native::NativeObject {
                    pairs: final(ctx).native.obj(self.id()).pairs,
                    ..old(ctx).native.obj(self.id())
                })
                &&& final(ctx).native.pair_attr(self.id(), Attr::Position) == (x, y)
                &&& forall|m: Attr|
                    m != Attr::Position ==> final(ctx).native.pair_attr(self.id(), m) == old(ctx).native.pair_attr(self.id(), m)
                &&& forall|i: int|
                    final(ctx).native.has(i) && i != self.id() ==> final(ctx).native.obj(i)
                        == old(ctx).native.obj(i)
            },
    {
        match self.set_int2_attribute(ctx, Attr::Position, (x, y)) {
            Ok(()) => Ok(self),
            Err(e) => Err(e),
        }
    }

    /// Get the position of this widget relative to the top-left corner of
    /// its parent; (0, 0) when none was ever set.
    pub fn get_position(self, ctx: &KISSContext) -> (r: Result<(i32, i32), KissError>)
        requires
            ctx.running ==> self.valid(*ctx),
        ensures
            !ctx.running ==> r == Result::<(i32, i32), KissError>::Err(KissError::NotRunning),
            ctx.running ==> r == Result::<(i32, i32), KissError>::Ok(
                ctx.native.pair_attr(self.id(), Attr::Position),
            ),
    {
        self.get_int2_attribute(ctx, Attr::Position)
    }

    /// Set the name of the widget so it can be found within its containing
    /// dialog.
    pub fn set_name(self, ctx: &mut KISSContext, name: &str) -> (r: Result<BaseWidget, KissError>)
        requires
            old(ctx).wf(),
            old(ctx).running ==> self.valid(*old(ctx)),
        ensures
            final(ctx).wf(),
            !old(ctx).running ==> r == Result::<BaseWidget, KissError>::Err(KissError::NotRunning)
                && *final(ctx) == *old(ctx),
            old(ctx).running && old(ctx).refcount(self, Attr::Name) > 0 ==> r == Result::<
                BaseWidget,
                KissError,
            >::Err(KissError::BorrowViolation) && *final(ctx) == *old(ctx),
            old(ctx).running && old(ctx).refcount(self, Attr::Name) == 0 && str_has_nul(name) ==> r
                == Result::<BaseWidget, KissError>::Err(KissError::InteriorNul) && *final(ctx)
                == *old(ctx),
            old(ctx).running && old(ctx).refcount(self, Attr::Name) == 0 && !str_has_nul(name)
                ==> {
                &&& r == Result::<BaseWidget, KissError>::Ok(self)
                &&& *final(ctx) == (KISSContext { native: final(ctx).native, ..*old(ctx) })
                &&& final(ctx).native.count() == old(ctx).native.count()
                &&& final(ctx).native.obj(self.id()) == (crate::native::NativeObject {
                    strs: final(ctx).native.obj(self.id()).strs,
                    ..old(ctx).native.obj(self.id())
                })
                &&& final(ctx).native.str_attr(self.id(), Attr::Name) == Some(name@)
                &&& forall|m: Attr|
                    m != Attr::Name ==> final(ctx).native.str_attr(self.id(), m) == old(ctx).native.str_attr(self.id(), m)
                &&& forall|i: int|
                    final(ctx).native.has(i) && i != self.id() ==> final(ctx).native.obj(i)
                        == old(ctx).native.obj(i)
            },
    {
        match self.set_str_attribute(ctx, Attr::Name, name) {
            Ok(()) => Ok(self),
            Err(e) => Err(e),
        }
    }

    /// Get the name of this widget as a borrow-tracked view, if one is set.
    pub fn get_name(self, ctx: &mut KISSContext) -> (r: Result<Option<WidgetStr>, KissError>)
        requires
            old(ctx).wf(),
            old(ctx).running ==> self.valid(*old(ctx)),
            old(ctx).running ==> old(ctx).refcount(self, Attr::Name) < usize::MAX,
        ensures
            final(ctx).wf(),
            !old(ctx).running ==> r == Result::<Option<WidgetStr>, KissError>::Err(
                KissError::NotRunning,
            ) && *final(ctx) == *old(ctx),
            old(ctx).running && old(ctx).native.str_attr(self.id(), Attr::Name) is None ==> (r
                matches Ok(o) && o is None && *final(ctx) == *old(ctx)),
            old(ctx).running && old(ctx).native.str_attr(self.id(), Attr::Name) is Some ==> (r
                matches Ok(o) && o matches Some(ws) && {
                &&& ws.target == self
                &&& ws.attr == Attr::Name
                &&& Some(ws.data@) == old(ctx).native.str_attr(self.id(), Attr::Name)
                &&& ws.wf(*final(ctx))
                &&& *final(ctx) == (KISSContext {
                    borrowed_strs: final(ctx).borrowed_strs,
                    ..*old(ctx)
                })
                &&& final(ctx).refcount(self, Attr::Name) == old(ctx).refcount(self, Attr::Name)
                    + 1
                &&& forall|h2: usize, n2: Attr|
                    !(h2 == self.raw && n2 == Attr::Name) ==> final(ctx).refcount_at(h2, n2)
                        == old(ctx).refcount_at(h2, n2)
            }),
    {
        self.get_str_attribute(ctx, Attr::Name)
    }

    /// Get the next child in the parent after this widget, based on the
    /// order in which they were attached; `None` for an only or last child,
    /// or a widget with no parent.
    pub fn get_sibling(self, ctx: &KISSContext) -> (r: Result<Option<BaseWidget>, KissError>)
        requires
            ctx.running ==> self.valid(*ctx),
        ensures
            !ctx.running ==> r == Result::<Option<BaseWidget>, KissError>::Err(
                KissError::NotRunning,
            ),
            ctx.running ==> (r matches Ok(o) && match o {
                Some(s) => ctx.native.sibling_match(self.id(), s.id()) && forall|k: int|
                    0 <= k < s.id() ==> !ctx.native.sibling_match(self.id(), k),
                None => forall|k: int| !ctx.native.sibling_match(self.id(), k),
            }),
    {
        if !ctx.is_running() {
            return Err(KissError::NotRunning);
        }
        match ctx.native.next_sibling(self.raw) {
            Some(s) => Ok(Some(BaseWidget { raw: s })),
            None => Ok(None),
        }
    }

    /// Get the parent of this widget, or `None` if it has no parent.
    pub fn get_parent(self, ctx: &KISSContext) -> (r: Result<Option<BaseWidget>, KissError>)
        requires
            ctx.running ==> self.valid(*ctx),
        ensures
            !ctx.running ==> r == Result::<Option<BaseWidget>, KissError>::Err(
                KissError::NotRunning,
            ),
            ctx.running ==> r == Result::<Option<BaseWidget>, KissError>::Ok(
                match ctx.native.parent_of(self.id()) {
                    Some(p) => Some(BaseWidget { raw: p }),
                    None => None,
                },
            ),
    {
        if !ctx.is_running() {
            return Err(KissError::NotRunning);
        }
        match ctx.native.objects[self.raw].parent {
            Some(p) => Ok(Some(BaseWidget { raw: p })),
            None => Ok(None),
        }
    }

    /// Get the containing dialog of this widget: the topmost object it hangs
    /// under, if that object is a dialog.
    pub fn get_dialog(self, ctx: &KISSContext) -> (r: Result<Option<Dialog>, KissError>)
        requires
            ctx.wf(),
            ctx.running ==> self.valid(*ctx),
        ensures
            !ctx.running ==> r == Result::<Option<Dialog>, KissError>::Err(KissError::NotRunning),
            ctx.running ==> (r matches Ok(o) && {
                let root = ctx.native.root_of(self.id());
                match o {
                    Some(d) => ctx.native.class_of(root) == crate::native::WidgetClass::Dialog
                        && d.0.id() == root,
                    None => ctx.native.class_of(root) != crate::native::WidgetClass::Dialog,
                }
            }),
    {
        if !ctx.is_running() {
            return Err(KissError::NotRunning);
        }
        let root = ctx.native.get_root(self.raw);
        if matches!(ctx.native.class_name(root), crate::native::WidgetClass::Dialog) {
            Ok(Some(Dialog(BaseWidget { raw: root })))
        } else {
            Ok(None)
        }
    }

    /// Get the rendered size of this widget in pixels; (0, 0) when none was
    /// ever set.
    pub fn get_size_pixels(self, ctx: &KISSContext) -> (r: Result<(u32, u32), KissError>)
        requires
            ctx.running ==> self.valid(*ctx),
        ensures
            !ctx.running ==> r == Result::<(u32, u32), KissError>::Err(KissError::NotRunning),
            ctx.running ==> ({
                let p = ctx.native.pair_attr(self.id(), Attr::RasterSize);
                r == Result::<(u32, u32), KissError>::Ok((p.0 as u32, p.1 as u32))
            }),
    {
        match self.get_int2_attribute(ctx, Attr::RasterSize) {
            Ok(p) => Ok((#[verifier::truncate] (p.0 as u32), #[verifier::truncate] (p.1 as u32))),
            Err(e) => Err(e),
        }
    }
}

/// Trait implemented by every widget type: a typed view of a handle.
pub trait Widget: Sized + Copy {
    /// The general widget this value is a view of.
    spec fn base_spec(self) -> BaseWidget;

    /// Forget the subtype: the same handle as a general widget.
    fn to_base(self) -> (r: BaseWidget)
        ensures
            r == self.base_spec(),
    ;

    /// Show this widget if it was previously hidden. Returns the widget for
    /// chaining.
    fn show(self, ctx: &mut KISSContext) -> (r: Result<Self, KissError>)
        requires
            old(ctx).wf(),
            old(ctx).running ==> self.base_spec().valid(*old(ctx)),
        ensures
            final(ctx).wf(),
            !old(ctx).running ==> r == Result::<Self, KissError>::Err(KissError::NotRunning)
                && *final(ctx) == *old(ctx),
            old(ctx).running && old(ctx).refcount(self.base_spec(), Attr::Visible) > 0 ==> r
                == Result::<Self, KissError>::Err(KissError::BorrowViolation) && *final(ctx)
                == *old(ctx),
            old(ctx).running && old(ctx).refcount(self.base_spec(), Attr::Visible) == 0 ==> {
                &&& r == Result::<Self, KissError>::Ok(self)
                &&& *final(ctx) == (KISSContext { native: final(ctx).native, ..*old(ctx) })
                &&& final(ctx).native.count() == old(ctx).native.count()
                &&& final(ctx).native.str_attr(self.base_spec().id(), Attr::Visible) == Some(
                    "YES"@,
                )
                &&& forall|i: int|
                    final(ctx).native.has(i) && i != self.base_spec().id() ==> final(ctx).native.obj(i) == old(ctx).native.obj(i)
            },
    {
        match self.to_base().set_bool_attribute(ctx, Attr::Visible, true) {
            Ok(()) => Ok(self),
            Err(e) => Err(e),
        }
    }

    /// Store this widget in the session's named registry under `name`,
    /// returning the widget previously stored there, if any. It can later be
    /// retrieved by [`BaseWidget::load`] from any place that has the context.
    fn store(self, ctx: &mut KISSContext, name: &str) -> (r: Result<Option<BaseWidget>, KissError>)
        requires
            old(ctx).wf(),
            old(ctx).running ==> self.base_spec().valid(*old(ctx)),
        ensures
            final(ctx).wf(),
            !old(ctx).running ==> r == Result::<Option<BaseWidget>, KissError>::Err(
                KissError::NotRunning,
            ) && *final(ctx) == *old(ctx),
            old(ctx).running ==> {
                &&& r matches Ok(prev) && prev == old(ctx).store_view().get(name@)
                &&& *final(ctx) == (KISSContext {
                    widget_store: final(ctx).widget_store,
                    ..*old(ctx)
                })
                &&& final(ctx).store_view() == old(ctx).store_view().insert(
                    name@,
                    self.base_spec(),
                )
            },
    {
        ctx.store_widget(name, self.to_base())
    }
}

/// Trait for widget types whose native object should be freed explicitly
/// when no longer used, rather than only at session teardown.
pub trait Destroy: Widget {
    /// Destroy the native object behind this widget, together with
    /// everything attached under it. Handles stay stable; the objects are
    /// only marked dead.
    fn destroy(self, ctx: &mut KISSContext) -> (r: Result<(), KissError>)
        requires
            old(ctx).wf(),
            old(ctx).running ==> self.base_spec().valid(*old(ctx)),
        ensures
            final(ctx).wf(),
            !old(ctx).running ==> r == Result::<(), KissError>::Err(KissError::NotRunning)
                && *final(ctx) == *old(ctx),
            old(ctx).running ==> {
                &&& r == Result::<(), KissError>::Ok(())
                &&& *final(ctx) == (KISSContext { native: final(ctx).native, ..*old(ctx) })
                &&& final(ctx).native.count() == old(ctx).native.count()
                &&& forall|i: int|
                    #![trigger final(ctx).native.obj(i)]
                    final(ctx).native.has(i) ==> final(ctx).native.obj(i)
                        == (crate::native::NativeObject {
                        alive: final(ctx).native.obj(i).alive,
                        ..old(ctx).native.obj(i)
                    })
                &&& forall|i: int|
                    #![trigger final(ctx).native.alive(i)]
                    final(ctx).native.has(i) ==> final(ctx).native.alive(i) == (old(ctx).native.alive(i) && i != self.base_spec().id() && match old(ctx).native.parent_of(i) {
                        None => true,
                        Some(p) => final(ctx).native.alive(p as int),
                    })
                &&& !final(ctx).native.alive(self.base_spec().id())
            },
    {
        if !ctx.is_running() {
            return Err(KissError::NotRunning);
        }
        ctx.native.destroy(self.to_base().raw);
        Ok(())
    }
}

} // verus!
