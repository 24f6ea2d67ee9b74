//! The general guarantees of the bridging layer, stated on their own and
//! proved from the same spec-level views the public contracts use.

use vstd::prelude::*;

use crate::attrs::Attr;
use crate::base::BaseWidget;
use crate::base::Downcast;
use crate::context::KISSContext;
use crate::widget::Widget;

verus! {

/// A typed widget downcasts back from its general form: for every widget
/// `w` of type `T`, any result a downcast of `w.to_base()` to `T` can
/// return is the same widget, under the same handle identity. A typed
/// widget's class belongs to its own type's class set, and the downcast
/// test is exactly membership in that set.
pub proof fn lemma_downcast_roundtrip<T: Downcast>(
    w: T,
    ctx: KISSContext,
    r: Result<T, BaseWidget>,
)
    requires
        w.base_spec().valid(ctx),
        T::classes().contains(w.base_spec().class_in(ctx)),
        crate::base::downcast_post::<T>(T::classes(), w.base_spec(), ctx, r),
    ensures
        r matches Ok(t) && t.base_spec() == w.base_spec(),
{
}

/// Downcasting a typed widget's general form to another type with a
/// disjoint class set fails, returning the original general widget
/// unchanged: no mutation, no loss.
pub proof fn lemma_downcast_disjoint<T: Downcast, U: Downcast>(
    w: T,
    ctx: KISSContext,
    r: Result<U, BaseWidget>,
)
    requires
        w.base_spec().valid(ctx),
        T::classes().contains(w.base_spec().class_in(ctx)),
        T::classes().disjoint(U::classes()),
        crate::base::downcast_post::<U>(U::classes(), w.base_spec(), ctx, r),
    ensures
        r == Result::<U, BaseWidget>::Err(w.base_spec()),
{
    let c = w.base_spec().class_in(ctx);
    if U::classes().contains(c) {
        assert(T::classes().intersect(U::classes()).contains(c));
    }
}

/// Storing a widget under a name and then loading that name yields exactly
/// that widget; storing a second widget under the same name evicts the
/// first — the registry view is map insertion, and `load` reads that map.
pub proof fn lemma_store_load_roundtrip(
    m: Map<Seq<char>, BaseWidget>,
    name: Seq<char>,
    w: BaseWidget,
    w2: BaseWidget,
)
    ensures
        m.insert(name, w).get(name) == Some(w),
        m.insert(name, w).insert(name, w2).get(name) == Some(w2),
        forall|other: Seq<char>|
            other != name ==> m.insert(name, w).get(other) == m.get(other),
{
}

/// The count the borrow tracker reads for a key from its write log.
pub open spec fn tracker_count(t: Seq<((usize, Attr), usize)>, h: usize, name: Attr) -> nat {
    match crate::logmap::log_map(t).get((h, name)) {
        Some(c) => c as nat,
        None => 0,
    }
}

/// The session's borrow tracker reads its counts exactly as
/// [`tracker_count`] does: the laws below speak of the same state the
/// public contracts use.
pub proof fn lemma_tracker_count_is_refcount(ctx: KISSContext, h: usize, name: Attr)
    ensures
        tracker_count(ctx.borrowed_strs@, h, name) == ctx.refcount_at(h, name),
{
}

/// Handing a view out blocks the attribute, and releasing it unblocks it
/// again. Acquiring appends a count one higher than the current one — so
/// while the view is alive the count is positive, which is exactly the
/// condition under which `set_str_attribute` refuses with a borrow
/// violation — and releasing appends the old count back, leaving the
/// (handle, attribute) pair as blocked or free as before the borrow.
pub proof fn lemma_acquire_release_roundtrip(
    t: Seq<((usize, Attr), usize)>,
    h: usize,
    name: Attr,
    c: usize,
)
    requires
        c as nat == tracker_count(t, h, name),
        c < usize::MAX,
    ensures
        tracker_count(t.push(((h, name), (c + 1) as usize)), h, name) == c + 1,
        tracker_count(
            t.push(((h, name), (c + 1) as usize)).push(((h, name), c)),
            h,
            name,
        ) == c,
{
    let acquired = t.push(((h, name), (c + 1) as usize));
    let released = acquired.push(((h, name), c));
    assert(acquired.drop_last() =~= t);
    assert(released.drop_last() =~= acquired);
}

} // verus!
