//! In-process model of the native toolkit: an object store of class-tagged
//! widget records addressed by handle.
//!
//! The native toolkit owns every widget object; the wrapper only ever holds
//! handles into it. This module models that object store as a vector of
//! records, one per object, whose index is the handle. Attribute writes are
//! kept as append-only logs; the value of an attribute is the last entry for
//! its name, captured by the spec-level map [`log_map`].

use vstd::prelude::*;

use crate::attrs::Attr;
use crate::logmap::log_map;
use crate::logmap::lemma_log_map_take_step;

verus! {

/// The class a native object reports for itself. Class identity is fixed at
/// creation and never changes for the lifetime of the object.
#[derive(Clone, Copy, PartialEq, Eq, Structural, Debug)]
pub enum WidgetClass {
    /// A top-level dialog (window).
    Dialog,
    /// A clickable button.
    Button,
    /// A static text label.
    Label,
    /// An editable text box.
    Text,
    /// A progress bar.
    ProgressBar,
    /// A timer; not renderable.
    Timer,
    /// An image buffer; not renderable.
    Image,
    /// A container with absolutely positioned children.
    Cbox,
    /// A container that lines children up from left to right.
    Hbox,
    /// A container that lines children up from top to bottom.
    Vbox,
    /// A container that arranges children in a grid.
    Matrix,
}


/// Look up the current value of `name` in an attribute log of copyable values.
fn attr_get<V: Copy>(entries: &Vec<(Attr, V)>, name: Attr) -> (r: Option<V>)
    ensures
        r == log_map(entries@).get(name),
{
    let mut i: usize = entries.len();
    proof {
        assert(entries@.take(i as int) =~= entries@);
    }
    while i > 0
        invariant
            i <= entries@.len(),
            log_map(entries@).get(name) == log_map(entries@.take(i as int)).get(name),
        decreases i,
    {
        i = i - 1;
        let e = entries[i];
        if e.0 == name {
            proof {
                let pre = entries@.take(i + 1);
                assert(pre.drop_last() =~= entries@.take(i as int));
                assert(pre.last() == entries@[i as int]);
            }
            return Some(e.1);
        }
        proof {
            lemma_log_map_take_step(entries@, name, i + 1);
        }
    }
    proof {
        assert(entries@.take(0) =~= Seq::<(Attr, V)>::empty());
    }
    None
}

/// Look up the current value of `name` in a string attribute log. An entry
/// holding `None` records that the attribute was reset.
fn attr_get_str(entries: &Vec<(Attr, Option<String>)>, name: Attr) -> (r: Option<Option<String>>)
    ensures
        r == log_map(entries@).get(name),
{
    let mut i: usize = entries.len();
    proof {
        assert(entries@.take(i as int) =~= entries@);
    }
    while i > 0
        invariant
            i <= entries@.len(),
            log_map(entries@).get(name) == log_map(entries@.take(i as int)).get(name),
        decreases i,
    {
        i = i - 1;
        if entries[i].0 == name {
            let val = match &entries[i].1 {
                Some(s) => Some(s.clone()),
                None => None,
            };
            proof {
                let pre = entries@.take(i + 1);
                assert(pre.drop_last() =~= entries@.take(i as int));
                assert(pre.last() == entries@[i as int]);
            }
            return Some(val);
        }
        proof {
            lemma_log_map_take_step(entries@, name, i + 1);
        }
    }
    proof {
        assert(entries@.take(0) =~= Seq::<(Attr, Option<String>)>::empty());
    }
    None
}

/// One object owned by the native toolkit.
pub struct NativeObject {
    /// The class the object reports; immutable after creation.
    pub class: WidgetClass,
    /// Cleared when the object is destroyed.
    pub alive: bool,
    /// Handle of the containing parent, if the object is attached to one.
    /// Containers are always created after their children, so a parent handle
    /// is always greater than the child's own handle.
    pub parent: Option<usize>,
    /// Position among the children of the parent, in attachment order.
    pub child_index: usize,
    /// String attributes; an entry holding `None` records a reset.
    pub strs: Vec<(Attr, Option<String>)>,
    /// Integer attributes.
    pub ints: Vec<(Attr, i32)>,
    /// Integer-pair attributes.
    pub pairs: Vec<(Attr, (i32, i32))>,
    /// Handle-reference attributes.
    pub handles: Vec<(Attr, usize)>,
    /// Callback slots that have been wired to the trampoline.
    pub wired: Vec<Attr>,
}

/// The object store of the native toolkit. A handle is an index into it;
/// objects are never removed, only marked dead, so handles stay stable for
/// the whole session.
pub struct NativeState {
    /// All objects ever created, in creation order.
    pub objects: Vec<NativeObject>,
}

impl NativeState {
    /// Number of objects ever created.
    pub open spec fn count(self) -> int {
        self.objects@.len() as int
    }

    /// Whether `h` is a handle the toolkit has handed out.
    pub open spec fn has(self, h: int) -> bool {
        0 <= h < self.count()
    }

    /// The record behind handle `h`.
    pub open spec fn obj(self, h: int) -> NativeObject {
        self.objects@[h]
    }

    pub open spec fn class_of(self, h: int) -> WidgetClass {
        self.obj(h).class
    }

    pub open spec fn alive(self, h: int) -> bool {
        self.obj(h).alive
    }

    pub open spec fn parent_of(self, h: int) -> Option<usize> {
        self.obj(h).parent
    }

    pub open spec fn child_index_of(self, h: int) -> int {
        self.obj(h).child_index as int
    }

    /// Current value of a string attribute. Reads as absent both when never
    /// written and when last reset.
    pub open spec fn str_attr(self, h: int, name: Attr) -> Option<Seq<char>> {
        match log_map(self.obj(h).strs@).get(name) {
            Some(Some(s)) => Some(s@),
            Some(None) => None,
            None => None,
        }
    }

    /// Current value of an integer attribute; absent reads as zero.
    pub open spec fn int_attr(self, h: int, name: Attr) -> i32 {
        match log_map(self.obj(h).ints@).get(name) {
            Some(v) => v,
            None => 0,
        }
    }

    /// Current value of an integer-pair attribute; absent reads as (0, 0).
    pub open spec fn pair_attr(self, h: int, name: Attr) -> (i32, i32) {
        match log_map(self.obj(h).pairs@).get(name) {
            Some(v) => v,
            None => (0, 0),
        }
    }

    /// Current value of a handle-reference attribute.
    pub open spec fn handle_attr(self, h: int, name: Attr) -> Option<usize> {
        log_map(self.obj(h).handles@).get(name)
    }

    /// Whether the callback slot `name` of `h` has been wired.
    pub open spec fn wired(self, h: int, name: Attr) -> bool {
        self.obj(h).wired@.contains(name)
    }

    /// Structural well-formedness: a parent handle always points to a later
    /// object, and a live object never hangs under a dead parent.
    pub open spec fn wf(self) -> bool {
        &&& forall|i: int|
            #![trigger self.parent_of(i)]
            self.has(i) ==> match self.parent_of(i) {
                Some(p) => i < p < self.count(),
                None => true,
            }
        &&& forall|i: int|
            #![trigger self.alive(i)]
            self.has(i) && self.alive(i) ==> match self.parent_of(i) {
                Some(p) => self.alive(p as int),
                None => true,
            }
    }

    /// An update that touches neither parents nor liveness keeps the store
    /// well-formed.
    proof fn lemma_wf_unchanged_shape(pre: NativeState, post: NativeState)
        requires
            pre.wf(),
            post.count() == pre.count(),
            forall|i: int|
                #![trigger post.obj(i)]
                post.has(i) ==> post.obj(i).parent == pre.obj(i).parent && post.obj(i).alive
                    == pre.obj(i).alive,
        ensures
            post.wf(),
    {
        assert forall|i: int|
            post.has(i) implies match post.parent_of(i) {
            Some(p) => i < p < post.count(),
            None => true,
        } by {
            assert(post.obj(i).parent == pre.obj(i).parent);
            assert(pre.parent_of(i) == post.parent_of(i));
        };
        assert forall|i: int|
            post.has(i) && post.alive(i) implies match post.parent_of(i) {
            Some(p) => post.alive(p as int),
            None => true,
        } by {
            assert(post.obj(i).parent == pre.obj(i).parent);
            assert(pre.parent_of(i) == post.parent_of(i));
            assert(pre.alive(i) == post.alive(i));
            match pre.parent_of(i) {
                Some(p) => {
                    assert(pre.alive(i));
                    assert(post.obj(p as int).alive == pre.obj(p as int).alive);
                },
                None => {},
            }
        };
    }

    /// Create a fresh object of class `class`, unattached and alive, with no
    /// attributes set. Returns its handle.
    pub fn create(&mut self, class: WidgetClass) -> (h: usize)
        requires
            old(self).wf(),
        ensures
            final(self).wf(),
            h as int == old(self).count(),
            final(self).count() == old(self).count() + 1,
            forall|i: int| old(self).has(i) ==> final(self).obj(i) == old(self).obj(i),
            final(self).obj(h as int).class == class,
            final(self).obj(h as int).alive,
            final(self).obj(h as int).parent is None,
            final(self).obj(h as int).strs@.len() == 0,
            final(self).obj(h as int).ints@.len() == 0,
            final(self).obj(h as int).pairs@.len() == 0,
            final(self).obj(h as int).handles@.len() == 0,
            final(self).obj(h as int).wired@.len() == 0,
            forall|m: Attr| final(self).str_attr(h as int, m) is None,
            forall|m: Attr| final(self).int_attr(h as int, m) == 0,
            forall|m: Attr| final(self).pair_attr(h as int, m) == (0i32, 0i32),
            forall|m: Attr| final(self).handle_attr(h as int, m) is None,
            forall|m: Attr| !final(self).wired(h as int, m),
    {
        let h = self.objects.len();
        self.objects.push(NativeObject {
            class,
            alive: true,
            parent: None,
            child_index: 0,
            strs: Vec::new(),
            ints: Vec::new(),
            pairs: Vec::new(),
            handles: Vec::new(),
            wired: Vec::new(),
        });
        proof {
            let pre = *old(self);
            assert forall|i: int|
                #![trigger self.parent_of(i)]
                self.has(i) implies match self.parent_of(i) {
                Some(p) => i < p < self.count(),
                None => true,
            } by {
                if i < pre.count() {
                    assert(self.obj(i) == pre.obj(i));
                    assert(pre.parent_of(i) == self.parent_of(i));
                }
            };
            assert forall|i: int|
                #![trigger self.alive(i)]
                self.has(i) && self.alive(i) implies match self.parent_of(i) {
                Some(p) => self.alive(p as int),
                None => true,
            } by {
                if i < pre.count() {
                    assert(self.obj(i) == pre.obj(i));
                    assert(pre.parent_of(i) == self.parent_of(i));
                    assert(pre.alive(i) == self.alive(i));
                    match pre.parent_of(i) {
                        Some(p) => {
                            if pre.alive(i) {
                                assert(self.obj(p as int) == pre.obj(p as int));
                            }
                        },
                        None => {},
                    }
                }
            };
        }
        h
    }

    /// Read the class name the object reports.
    pub fn class_name(&self, h: usize) -> (r: WidgetClass)
        requires
            self.has(h as int),
        ensures
            r == self.class_of(h as int),
    {
        self.objects[h].class
    }

    /// Write a string attribute. This is the toolkit's own storage update; the
    /// wrapper's borrow checks happen before this is reached.
    pub fn set_str_raw(&mut self, h: usize, name: Attr, val: String)
        requires
            old(self).wf(),
            old(self).has(h as int),
        ensures
            final(self).wf(),
            final(self).objects@ == old(self).objects@.update(
                h as int,
                NativeObject { strs: final(self).obj(h as int).strs, ..old(self).obj(h as int) },
            ),
            final(self).obj(h as int).strs@ == old(self).obj(h as int).strs@.push(
                (name, Some(val)),
            ),
            final(self).str_attr(h as int, name) == Some(val@),
            forall|m: Attr| m != name ==> final(self).str_attr(h as int, m) == old(self).str_attr(h as int, m),
            forall|i: int| final(self).has(i) && i != h ==> final(self).obj(i) == old(self).obj(i),
    {
        let ghost old_strs = self.objects@[h as int].strs@;
        self.objects[h].strs.push((name, Some(val)));
        proof {
            let new_strs = self.obj(h as int).strs@;
            assert(new_strs.drop_last() =~= old_strs);
            assert(log_map(new_strs) == log_map(old_strs).insert(new_strs.last().0, new_strs.last().1));
            Self::lemma_wf_unchanged_shape(*old(self), *self);
        }
    }

    /// Reset a string attribute to its absent (default) state.
    pub fn reset_str_raw(&mut self, h: usize, name: Attr)
        requires
            old(self).wf(),
            old(self).has(h as int),
        ensures
            final(self).wf(),
            final(self).objects@ == old(self).objects@.update(
                h as int,
                NativeObject { strs: final(self).obj(h as int).strs, ..old(self).obj(h as int) },
            ),
            final(self).obj(h as int).strs@ == old(self).obj(h as int).strs@.push(
                (name, None::<String>),
            ),
            final(self).str_attr(h as int, name) is None,
            forall|m: Attr| m != name ==> final(self).str_attr(h as int, m) == old(self).str_attr(
                h as int,
                m,
            ),
            forall|i: int| final(self).has(i) && i != h ==> final(self).obj(i) == old(self).obj(i),
    {
        let ghost old_strs = self.objects@[h as int].strs@;
        self.objects[h].strs.push((name, None));
        proof {
            let new_strs = self.obj(h as int).strs@;
            assert(new_strs.drop_last() =~= old_strs);
            assert(log_map(new_strs) == log_map(old_strs).insert(new_strs.last().0, new_strs.last().1));
            Self::lemma_wf_unchanged_shape(*old(self), *self);
        }
    }

    /// Read a string attribute; returns the value of the last write, if any.
    pub fn get_str_raw(&self, h: usize, name: Attr) -> (r: Option<String>)
        requires
            self.has(h as int),
        ensures
            match r {
                Some(s) => self.str_attr(h as int, name) == Some(s@),
                None => self.str_attr(h as int, name) is None,
            },
    {
        match attr_get_str(&self.objects[h].strs, name) {
            Some(Some(s)) => Some(s),
            Some(None) => None,
            None => None,
        }
    }

    /// Write an integer attribute.
    pub fn set_int_raw(&mut self, h: usize, name: Attr, val: i32)
        requires
            old(self).wf(),
            old(self).has(h as int),
        ensures
            final(self).wf(),
            final(self).objects@ == old(self).objects@.update(
                h as int,
                NativeObject { ints: final(self).obj(h as int).ints, ..old(self).obj(h as int) },
            ),
            final(self).obj(h as int).ints@ == old(self).obj(h as int).ints@.push((name, val)),
            final(self).int_attr(h as int, name) == val,
            forall|m: Attr| m != name ==> final(self).int_attr(h as int, m) == old(self).int_attr(h as int, m),
            forall|i: int| final(self).has(i) && i != h ==> final(self).obj(i) == old(self).obj(i),
    {
        let ghost old_ints = self.objects@[h as int].ints@;
        self.objects[h].ints.push((name, val));
        proof {
            let new_ints = self.obj(h as int).ints@;
            assert(new_ints.drop_last() =~= old_ints);
            assert(log_map(new_ints) == log_map(old_ints).insert(new_ints.last().0, new_ints.last().1));
            Self::lemma_wf_unchanged_shape(*old(self), *self);
        }
    }

    /// Read an integer attribute; an attribute never written reads as zero.
    pub fn get_int_raw(&self, h: usize, name: Attr) -> (r: i32)
        requires
            self.has(h as int),
        ensures
            r == self.int_attr(h as int, name),
    {
        match attr_get(&self.objects[h].ints, name) {
            Some(v) => v,
            None => 0,
        }
    }

    /// Write an integer-pair attribute.
    pub fn set_pair_raw(&mut self, h: usize, name: Attr, val: (i32, i32))
        requires
            old(self).wf(),
            old(self).has(h as int),
        ensures
            final(self).wf(),
            final(self).objects@ == old(self).objects@.update(
                h as int,
                NativeObject { pairs: final(self).obj(h as int).pairs, ..old(self).obj(h as int) },
            ),
            final(self).obj(h as int).pairs@ == old(self).obj(h as int).pairs@.push((name, val)),
            final(self).pair_attr(h as int, name) == val,
            forall|m: Attr| m != name ==> final(self).pair_attr(h as int, m) == old(self).pair_attr(h as int, m),
            forall|i: int| final(self).has(i) && i != h ==> final(self).obj(i) == old(self).obj(i),
    {
        let ghost old_pairs = self.objects@[h as int].pairs@;
        self.objects[h].pairs.push((name, val));
        proof {
            let new_pairs = self.obj(h as int).pairs@;
            assert(new_pairs.drop_last() =~= old_pairs);
            assert(log_map(new_pairs) == log_map(old_pairs).insert(new_pairs.last().0, new_pairs.last().1));
            Self::lemma_wf_unchanged_shape(*old(self), *self);
        }
    }

    /// Read an integer-pair attribute; an attribute never written reads as (0, 0).
    pub fn get_pair_raw(&self, h: usize, name: Attr) -> (r: (i32, i32))
        requires
            self.has(h as int),
        ensures
            r == self.pair_attr(h as int, name),
    {
        match attr_get(&self.objects[h].pairs, name) {
            Some(v) => v,
            None => (0, 0),
        }
    }

    /// Write a handle-reference attribute.
    pub fn set_handle_raw(&mut self, h: usize, name: Attr, target: usize)
        requires
            old(self).wf(),
            old(self).has(h as int),
        ensures
            final(self).wf(),
            final(self).objects@ == old(self).objects@.update(
                h as int,
                NativeObject { handles: final(self).obj(h as int).handles, ..old(self).obj(h as int) },
            ),
            final(self).obj(h as int).handles@ == old(self).obj(h as int).handles@.push((name, target)),
            final(self).handle_attr(h as int, name) == Some(target),
            forall|m: Attr| m != name ==> final(self).handle_attr(h as int, m) == old(self).handle_attr(h as int, m),
            forall|i: int| final(self).has(i) && i != h ==> final(self).obj(i) == old(self).obj(i),
    {
        let ghost old_handles = self.objects@[h as int].handles@;
        self.objects[h].handles.push((name, target));
        proof {
            let new_handles = self.obj(h as int).handles@;
            assert(new_handles.drop_last() =~= old_handles);
            assert(log_map(new_handles) == log_map(old_handles).insert(new_handles.last().0, new_handles.last().1));
            Self::lemma_wf_unchanged_shape(*old(self), *self);
        }
    }

    /// Read a handle-reference attribute.
    pub fn get_handle_raw(&self, h: usize, name: Attr) -> (r: Option<usize>)
        requires
            self.has(h as int),
        ensures
            r == self.handle_attr(h as int, name),
    {
        attr_get(&self.objects[h].handles, name)
    }

    /// Mark the callback slot `name` of `h` as wired to the trampoline.
    pub fn wire_callback(&mut self, h: usize, name: Attr)
        requires
            old(self).wf(),
            old(self).has(h as int),
        ensures
            final(self).wf(),
            final(self).objects@ == old(self).objects@.update(
                h as int,
                NativeObject { wired: final(self).obj(h as int).wired, ..old(self).obj(h as int) },
            ),
            final(self).obj(h as int).wired@ == old(self).obj(h as int).wired@.push(name),
            final(self).wired(h as int, name),
            forall|m: Attr| m != name ==> final(self).wired(h as int, m) == old(self).wired(h as int, m),
            forall|i: int| final(self).has(i) && i != h ==> final(self).obj(i) == old(self).obj(i),
    {
        let ghost old_wired = self.objects@[h as int].wired@;
        self.objects[h].wired.push(name);
        proof {
            let new_wired = self.obj(h as int).wired@;
            assert(new_wired =~= old_wired.push(name));
            assert(new_wired[new_wired.len() - 1] == name);
            assert forall|m: Attr| m != name implies
                new_wired.contains(m) == old_wired.contains(m) by {
                if old_wired.contains(m) {
                    let j = choose|j: int| 0 <= j < old_wired.len() && old_wired[j] == m;
                    assert(new_wired[j] == m);
                }
                if new_wired.contains(m) {
                    let j = choose|j: int| 0 <= j < new_wired.len() && new_wired[j] == m;
                    assert(j < old_wired.len());
                    assert(old_wired[j] == m);
                }
            }
            Self::lemma_wf_unchanged_shape(*old(self), *self);
        }
    }

    /// Whether the callback slot `name` of `h` has been wired.
    pub fn is_wired(&self, h: usize, name: Attr) -> (r: bool)
        requires
            self.has(h as int),
        ensures
            r == self.wired(h as int, name),
    {
        let wired = &self.objects[h].wired;
        let mut i: usize = 0;
        while i < wired.len()
            invariant
                i <= wired@.len(),
                wired@ == self.obj(h as int).wired@,
                forall|j: int| 0 <= j < i ==> wired@[j] != name,
            decreases wired@.len() - i,
        {
            if wired[i] == name {
                return true;
            }
            i = i + 1;
        }
        false
    }

    /// Attach `child` under `parent` at position `idx` among its children.
    /// Containers are created after their children, so `child < parent`.
    pub fn attach(&mut self, child: usize, parent: usize, idx: usize)
        requires
            old(self).wf(),
            old(self).has(child as int),
            old(self).has(parent as int),
            child < parent,
            old(self).alive(parent as int),
        ensures
            final(self).wf(),
            final(self).objects@ == old(self).objects@.update(
                child as int,
                NativeObject {
                    parent: Some(parent),
                    child_index: idx,
                    ..old(self).obj(child as int)
                },
            ),
            final(self).parent_of(child as int) == Some(parent),
            final(self).child_index_of(child as int) == idx as int,
            forall|i: int| final(self).has(i) && i != child ==> final(self).obj(i) == old(self).obj(i),
    {
        self.objects[child].parent = Some(parent);
        self.objects[child].child_index = idx;
        proof {
            let pre = *old(self);
            assert forall|i: int|
                #![trigger self.parent_of(i)]
                self.has(i) implies match self.parent_of(i) {
                Some(p) => i < p < self.count(),
                None => true,
            } by {
                if i != child {
                    assert(self.obj(i) == pre.obj(i));
                    assert(pre.parent_of(i) == self.parent_of(i));
                }
            };
            assert forall|i: int|
                #![trigger self.alive(i)]
                self.has(i) && self.alive(i) implies match self.parent_of(i) {
                Some(p) => self.alive(p as int),
                None => true,
            } by {
                if i != child {
                    assert(self.obj(i) == pre.obj(i));
                    assert(pre.parent_of(i) == self.parent_of(i));
                    assert(pre.alive(i) == self.alive(i));
                    match pre.parent_of(i) {
                        Some(p) => {
                            if pre.alive(i) {
                                assert(pre.alive(p as int));
                                if p != child {
                                    assert(self.obj(p as int) == pre.obj(p as int));
                                }
                            }
                        },
                        None => {},
                    }
                } else {
                    assert(self.obj(parent as int) == pre.obj(parent as int));
                }
            };
        }
    }

    /// Destroy the object behind `h` together with everything attached under
    /// it. Records stay in the store (handles remain stable); only liveness
    /// changes, following the recurrence: an object stays alive exactly when
    /// it was alive, is not `h` itself, and its parent (if any) stays alive.
    pub fn destroy(&mut self, h: usize)
        requires
            old(self).wf(),
            old(self).has(h as int),
        ensures
            final(self).wf(),
            final(self).count() == old(self).count(),
            forall|i: int|
                #![trigger final(self).obj(i)]
                final(self).has(i) ==> final(self).obj(i) == (NativeObject {
                    alive: final(self).obj(i).alive,
                    ..old(self).obj(i)
                }),
            forall|i: int|
                #![trigger final(self).alive(i)]
                final(self).has(i) ==> final(self).alive(i) == (old(self).alive(i) && i != h
                    && match old(self).parent_of(i) {
                    None => true,
                    Some(p) => final(self).alive(p as int),
                }),
            !final(self).alive(h as int),
    {
        let n = self.objects.len();
        let mut i: usize = n;
        while i > 0
            invariant
                i <= n,
                old(self).wf(),
                0 <= h < n,
                n == old(self).count(),
                self.objects@.len() == n as int,
                forall|j: int| #![trigger self.obj(j)] 0 <= j < n ==> self.obj(j) == (NativeObject {
                    alive: self.obj(j).alive,
                    ..old(self).obj(j)
                }),
                forall|j: int| 0 <= j < i ==> self.obj(j).alive == old(self).obj(j).alive,
                forall|j: int|
                    #![trigger self.alive(j)]
                    i <= j < n ==> self.alive(j) == (old(self).alive(j) && j != h
                        && match old(self).parent_of(j) {
                        None => true,
                        Some(p) => self.alive(p as int),
                    }),
            decreases i,
        {
            i = i - 1;
            let alive_now = self.objects[i].alive;
            let parent_opt = self.objects[i].parent;
            proof {
                assert(old(self).parent_of(i as int) == parent_opt);
            }
            let parent_ok = match parent_opt {
                None => true,
                Some(p) => {
                    proof {
                        assert(old(self).parent_of(i as int) == Some(p));
                    }
                    self.objects[p].alive
                },
            };
            let keep = alive_now && i != h && parent_ok;
            let ghost pre_iter = *self;
            self.objects[i].alive = keep;
            proof {
                assert forall|j: int|
                    #![trigger self.alive(j)]
                    i <= j < n implies self.alive(j) == (old(self).alive(j) && j != h
                        && match old(self).parent_of(j) {
                        None => true,
                        Some(p) => self.alive(p as int),
                    }) by {
                    if j == i {
                        match old(self).parent_of(j) {
                            Some(p) => {
                                assert(self.obj(p as int) == pre_iter.obj(p as int));
                            },
                            None => {},
                        }
                    } else {
                        assert(self.obj(j) == pre_iter.obj(j));
                        assert(pre_iter.alive(j) == self.alive(j));
                        match old(self).parent_of(j) {
                            Some(p) => {
                                assert(p != i);
                                assert(self.obj(p as int) == pre_iter.obj(p as int));
                            },
                            None => {},
                        }
                    }
                };
            }
        }
        proof {
            let pre = *old(self);
            assert forall|i: int|
                #![trigger self.parent_of(i)]
                self.has(i) implies match self.parent_of(i) {
                Some(p) => i < p < self.count(),
                None => true,
            } by {
                assert(self.obj(i) == (NativeObject { alive: self.obj(i).alive, ..pre.obj(i) }));
                assert(pre.parent_of(i) == self.parent_of(i));
            };
            assert forall|i: int|
                #![trigger self.alive(i)]
                self.has(i) && self.alive(i) implies match self.parent_of(i) {
                Some(p) => self.alive(p as int),
                None => true,
            } by {
                assert(self.obj(i) == (NativeObject { alive: self.obj(i).alive, ..pre.obj(i) }));
                assert(pre.parent_of(i) == self.parent_of(i));
            };
            assert(!self.alive(h as int));
        }
    }

    /// The topmost object `i` hangs under (itself if unattached).
    pub open spec fn root_of(self, i: int) -> int
        decreases self.count() - i
            when self.wf() && self.has(i)
    {
        match self.parent_of(i) {
            None => i,
            Some(p) => self.root_of(p as int),
        }
    }

    /// Whether `i` lies in the tree rooted at `d` (including `i == d`).
    pub open spec fn in_tree_of(self, i: int, d: int) -> bool
        decreases self.count() - i
            when self.wf() && self.has(i)
    {
        i == d || match self.parent_of(i) {
            None => false,
            Some(p) => self.in_tree_of(p as int, d),
        }
    }

    /// Climb to the topmost object `h` hangs under.
    pub fn get_root(&self, h: usize) -> (r: usize)
        requires
            self.wf(),
            self.has(h as int),
        ensures
            r as int == self.root_of(h as int),
            self.has(r as int),
            self.parent_of(r as int) is None,
    {
        let mut cur = h;
        while self.objects[cur].parent.is_some()
            invariant
                self.wf(),
                self.has(cur as int),
                self.root_of(cur as int) == self.root_of(h as int),
            decreases self.count() - cur,
        {
            let p = self.objects[cur].parent.unwrap();
            proof {
                assert(self.parent_of(cur as int) == Some(p));
            }
            cur = p;
        }
        proof {
            assert(self.parent_of(cur as int) is None);
        }
        cur
    }

    /// Whether `j` is the next child after `h` among the children of `h`'s
    /// parent, in attachment order.
    pub open spec fn sibling_match(self, h: int, j: int) -> bool {
        &&& self.has(j)
        &&& self.parent_of(h) is Some
        &&& self.parent_of(j) == self.parent_of(h)
        &&& self.child_index_of(j) == self.child_index_of(h) + 1
    }

    /// Find the next child after `h` in `h`'s parent, if there is one;
    /// of several candidates the one with the lowest handle wins.
    pub fn next_sibling(&self, h: usize) -> (r: Option<usize>)
        requires
            self.has(h as int),
        ensures
            match r {
                Some(s) => self.sibling_match(h as int, s as int) && forall|k: int|
                    0 <= k < s ==> !self.sibling_match(h as int, k),
                None => forall|k: int| !self.sibling_match(h as int, k),
            },
    {
        let parent_opt = self.objects[h].parent;
        let p = match parent_opt {
            None => {
                return None;
            },
            Some(p) => p,
        };
        let cidx = self.objects[h].child_index;
        let mut j: usize = 0;
        let n = self.objects.len();
        while j < n
            invariant
                j <= n,
                n == self.count(),
                0 <= h < n,
                self.parent_of(h as int) == Some(p),
                cidx as int == self.child_index_of(h as int),
                forall|k: int| 0 <= k < j ==> !self.sibling_match(h as int, k),
            decreases n - j,
        {
            let same_parent = match self.objects[j].parent {
                Some(q) => q == p,
                None => false,
            };
            let ci = self.objects[j].child_index;
            if same_parent && ci >= 1 && ci - 1 == cidx {
                return Some(j);
            }
            j = j + 1;
        }
        None
    }

    /// Whether `j` is a live element inside the tree of `d`, other than `d`
    /// itself, whose name attribute reads `name`.
    pub open spec fn named_match(self, j: int, d: int, name: Seq<char>) -> bool {
        &&& self.has(j)
        &&& j != d
        &&& self.alive(j)
        &&& self.in_tree_of(j, d)
        &&& self.str_attr(j, Attr::Name) == Some(name)
    }

    /// Find the live element named `name` inside the tree of `d`; of several
    /// candidates the one with the lowest handle wins.
    pub fn find_named(&self, d: usize, name: &String) -> (r: Option<usize>)
        requires
            self.wf(),
            self.has(d as int),
        ensures
            match r {
                Some(j) => self.named_match(j as int, d as int, name@) && forall|k: int|
                    0 <= k < j ==> !self.named_match(k, d as int, name@),
                None => forall|k: int| !self.named_match(k, d as int, name@),
            },
    {
        let n = self.objects.len();
        let mut j: usize = 0;
        while j < n
            invariant
                j <= n,
                n == self.count(),
                self.wf(),
                self.has(d as int),
                forall|k: int| 0 <= k < j ==> !self.named_match(k, d as int, name@),
            decreases n - j,
        {
            if j != d && self.objects[j].alive && self.is_in_tree(j, d) {
                let named = match self.get_str_raw(j, Attr::Name) {
                    Some(s) => s == *name,
                    None => false,
                };
                if named {
                    return Some(j);
                }
            }
            j = j + 1;
        }
        None
    }

    /// Whether `h` lies in the tree rooted at `d`.
    pub fn is_in_tree(&self, h: usize, d: usize) -> (r: bool)
        requires
            self.wf(),
            self.has(h as int),
        ensures
            r == self.in_tree_of(h as int, d as int),
    {
        let mut cur = h;
        loop
            invariant
                self.wf(),
                self.has(cur as int),
                self.in_tree_of(cur as int, d as int) == self.in_tree_of(h as int, d as int),
            decreases self.count() - cur,
        {
            if cur == d {
                return true;
            }
            match self.objects[cur].parent {
                Some(p) => {
                    proof {
                        assert(self.parent_of(cur as int) == Some(p));
                    }
                    cur = p;
                },
                None => {
                    proof {
                        assert(self.parent_of(cur as int) is None);
                    }
                    return false;
                },
            }
        }
    }
}

} // verus!
