//! The session context: the single runtime state a session owns — the native
//! object store, the named widget registry, the string borrow tracker, the
//! callback registry and the deferred-cleanup list.
//!
//! The entry point creates one context and every widget operation takes it
//! explicitly; no ambient global state exists. A context starts out not
//! running; between [`KISSContext::open`] and [`KISSContext::close`] it is
//! the active session. Every widget operation called while the context is
//! not running fails fast with [`KissError::NotRunning`].

use vstd::prelude::*;

use crate::attrs::Attr;
use crate::base::BaseWidget;
use crate::callback::CallbackId;
use crate::callback::CallbackMap;
use crate::callback::new_callback_map;
use crate::logmap::lemma_log_map_get_in_entries;
use crate::logmap::lemma_log_map_take_step;
use crate::logmap::log_map;
use crate::native::NativeState;

verus! {

/// How a misused or refused operation reports itself.
#[derive(Clone, Copy, PartialEq, Eq, Structural, Debug)]
pub enum KissError {
    /// A widget operation was attempted while no session is running:
    /// before the entry point opened the toolkit, or after it returned.
    NotRunning,
    /// The session entry point was entered while a session is already active.
    AlreadyRunning,
    /// A string attribute was written while a borrowed view of it is alive.
    BorrowViolation,
    /// A string holds an embedded NUL byte and cannot cross the native
    /// boundary, where strings are NUL-terminated.
    InteriorNul,
}

/// The map view of the named widget registry.
pub open spec fn store_map_of(entries: Seq<(String, BaseWidget)>) -> Map<Seq<char>, BaseWidget> {
    log_map(entries.map_values(|e: (String, BaseWidget)| (e.0@, e.1)))
}

/// Look up a binding in a log keyed by (handle, attribute name).
pub(crate) fn pairkey_get<V: Copy>(entries: &Vec<((usize, Attr), V)>, h: usize, name: Attr) -> (r: Option<
    V,
>)
    ensures
        r == log_map(entries@).get((h, name)),
{
    let mut i: usize = entries.len();
    proof {
        assert(entries@.take(i as int) =~= entries@);
    }
    while i > 0
        invariant
            i <= entries@.len(),
            log_map(entries@).get((h, name)) == log_map(entries@.take(i as int)).get((h, name)),
        decreases i,
    {
        i = i - 1;
        let e = entries[i];
        if e.0.0 == h && e.0.1 == name {
            proof {
                let pre = entries@.take(i + 1);
                assert(pre.drop_last() =~= entries@.take(i as int));
                assert(pre.last() == entries@[i as int]);
            }
            return Some(e.1);
        }
        proof {
            lemma_log_map_take_step(entries@, (h, name), i + 1);
        }
    }
    proof {
        assert(entries@.take(0) =~= Seq::<((usize, Attr), V)>::empty());
    }
    None
}

/// Look up a widget in the named registry log.
fn store_get(entries: &Vec<(String, BaseWidget)>, name: &String) -> (r: Option<BaseWidget>)
    ensures
        r == store_map_of(entries@).get(name@),
{
    let ghost f = |e: (String, BaseWidget)| (e.0@, e.1);
    let ghost mseq = entries@.map_values(f);
    let mut i: usize = entries.len();
    proof {
        assert(mseq.take(i as int) =~= mseq);
    }
    while i > 0
        invariant
            i <= entries@.len(),
            mseq == entries@.map_values(f),
            f == (|e: (String, BaseWidget)| (e.0@, e.1)),
            log_map(mseq).get(name@) == log_map(mseq.take(i as int)).get(name@),
        decreases i,
    {
        i = i - 1;
        if entries[i].0 == *name {
            let w = entries[i].1;
            proof {
                let pre = mseq.take(i + 1);
                assert(pre.drop_last() =~= mseq.take(i as int));
                assert(pre.last() == mseq[i as int]);
                assert(mseq[i as int] == (entries@[i as int].0@, entries@[i as int].1));
            }
            return Some(w);
        }
        proof {
            assert(mseq[i as int] == (entries@[i as int].0@, entries@[i as int].1));
            assert(mseq[i as int].0 != name@);
            lemma_log_map_take_step(mseq, name@, i + 1);
        }
    }
    proof {
        assert(mseq.take(0) =~= Seq::<(Seq<char>, BaseWidget)>::empty());
    }
    None
}

/// The process-wide session state. Created by the entry point, handed by
/// reference through every widget operation, torn down when the entry point
/// returns.
pub struct KISSContext {
    /// Whether the session is active. Set by `open`, cleared by `close`;
    /// every widget operation checks it first.
    pub running: bool,
    /// The modelled native toolkit owning all widget objects.
    pub native: NativeState,
    /// The named widget registry: a write log of name-to-widget bindings.
    pub widget_store: Vec<(String, BaseWidget)>,
    /// The string borrow tracker: a write log of the live-view counts per
    /// (handle, attribute name).
    pub borrowed_strs: Vec<((usize, Attr), usize)>,
    /// The callback registry.
    pub callbacks: CallbackMap,
    /// The next callback token to hand out.
    pub next_callback: CallbackId,
    /// Tokens of replaced callbacks, queued for cleanup at teardown rather
    /// than dropped while possibly still mid-invocation.
    pub drops: Vec<CallbackId>,
    /// Scripted user responses for blocking popups, consumed in order.
    pub popup_answers: Vec<i32>,
    /// How many scripted responses have been consumed.
    pub popup_served: usize,
}

impl KISSContext {
    /// The named widget registry as a map.
    pub open spec fn store_view(self) -> Map<Seq<char>, BaseWidget> {
        store_map_of(self.widget_store@)
    }

    /// Count of live borrowed views of (handle, attribute name).
    pub open spec fn refcount_at(self, h: usize, name: Attr) -> nat {
        match log_map(self.borrowed_strs@).get((h, name)) {
            Some(c) => c as nat,
            None => 0,
        }
    }

    /// Count of live borrowed views of a widget's string attribute.
    pub open spec fn refcount(self, widget: BaseWidget, name: Attr) -> nat {
        self.refcount_at(widget.raw, name)
    }

    /// The callback token registered for (handle, event slot), if any.
    pub open spec fn cb_entry(self, h: usize, name: Attr) -> Option<CallbackId> {
        self.callbacks@.get((h, name))
    }

    /// Session invariant: the native store is well-formed and every widget in
    /// the named registry is a handle the store handed out.
    pub open spec fn wf(self) -> bool {
        &&& self.native.wf()
        &&& forall|i: int|
            #![trigger self.widget_store@[i]]
            0 <= i < self.widget_store@.len() ==> self.native.has(self.widget_store@[i].1.id())
    }

    /// Whether the session is active.
    pub fn is_running(&self) -> (r: bool)
        ensures
            r == self.running,
    {
        self.running
    }

    /// Create a context that is not yet running: the state before the entry
    /// point has opened the toolkit.
    pub fn new() -> (c: KISSContext)
        ensures
            c.wf(),
            !c.running,
            c.native.count() == 0,
            c.widget_store@.len() == 0,
            c.borrowed_strs@.len() == 0,
            c.callbacks.entries@.len() == 0,
            c.next_callback == 0,
            c.drops@.len() == 0,
            c.popup_answers@.len() == 0,
            c.popup_served == 0,
    {
        KISSContext {
            running: false,
            native: NativeState { objects: Vec::new() },
            widget_store: Vec::new(),
            borrowed_strs: Vec::new(),
            callbacks: new_callback_map(),
            next_callback: 0,
            drops: Vec::new(),
            popup_answers: Vec::new(),
            popup_served: 0,
        }
    }

    /// Script the next user response a blocking popup will report.
    pub fn script_popup_answer(&mut self, answer: i32)
        ensures
            *final(self) == (KISSContext {
                popup_answers: final(self).popup_answers,
                ..*old(self)
            }),
            final(self).popup_answers@ == old(self).popup_answers@.push(answer),
    {
        self.popup_answers.push(answer);
    }

    /// Consume the next scripted popup response; with none left, the popup
    /// counts as closed and the response is 0.
    pub(crate) fn take_popup_answer(&mut self) -> (r: i32)
        ensures
            *final(self) == (KISSContext { popup_served: final(self).popup_served, ..*old(self) }),
            old(self).popup_served < old(self).popup_answers@.len() ==> (r == old(self).popup_answers@[old(self).popup_served as int]
                && final(self).popup_served == old(self).popup_served + 1),
            old(self).popup_served >= old(self).popup_answers@.len() ==> (r == 0
                && final(self).popup_served == old(self).popup_served),
    {
        if self.popup_served < self.popup_answers.len() {
            let a = self.popup_answers[self.popup_served];
            self.popup_served = self.popup_served + 1;
            a
        } else {
            0
        }
    }

    /// Open the session: the entry point's first step. Fails — and changes
    /// nothing — if this context is already running.
    pub fn open(&mut self) -> (r: Result<(), KissError>)
        requires
            old(self).wf(),
        ensures
            final(self).wf(),
            old(self).running ==> r == Result::<(), KissError>::Err(KissError::AlreadyRunning)
                && *final(self) == *old(self),
            !old(self).running ==> r == Result::<(), KissError>::Ok(()) && *final(self)
                == (KISSContext { running: true, ..*old(self) }),
    {
        if self.running {
            return Err(KissError::AlreadyRunning);
        }
        self.running = true;
        Ok(())
    }

    /// Tear the session down: deinitializes the toolkit, clears the named
    /// registry, the callback tables, the borrow tracker and the cleanup
    /// list, and clears the running flag. Handles of this session are dead
    /// afterwards; every further widget operation fails fast.
    pub fn close(&mut self)
        requires
            old(self).wf(),
        ensures
            final(self).wf(),
            !final(self).running,
            final(self).native == old(self).native,
            final(self).next_callback == old(self).next_callback,
            final(self).widget_store@.len() == 0,
            final(self).borrowed_strs@.len() == 0,
            final(self).callbacks.entries@.len() == 0,
            final(self).drops@.len() == 0,
            final(self).store_view() == Map::<Seq<char>, BaseWidget>::empty(),
    {
        self.running = false;
        self.widget_store = Vec::new();
        self.borrowed_strs = Vec::new();
        self.callbacks = new_callback_map();
        self.drops = Vec::new();
        proof {
            assert(self.widget_store@.map_values(|e: (String, BaseWidget)| (e.0@, e.1))
                =~= Seq::<(Seq<char>, BaseWidget)>::empty());
        }
    }

    /// Refuse to touch a string attribute that has live borrowed views.
    /// `Ok` exactly when the session runs and no view of (widget, name) is
    /// alive.
    pub fn assert_str_not_borrowed(&self, widget: BaseWidget, name: Attr) -> (r: Result<
        (),
        KissError,
    >)
        ensures
            !self.running ==> r == Result::<(), KissError>::Err(KissError::NotRunning),
            self.running && self.refcount(widget, name) > 0 ==> r == Result::<(),
                KissError,
            >::Err(KissError::BorrowViolation),
            self.running && self.refcount(widget, name) == 0 ==> r == Result::<(),
                KissError,
            >::Ok(()),
    {
        if !self.running {
            return Err(KissError::NotRunning);
        }
        match pairkey_get(&self.borrowed_strs, widget.raw, name) {
            Some(c) if c > 0 => Err(KissError::BorrowViolation),
            _ => Ok(()),
        }
    }

    /// Read the current count of live borrowed views of (widget, name).
    pub fn str_refcount(&self, widget: BaseWidget, name: Attr) -> (r: Result<usize, KissError>)
        ensures
            !self.running ==> r == Result::<usize, KissError>::Err(KissError::NotRunning),
            self.running ==> (r matches Ok(c) && c as nat == self.refcount(widget, name)),
    {
        if !self.running {
            return Err(KissError::NotRunning);
        }
        match pairkey_get(&self.borrowed_strs, widget.raw, name) {
            Some(c) => Ok(c),
            None => Ok(0),
        }
    }

    /// Record one more live borrowed view of (widget, name): a view was
    /// handed out.
    pub(crate) fn acquire_str(&mut self, widget: BaseWidget, name: Attr)
        requires
            old(self).refcount(widget, name) < usize::MAX,
        ensures
            *final(self) == (KISSContext {
                borrowed_strs: final(self).borrowed_strs,
                ..*old(self)
            }),
            final(self).refcount_at(widget.raw, name) == old(self).refcount_at(widget.raw, name)
                + 1,
            forall|h2: usize, n2: Attr|
                !(h2 == widget.raw && n2 == name) ==> final(self).refcount_at(h2, n2) == old(self).refcount_at(h2, n2),
    {
        let c = pairkey_get(&self.borrowed_strs, widget.raw, name);
        let newc: usize = match c {
            Some(v) => v + 1,
            None => 1,
        };
        let ghost pre = self.borrowed_strs@;
        self.borrowed_strs.push(((widget.raw, name), newc));
        proof {
            assert(self.borrowed_strs@.drop_last() =~= pre);
        }
    }

    /// Record that one live borrowed view of (widget, name) was released.
    pub(crate) fn release_str(&mut self, widget: BaseWidget, name: Attr)
        requires
            old(self).refcount(widget, name) > 0,
        ensures
            *final(self) == (KISSContext {
                borrowed_strs: final(self).borrowed_strs,
                ..*old(self)
            }),
            final(self).refcount_at(widget.raw, name) == old(self).refcount_at(widget.raw, name)
                - 1,
            forall|h2: usize, n2: Attr|
                !(h2 == widget.raw && n2 == name) ==> final(self).refcount_at(h2, n2) == old(self).refcount_at(h2, n2),
    {
        let c = pairkey_get(&self.borrowed_strs, widget.raw, name);
        let newc: usize = match c {
            Some(v) => v - 1,
            None => 0,
        };
        let ghost pre = self.borrowed_strs@;
        self.borrowed_strs.push(((widget.raw, name), newc));
        proof {
            assert(self.borrowed_strs@.drop_last() =~= pre);
        }
    }

    /// Store `widget` in the named registry under `name`, returning the
    /// widget previously stored under that name, which is evicted but not
    /// destroyed.
    pub fn store_widget(&mut self, name: &str, widget: BaseWidget) -> (r: Result<
        Option<BaseWidget>,
        KissError,
    >)
        requires
            old(self).wf(),
            old(self).running ==> widget.valid(*old(self)),
        ensures
            final(self).wf(),
            !old(self).running ==> r == Result::<Option<BaseWidget>, KissError>::Err(
                KissError::NotRunning,
            ) && *final(self) == *old(self),
            old(self).running ==> {
                &&& r matches Ok(prev) && prev == old(self).store_view().get(name@)
                &&& *final(self) == (KISSContext {
                    widget_store: final(self).widget_store,
                    ..*old(self)
                })
                &&& final(self).store_view() == old(self).store_view().insert(name@, widget)
            },
    {
        if !self.running {
            return Err(KissError::NotRunning);
        }
        let name_string = name.to_owned();
        let prev = store_get(&self.widget_store, &name_string);
        let ghost pre = self.widget_store@;
        self.widget_store.push((name_string, widget));
        proof {
            let f = |e: (String, BaseWidget)| (e.0@, e.1);
            assert(self.widget_store@.map_values(f).drop_last() =~= pre.map_values(f));
            assert(self.widget_store@.map_values(f).last() == (name@, widget));
            assert forall|i: int|
                0 <= i < self.widget_store@.len() implies self.native.has(
                self.widget_store@[i].1.id(),
            ) by {
                if i < pre.len() {
                    assert(self.widget_store@[i] == pre[i]);
                }
            };
        }
        Ok(prev)
    }

    /// Load the widget stored under `name`, if any. The result can then be
    /// downcast back to its concrete type.
    pub fn load_widget(&self, name: &str) -> (r: Result<Option<BaseWidget>, KissError>)
        requires
            self.wf(),
        ensures
            !self.running ==> r == Result::<Option<BaseWidget>, KissError>::Err(
                KissError::NotRunning,
            ),
            self.running ==> (r matches Ok(found) && found == self.store_view().get(name@)),
            self.running && self.store_view().get(name@) is Some ==> self.native.has(
                self.store_view()[name@].id(),
            ),
    {
        if !self.running {
            return Err(KissError::NotRunning);
        }
        let name_string = name.to_owned();
        let found = store_get(&self.widget_store, &name_string);
        proof {
            let f = |e: (String, BaseWidget)| (e.0@, e.1);
            let mseq = self.widget_store@.map_values(f);
            if self.store_view().get(name@) is Some {
                lemma_log_map_get_in_entries(mseq, name@);
                let i = choose|i: int|
                    0 <= i < mseq.len() && mseq[i] == (name@, log_map(mseq)[name@]);
                assert(mseq[i] == (self.widget_store@[i].0@, self.widget_store@[i].1));
                assert(self.native.has(self.widget_store@[i].1.id()));
            }
        }
        Ok(found)
    }

    /// Queue a replaced callback token for cleanup at teardown.
    pub fn store_for_drop(&mut self, id: CallbackId) -> (r: Result<(), KissError>)
        ensures
            !old(self).running ==> r == Result::<(), KissError>::Err(KissError::NotRunning)
                && *final(self) == *old(self),
            old(self).running ==> {
                &&& r == Result::<(), KissError>::Ok(())
                &&& *final(self) == (KISSContext { drops: final(self).drops, ..*old(self) })
                &&& final(self).drops@ == old(self).drops@.push(id)
            },
    {
        if !self.running {
            return Err(KissError::NotRunning);
        }
        self.drops.push(id);
        Ok(())
    }
}

} // verus!
