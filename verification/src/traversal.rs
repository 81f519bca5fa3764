//! Bookkeeping for libcrypto's synchronous enumerations.
//!
//! libcrypto walks its name tables and provider stores and calls back once per
//! entry. The binding keeps a small state across those callbacks: whether the
//! user's callback has panicked (from then on no callback runs, and the panic
//! is resumed once libcrypto has returned), and whether libcrypto handed over
//! an entry without a name (which makes the enumeration's answer invalid).

use vstd::prelude::*;

verus! {

/// The state carried across the callbacks of one enumeration.
#[derive(Clone, Copy, Debug, PartialEq, Eq, Structural)]
pub struct Traversal {
    panicked: bool,
    valid: bool,
    null_invalidates: bool,
}

/// How an enumeration ends, once libcrypto has returned.
#[derive(Clone, Copy, Debug, PartialEq, Eq, Structural)]
pub enum TraversalEnd {
    /// A callback panicked: the panic is resumed now.
    ResumePanic,
    /// No callback panicked: the enumeration's answer.
    Done(bool),
}

/// One entry libcrypto hands to the callback: whether its name (or method)
/// is present, and whether the user's callback would panic if invoked on it.
#[derive(Clone, Copy, Debug, PartialEq, Eq, Structural)]
pub struct Entry {
    pub present: bool,
    pub panics: bool,
}

impl Traversal {
    /// Whether a callback has panicked.
    pub closed spec fn spec_panicked(self) -> bool {
        self.panicked
    }

    /// Whether every entry seen so far was usable.
    pub closed spec fn spec_valid(self) -> bool {
        self.valid
    }

    /// Whether an entry without a name invalidates the answer (name and
    /// provider enumerations) or is merely skipped (legacy name tables).
    pub closed spec fn spec_null_invalidates(self) -> bool {
        self.null_invalidates
    }

    /// The state before the first callback of an enumeration.
    pub open spec fn fresh(self, null_invalidates: bool) -> bool {
        !self.spec_panicked() && self.spec_valid() && self.spec_null_invalidates() == null_invalidates
    }

    /// State for enumerations whose entries must all carry a name or method:
    /// the `*_names_do_all` and `*_do_all_provided` families.
    pub fn for_names() -> (t: Traversal)
        ensures
            t.fresh(true),
    {
        Traversal { panicked: false, valid: true, null_invalidates: true }
    }

    /// State for the legacy name tables, whose alias entries without a name
    /// are skipped.
    pub fn for_legacy_table() -> (t: Traversal)
        ensures
            t.fresh(false),
    {
        Traversal { panicked: false, valid: true, null_invalidates: false }
    }

    /// Whether the callback runs on an entry.
    pub open spec fn invokes(self, present: bool) -> bool {
        !self.spec_panicked() && present
    }

    /// Called for each entry libcrypto delivers; answers whether the user's
    /// callback is to be invoked on it.
    pub fn visit(&mut self, present: bool) -> (invoke: bool)
        ensures
            invoke == old(self).invokes(present),
            final(self).spec_panicked() == old(self).spec_panicked(),
            final(self).spec_null_invalidates() == old(self).spec_null_invalidates(),
            final(self).spec_valid() == (old(self).spec_valid() && (old(self).spec_panicked()
                || present || !old(self).spec_null_invalidates())),
    {
        if self.panicked {
            return false;
        }
        if !present {
            if self.null_invalidates {
                self.valid = false;
            }
            return false;
        }
        true
    }

    /// Records that the user's callback panicked.
    pub fn record_panic(&mut self)
        ensures
            final(self).spec_panicked(),
            final(self).spec_valid() == old(self).spec_valid(),
            final(self).spec_null_invalidates() == old(self).spec_null_invalidates(),
    {
        self.panicked = true;
    }

    /// How the enumeration ends, given whether libcrypto reported that it
    /// completed.
    pub open spec fn spec_finish(self, complete: bool) -> TraversalEnd {
        if self.spec_panicked() {
            TraversalEnd::ResumePanic
        } else {
            TraversalEnd::Done(complete && self.spec_valid())
        }
    }

    /// Ends the enumeration; `complete` is libcrypto's own success report
    /// (pass `true` where libcrypto reports none).
    pub fn finish(&self, complete: bool) -> (end: TraversalEnd)
        ensures
            end == self.spec_finish(complete),
    {
        if self.panicked {
            TraversalEnd::ResumePanic
        } else {
            TraversalEnd::Done(complete && self.valid)
        }
    }

    /// One entry: `visit`, then `record_panic` if the callback ran and panicked.
    pub closed spec fn step(self, entry: Entry) -> Traversal {
        let invoked = self.invokes(entry.present);
        let valid = self.spec_valid() && (self.spec_panicked() || entry.present
            || !self.spec_null_invalidates());
        Traversal {
            panicked: self.spec_panicked() || (invoked && entry.panics),
            valid,
            null_invalidates: self.spec_null_invalidates(),
        }
    }

    /// The state after a whole sequence of entries.
    pub open spec fn run(self, entries: Seq<Entry>) -> Traversal
        decreases entries.len(),
    {
        if entries.len() == 0 {
            self
        } else {
            self.step(entries[0]).run(entries.drop_first())
        }
    }

    /// How many times the user's callback runs over a sequence of entries.
    pub open spec fn invocations(self, entries: Seq<Entry>) -> nat
        decreases entries.len(),
    {
        if entries.len() == 0 {
            0
        } else {
            (if self.invokes(entries[0].present) { 1nat } else { 0nat })
                + self.step(entries[0]).invocations(entries.drop_first())
        }
    }
}

/// Applies one delivered entry to the state the way the enumeration wrappers
/// do, with the callback's behaviour given by `entry.panics`; answers whether
/// the callback ran.
pub fn deliver(t: &mut Traversal, entry: Entry) -> (invoked: bool)
    ensures
        invoked == old(t).invokes(entry.present),
        *final(t) == old(t).step(entry),
{
    let invoked = t.visit(entry.present);
    if invoked && entry.panics {
        t.record_panic();
    }
    invoked
}

/// Whether every entry of a sequence carries a name.
pub open spec fn all_present(entries: Seq<Entry>) -> bool {
    forall|i: int| 0 <= i < entries.len() ==> #[trigger] entries[i].present
}

/// Whether the callback panics on no entry that carries a name.
pub open spec fn no_present_panics(entries: Seq<Entry>) -> bool {
    forall|i: int| 0 <= i < entries.len() ==> !(#[trigger] entries[i].present && entries[i].panics)
}

/// How many entries of a sequence carry a name.
pub open spec fn present_count(entries: Seq<Entry>) -> nat
    decreases entries.len(),
{
    if entries.len() == 0 {
        0
    } else {
        (if entries[0].present { 1nat } else { 0nat }) + present_count(entries.drop_first())
    }
}

/// Once a callback has panicked, later entries change nothing and run no
/// callback.
pub proof fn lemma_panic_is_final(t: Traversal, entries: Seq<Entry>)
    requires
        t.spec_panicked(),
    ensures
        t.run(entries) == t,
        t.invocations(entries) == 0,
    decreases entries.len(),
{
    if entries.len() > 0 {
        assert(t.step(entries[0]) == t);
        lemma_panic_is_final(t, entries.drop_first());
    }
}

/// Without a panic, the callback runs exactly once per entry carrying a name,
/// and the state stays free of panics; its validity records whether every
/// entry carried a name (where missing names invalidate).
pub proof fn lemma_run_without_panic(t: Traversal, entries: Seq<Entry>)
    requires
        !t.spec_panicked(),
        no_present_panics(entries),
    ensures
        !t.run(entries).spec_panicked(),
        t.invocations(entries) == present_count(entries),
        t.run(entries).spec_null_invalidates() == t.spec_null_invalidates(),
        t.run(entries).spec_valid() == (t.spec_valid() && (!t.spec_null_invalidates()
            || all_present(entries))),
    decreases entries.len(),
{
    if entries.len() > 0 {
        let rest = entries.drop_first();
        assert forall|i: int| 0 <= i < rest.len() implies !(#[trigger] rest[i].present
            && rest[i].panics) by {
            assert(rest[i] == entries[i + 1]);
        }
        assert(!(entries[0].present && entries[0].panics));
        lemma_run_without_panic(t.step(entries[0]), rest);
        if all_present(entries) {
            assert(entries[0].present);
            assert forall|i: int| 0 <= i < rest.len() implies #[trigger] rest[i].present by {
                assert(rest[i] == entries[i + 1]);
            }
        }
        if entries[0].present && all_present(rest) {
            assert forall|i: int| 0 <= i < entries.len() implies #[trigger] entries[i].present by {
                if i > 0 {
                    assert(entries[i] == rest[i - 1]);
                }
            }
        }
    }
}

/// An enumeration in which no callback panics answers whether libcrypto
/// completed and, for name and provider enumerations, whether every entry
/// carried a name; the callback runs once per named entry.
pub proof fn law_enumeration_answer(t: Traversal, entries: Seq<Entry>, complete: bool)
    requires
        t.fresh(true),
        no_present_panics(entries),
    ensures
        t.run(entries).spec_finish(complete) == TraversalEnd::Done(complete && all_present(entries)),
        t.invocations(entries) == present_count(entries),
{
    lemma_run_without_panic(t, entries);
}

/// A callback that panics ends the callbacks: when it panics on every entry,
/// it runs exactly once if any entry carries a name, and the enumeration ends
/// by resuming the panic.
pub proof fn law_panic_runs_callback_once(t: Traversal, entries: Seq<Entry>, complete: bool)
    requires
        !t.spec_panicked(),
        forall|i: int| 0 <= i < entries.len() ==> #[trigger] entries[i].panics,
        exists|i: int| 0 <= i < entries.len() && #[trigger] entries[i].present,
    ensures
        t.invocations(entries) == 1,
        t.run(entries).spec_finish(complete) == TraversalEnd::ResumePanic,
    decreases entries.len(),
{
    let rest = entries.drop_first();
    if entries[0].present {
        lemma_panic_is_final(t.step(entries[0]), rest);
    } else {
        let k = choose|i: int| 0 <= i < entries.len() && #[trigger] entries[i].present;
        assert(k > 0);
        assert(rest[k - 1] == entries[k]);
        assert forall|i: int| 0 <= i < rest.len() implies #[trigger] rest[i].panics by {
            assert(rest[i] == entries[i + 1]);
        }
        law_panic_runs_callback_once(t.step(entries[0]), rest, complete);
    }
}

/// One entry's effect, spelled out over the state's accessors: the callback
/// runs on a named entry unless a callback has already panicked, a panic is
/// recorded only where the callback ran and panicked, and a missing name
/// invalidates the answer only where missing names count.
pub proof fn lemma_step(t: Traversal, entry: Entry)
    ensures
        t.step(entry).spec_panicked() == (t.spec_panicked() || (t.invokes(entry.present)
            && entry.panics)),
        t.step(entry).spec_valid() == (t.spec_valid() && (t.spec_panicked() || entry.present
            || !t.spec_null_invalidates())),
        t.step(entry).spec_null_invalidates() == t.spec_null_invalidates(),
{
}

/// An entry that carries a name, with the given callback behaviour.
pub open spec fn named_entry(panics: bool) -> Entry {
    Entry { present: true, panics }
}

/// How many entries of a sequence carry a name, read off its multiset of
/// entries.
proof fn lemma_present_count_by_multiset(s: Seq<Entry>)
    ensures
        present_count(s) == s.to_multiset().count(named_entry(false)) + s.to_multiset().count(
            named_entry(true),
        ),
        present_count(s) <= s.len(),
        present_count(s) == s.len() <==> all_present(s),
    decreases s.len(),
{
    broadcast use vstd::seq_lib::group_to_multiset_ensures;
    broadcast use vstd::multiset::group_multiset_axioms;

    if s.len() == 0 {
        assert(s =~= Seq::<Entry>::empty());
        assert(s.to_multiset() =~= vstd::multiset::Multiset::<Entry>::empty());
    } else {
        let r = s.drop_first();
        assert(s.remove(0) =~= r);
        assert(s.contains(s[0]));
        lemma_present_count_by_multiset(r);
        if all_present(s) {
            assert forall|i: int| 0 <= i < r.len() implies #[trigger] r[i].present by {
                assert(r[i] == s[i + 1]);
            }
        }
        if s[0].present && all_present(r) {
            assert forall|i: int| 0 <= i < s.len() implies #[trigger] s[i].present by {
                if i > 0 {
                    assert(s[i] == r[i - 1]);
                }
            }
        }
        if !s[0].present {
            assert(!all_present(s));
        }
    }
}

/// The order in which libcrypto delivers a fixed collection of entries does
/// not matter (as between the sorted and unsorted walks of one name table):
/// when no callback panics, the callback runs equally often and the
/// enumeration gives the same answer.
pub proof fn law_order_does_not_matter(t: Traversal, a: Seq<Entry>, b: Seq<Entry>, complete: bool)
    requires
        t.fresh(true),
        no_present_panics(a),
        no_present_panics(b),
        a.to_multiset() == b.to_multiset(),
    ensures
        t.invocations(a) == t.invocations(b),
        t.run(a).spec_finish(complete) == t.run(b).spec_finish(complete),
{
    broadcast use vstd::seq_lib::group_to_multiset_ensures;

    lemma_run_without_panic(t, a);
    lemma_run_without_panic(t, b);
    lemma_present_count_by_multiset(a);
    lemma_present_count_by_multiset(b);
    assert(a.len() == a.to_multiset().len());
    assert(b.len() == b.to_multiset().len());
}

} // verus!
