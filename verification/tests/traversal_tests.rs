use libcrypto::traversal::{deliver, Entry, Traversal, TraversalEnd};

fn run(mut t: Traversal, entries: &[Entry]) -> (Traversal, usize) {
    let mut invoked = 0;
    for entry in entries {
        if deliver(&mut t, *entry) {
            invoked += 1;
        }
    }
    (t, invoked)
}

fn named(panics: bool) -> Entry {
    Entry { present: true, panics }
}

fn unnamed() -> Entry {
    Entry { present: false, panics: false }
}

#[test]
fn a_clean_enumeration_answers_completion_and_validity() {
    let (t, invoked) = run(Traversal::for_names(), &[named(false), named(false), named(false)]);
    assert_eq!(invoked, 3);
    assert_eq!(t.finish(true), TraversalEnd::Done(true));
    assert_eq!(t.finish(false), TraversalEnd::Done(false));
}

#[test]
fn an_entry_without_a_name_invalidates_a_name_enumeration() {
    let (t, invoked) = run(Traversal::for_names(), &[named(false), unnamed(), named(false)]);
    assert_eq!(invoked, 2);
    assert_eq!(t.finish(true), TraversalEnd::Done(false));
}

#[test]
fn legacy_tables_skip_alias_entries_without_a_name() {
    let (t, invoked) = run(Traversal::for_legacy_table(), &[unnamed(), named(false), unnamed()]);
    assert_eq!(invoked, 1);
    assert_eq!(t.finish(true), TraversalEnd::Done(true));
}

#[test]
fn cipher_enumerator_panics_resume_only_after_c_returns() {
    let entries = [named(true), named(true), named(true), named(true)];
    let (t, invoked) = run(Traversal::for_legacy_table(), &entries);
    assert_eq!(invoked, 1);
    assert_eq!(t.finish(true), TraversalEnd::ResumePanic);
}

#[test]
fn entries_after_a_panic_change_nothing() {
    let (t, invoked) = run(Traversal::for_names(), &[named(false), named(true), unnamed(), named(false)]);
    assert_eq!(invoked, 2);
    assert_eq!(t.finish(true), TraversalEnd::ResumePanic);
    let mut after = Traversal::for_names();
    after.record_panic();
    assert!(!after.visit(true));
    assert!(!after.visit(false));
    assert_eq!(after.finish(true), TraversalEnd::ResumePanic);
}

#[test]
fn sorted_and_unsorted_deliveries_of_one_table_agree() {
    let unsorted = [named(false), unnamed(), named(false), named(false)];
    let sorted = [unnamed(), named(false), named(false), named(false)];
    let (a, na) = run(Traversal::for_legacy_table(), &unsorted);
    let (b, nb) = run(Traversal::for_legacy_table(), &sorted);
    assert_eq!(na, 3);
    assert_eq!(na, nb);
    assert_eq!(a.finish(true), b.finish(true));
    let (c, nc) = run(Traversal::for_names(), &unsorted);
    let (d, nd) = run(Traversal::for_names(), &sorted);
    assert_eq!(nc, nd);
    assert_eq!(c.finish(true), TraversalEnd::Done(false));
    assert_eq!(c.finish(true), d.finish(true));
}
