//! A model of the collection behind the document-store backend, and what an
//! insertion does to it when every lookup is answered from it.
//!
//! The check for a taken value and the write that follows it are two steps:
//! the model runs one insertion at a time and says nothing of two that
//! interleave.

use vstd::prelude::*;

use crate::document::{answers, DocumentView};
use crate::entity::PreStepView;
use crate::error::ServiceErrorView;
use crate::repository::mongo::{advance, after_answer, after_write, Progress};

verus! {

/// Whether `store` holds a record that answers `query`.
pub open spec fn holds(store: Seq<DocumentView>, query: DocumentView) -> bool {
    exists|i: int| 0 <= i < store.len() && answers(#[trigger] store[i], query)
}

/// Whether `step` vetoes an insertion into `store`.
pub open spec fn vetoes(step: PreStepView, store: Seq<DocumentView>) -> bool {
    match step {
        PreStepView::Abort => true,
        PreStepView::Fail(_) => false,
        PreStepView::Lookup { document, .. } => holds(store, document),
    }
}

/// Whether `step` lets an insertion into `store` pass.
pub open spec fn passes(step: PreStepView, store: Seq<DocumentView>) -> bool {
    match step {
        PreStepView::Abort => false,
        PreStepView::Fail(_) => false,
        PreStepView::Lookup { document, .. } => !holds(store, document),
    }
}

/// One insertion, from start to end.
pub struct Run {
    /// The indices of the steps whose lookup was performed, in order.
    pub lookups: Seq<nat>,
    /// Whether the record was written.
    pub wrote: bool,
    /// What the insertion returned.
    pub outcome: Result<bool, ServiceErrorView>,
    /// The store afterwards.
    pub store: Seq<DocumentView>,
}

/// The document that a step looks up; the empty document for a step that
/// looks nothing up.
pub open spec fn lookup_document(step: PreStepView) -> DocumentView {
    match step {
        PreStepView::Lookup { document, .. } => document,
        _ => Seq::empty(),
    }
}

/// The insertion of `record` into `store` from step `from` on, where every
/// lookup is answered from `store` and `post` is what the post-execution hook
/// returns.
pub open spec fn run_insert(
    steps: Seq<PreStepView>,
    store: Seq<DocumentView>,
    record: DocumentView,
    post: Result<bool, ServiceErrorView>,
    from: nat,
) -> Run
    decreases steps.len() - from,
{
    match advance(steps, from) {
        Progress::Lookup(_) => {
            let found = holds(store, lookup_document(steps[from as int]));
            match after_answer(steps, from, Ok(found)) {
                Progress::Done(outcome) => Run { lookups: seq![from], wrote: false, outcome, store },
                _ => {
                    let rest = run_insert(steps, store, record, post, from + 1);
                    Run {
                        lookups: seq![from] + rest.lookups,
                        wrote: rest.wrote,
                        outcome: rest.outcome,
                        store: rest.store,
                    }
                },
            }
        },
        Progress::Write => Run {
            lookups: Seq::empty(),
            wrote: true,
            outcome: after_write(Ok(()), post),
            store: store.push(record),
        },
        Progress::Done(outcome) => Run { lookups: Seq::empty(), wrote: false, outcome, store },
    }
}

/// An insertion changes the store only by writing the record, once, at its end;
/// and an insertion that a hook vetoed or failed has written nothing.
pub proof fn lemma_write_is_the_only_effect(
    steps: Seq<PreStepView>,
    store: Seq<DocumentView>,
    record: DocumentView,
    post: Result<bool, ServiceErrorView>,
    from: nat,
)
    ensures
        ({
            let run = run_insert(steps, store, record, post, from);
            &&& run.wrote ==> run.store == store.push(record)
            &&& !run.wrote ==> run.store == store
            &&& run.outcome == Ok::<bool, ServiceErrorView>(true) ==> !run.wrote
            &&& run.outcome == Ok::<bool, ServiceErrorView>(false) ==> run.wrote
        }),
    decreases steps.len() - from,
{
    if from < steps.len() && steps[from as int] is Lookup && !vetoes(steps[from as int], store) {
        lemma_write_is_the_only_effect(steps, store, record, post, from + 1);
    }
}

/// Short circuit: once the steps before `at` have let an insertion pass and
/// the step at `at` vetoes it, the insertion is vetoed, nothing is written,
/// and no step behind `at` is taken.
pub proof fn lemma_veto_ends_insertion(
    steps: Seq<PreStepView>,
    store: Seq<DocumentView>,
    record: DocumentView,
    post: Result<bool, ServiceErrorView>,
    from: nat,
    at: nat,
)
    requires
        from <= at < steps.len(),
        forall|j: int| from <= j < at ==> passes(#[trigger] steps[j], store),
        vetoes(steps[at as int], store),
    ensures
        ({
            let run = run_insert(steps, store, record, post, from);
            &&& run.outcome == Ok::<bool, ServiceErrorView>(true)
            &&& !run.wrote
            &&& run.store == store
            &&& forall|k: int| 0 <= k < run.lookups.len() ==> from <= #[trigger] run.lookups[k] <= at
        }),
    decreases at - from,
{
    if from < at {
        assert(passes(steps[from as int], store));
        lemma_veto_ends_insertion(steps, store, record, post, from + 1, at);
        let rest = run_insert(steps, store, record, post, from + 1);
        let run = run_insert(steps, store, record, post, from);
        assert(run.lookups == seq![from] + rest.lookups);
        assert forall|k: int| 0 <= k < run.lookups.len() implies from <= #[trigger] run.lookups[k]
            <= at by {
            if k > 0 {
                assert(run.lookups[k] == rest.lookups[k - 1]);
            }
        }
    }
}

/// A taken value is rejected: if the store holds a record that answers the
/// lookup of some step, and no step before it fails, the insertion is vetoed
/// and the store stays as it was.
pub proof fn lemma_taken_value_is_rejected(
    steps: Seq<PreStepView>,
    store: Seq<DocumentView>,
    record: DocumentView,
    post: Result<bool, ServiceErrorView>,
    from: nat,
    at: nat,
)
    requires
        from <= at < steps.len(),
        forall|j: int| from <= j < at ==> !(#[trigger] steps[j] is Fail),
        steps[at as int] matches PreStepView::Lookup { document, .. } && holds(store, document),
    ensures
        ({
            let run = run_insert(steps, store, record, post, from);
            &&& run.outcome == Ok::<bool, ServiceErrorView>(true)
            &&& !run.wrote
            &&& run.store == store
        }),
    decreases at - from,
{
    if from < at {
        assert(!(steps[from as int] is Fail));
        if !vetoes(steps[from as int], store) {
            lemma_taken_value_is_rejected(steps, store, record, post, from + 1, at);
        }
    }
}

/// An unseen value is inserted: if every step is a lookup that no record of
/// the store answers, and the post-execution hook does not fail, the record is
/// written behind the records of the store and the insertion reports no veto.
pub proof fn lemma_unseen_value_is_inserted(
    steps: Seq<PreStepView>,
    store: Seq<DocumentView>,
    record: DocumentView,
    post: Result<bool, ServiceErrorView>,
    from: nat,
)
    requires
        forall|j: int| from <= j < steps.len() ==> passes(#[trigger] steps[j], store),
        post is Ok,
    ensures
        ({
            let run = run_insert(steps, store, record, post, from);
            &&& run.outcome == Ok::<bool, ServiceErrorView>(false)
            &&& run.wrote
            &&& run.store == store.push(record)
        }),
    decreases steps.len() - from,
{
    if from < steps.len() {
        assert(passes(steps[from as int], store));
        lemma_unseen_value_is_inserted(steps, store, record, post, from + 1);
    }
}

/// An inserted value is rejected from then on: after an insertion that every
/// step let pass, a second insertion of a record with the same steps is
/// vetoed, provided the written record answers the lookup of one of them. The
/// store then holds the record once.
pub proof fn lemma_second_insertion_is_rejected(
    steps: Seq<PreStepView>,
    store: Seq<DocumentView>,
    record: DocumentView,
    post: Result<bool, ServiceErrorView>,
    at: nat,
)
    requires
        forall|j: int| 0 <= j < steps.len() ==> passes(#[trigger] steps[j], store),
        post is Ok,
        at < steps.len(),
        steps[at as int] matches PreStepView::Lookup { document, .. } && answers(record, document),
    ensures
        ({
            let first = run_insert(steps, store, record, post, 0);
            let second = run_insert(steps, first.store, record, post, 0);
            &&& first.outcome == Ok::<bool, ServiceErrorView>(false)
            &&& first.store == store.push(record)
            &&& second.outcome == Ok::<bool, ServiceErrorView>(true)
            &&& second.store == first.store
        }),
{
    lemma_unseen_value_is_inserted(steps, store, record, post, 0);
    let after = store.push(record);
    assert(answers(after[store.len() as int], steps[at as int]->document));
    assert forall|j: int| 0 <= j < at implies !(#[trigger] steps[j] is Fail) by {
        assert(passes(steps[j], store));
    }
    lemma_taken_value_is_rejected(steps, after, record, post, 0, at);
}

} // verus!
