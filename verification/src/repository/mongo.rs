//! The document-store backend: the hook pipeline around the physical
//! operations on a collection.
//!
//! The backend performs no storage call itself. For a read or a deletion the
//! caller performs the physical operation and hands over what the collection
//! returned. An insertion is a conversation: the backend says what to do next,
//! the caller does it and reports back.

use core::marker::PhantomData;
use vstd::prelude::*;

use crate::context::{Context, HookEnv, MutationContext};
use crate::document::{Document, Value, ValueView};
use crate::entity::{outcome_view, Entity, PreStep, PreStepView};
use crate::error::{ServiceError, ServiceErrorView};
use crate::oid::ObjectId;
use crate::repository::Method;

verus! {

/// What a hook sees at the start of a repository call on `context`: the
/// registry of the process, and no field being processed.
pub open spec fn fresh_env(context: &Context) -> HookEnv {
    HookEnv { registered: context.registered(), field: None }
}

/// The name of the field that holds a record's identifier.
pub open spec fn id_field() -> Seq<char> {
    "_id"@
}

/// Where an insertion stands.
pub enum Progress {
    /// The step at this index asks for a lookup.
    Lookup(nat),
    /// No step has vetoed: the record is to be written.
    Write,
    /// The insertion is over: vetoed (`Ok(true)`), written (`Ok(false)`), or failed.
    Done(Result<bool, ServiceErrorView>),
}

/// Where an insertion stands once every step before `from` has let it pass.
pub open spec fn advance(steps: Seq<PreStepView>, from: nat) -> Progress {
    if from >= steps.len() {
        Progress::Write
    } else {
        match steps[from as int] {
            PreStepView::Abort => Progress::Done(Ok(true)),
            PreStepView::Fail(e) => Progress::Done(Err(e)),
            PreStepView::Lookup { .. } => Progress::Lookup(from),
        }
    }
}

/// Where an insertion stands after the answer to the lookup of step `at`: a
/// match vetoes it, a failed lookup fails it, and otherwise the next step is
/// taken.
pub open spec fn after_answer(
    steps: Seq<PreStepView>,
    at: nat,
    found: Result<bool, ServiceErrorView>,
) -> Progress {
    match found {
        Err(e) => Progress::Done(Err(e)),
        Ok(true) => Progress::Done(Ok(true)),
        Ok(false) => advance(steps, at + 1),
    }
}

/// How an insertion ends after the physical write: a failed write fails it,
/// and so does a failing post-execution hook; otherwise the record counts as
/// written, whatever the hook says of keeping it.
pub open spec fn after_write(
    written: Result<(), ServiceErrorView>,
    post: Result<bool, ServiceErrorView>,
) -> Result<bool, ServiceErrorView> {
    match written {
        Err(e) => Err(e),
        Ok(_) => match post {
            Err(e) => Err(e),
            Ok(_) => Ok(false),
        },
    }
}

/// What a read returns for what the collection holds and what the
/// post-execution hook says of it: a record is surfaced only if the hook keeps it.
pub open spec fn surfaced<T>(found: Option<T>, post: Result<bool, ServiceErrorView>) -> Result<
    Option<T>,
    ServiceErrorView,
> {
    match found {
        None => Ok(None),
        Some(entity) => match post {
            Err(e) => Err(e),
            Ok(true) => Ok(Some(entity)),
            Ok(false) => Ok(None),
        },
    }
}

/// What a deletion returns for what the collection removed: the removed
/// record, unless the post-execution hook fails.
pub open spec fn removed<T>(deleted: Option<T>, post: Result<bool, ServiceErrorView>) -> Result<
    Option<T>,
    ServiceErrorView,
> {
    match deleted {
        None => Ok(None),
        Some(entity) => match post {
            Err(e) => Err(e),
            Ok(_) => Ok(Some(entity)),
        },
    }
}

/// The mathematical content of what a read or a deletion returns.
pub open spec fn record_view<T>(result: Result<Option<T>, ServiceError>) -> Result<
    Option<T>,
    ServiceErrorView,
> {
    match result {
        Ok(record) => Ok(record),
        Err(e) => Err(e@),
    }
}

/// The mathematical content of what a write reports.
pub open spec fn written_view(result: Result<(), ServiceError>) -> Result<(), ServiceErrorView> {
    match result {
        Ok(_) => Ok(()),
        Err(e) => Err(e@),
    }
}

/// An insertion that waits for the answer to a lookup.
pub struct PendingLookup<'a, T> {
    entity: &'a T,
    context: MutationContext<'a>,
    steps: Vec<PreStep>,
    at: usize,
}

/// An insertion that waits for the physical write.
pub struct PendingWrite<'a, T> {
    entity: &'a T,
    context: MutationContext<'a>,
}

/// What the caller of an insertion does next.
pub enum InsertStep<'a, T> {
    /// Ask the repository that the lookup names whether a record answers its
    /// document, and report with [`PendingLookup::answer`].
    Lookup(PendingLookup<'a, T>),
    /// Write the record, and report with [`PendingWrite::written`].
    Write(PendingWrite<'a, T>),
    /// Nothing: the insertion is over. `Ok(true)` says that a hook vetoed it
    /// and nothing was written; `Ok(false)` that the record was written.
    Done(Result<bool, ServiceError>),
}

impl<'a, T> PendingLookup<'a, T> {
    #[verifier::type_invariant]
    spec fn well_formed(self) -> bool {
        &&& self.at < self.steps.len()
        &&& self.steps[self.at as int] is Lookup
    }

    /// The steps of the pre-execution hook that this insertion runs.
    pub closed spec fn steps(&self) -> Seq<PreStepView> {
        self.steps.deep_view()
    }

    /// The index of the step that waits for its answer.
    pub closed spec fn at(&self) -> nat {
        self.at as nat
    }

    /// The record being inserted.
    pub closed spec fn entity(&self) -> &T {
        self.entity
    }

    /// What the hooks of this insertion see.
    pub closed spec fn env(&self) -> HookEnv {
        self.context@
    }

    /// The name of the entity whose repository is to be asked.
    pub fn target(&self) -> (name: &str)
        ensures
            self.at() < self.steps().len(),
            self.steps()[self.at() as int] matches PreStepView::Lookup { entity, .. } && name@
                == entity,
    {
        proof {
            use_type_invariant(self);
        }
        match &self.steps[self.at] {
            PreStep::Lookup { entity, .. } => entity.as_str(),
            _ => unreached(),
        }
    }

    /// The document that a record must answer to veto the insertion.
    pub fn document(&self) -> (query: &Document)
        ensures
            self.at() < self.steps().len(),
            self.steps()[self.at() as int] matches PreStepView::Lookup { document, .. } && query@
                == document,
    {
        proof {
            use_type_invariant(self);
        }
        match &self.steps[self.at] {
            PreStep::Lookup { document, .. } => document,
            _ => unreached(),
        }
    }

    /// Takes the answer to the lookup: whether a record answered the
    /// document, or why the lookup failed.
    pub fn answer(self, found: Result<bool, ServiceError>) -> (next: InsertStep<'a, T>)
        ensures
            next.progress() == after_answer(self.steps(), self.at(), outcome_view(found)),
            next.continues(self.steps(), self.entity(), self.env()),
    {
        proof {
            use_type_invariant(&self);
        }
        match found {
            Err(e) => InsertStep::Done(Err(e)),
            Ok(true) => InsertStep::Done(Ok(true)),
            Ok(false) => proceed(self.entity, self.context, self.steps, self.at + 1),
        }
    }
}

impl<'a, T> PendingWrite<'a, T> {
    /// The record being inserted.
    pub closed spec fn entity(&self) -> &T {
        self.entity
    }

    /// What the hooks of this insertion see.
    pub closed spec fn env(&self) -> HookEnv {
        self.context@
    }

    /// The record to write.
    pub fn record(&self) -> (record: &'a T)
        ensures
            record == self.entity(),
    {
        self.entity
    }
}

impl<'a, T: Entity<T>> PendingWrite<'a, T> {
    /// Takes the report of the physical write and ends the insertion: after a
    /// successful write the post-execution hook runs, and only its failure
    /// matters.
    pub fn written(self, result: Result<(), ServiceError>) -> (outcome: Result<bool, ServiceError>)
        ensures
            T::obeys_entity_spec() ==> outcome_view(outcome) == after_write(
                written_view(result),
                self.entity().post_outcome(self.env(), Method::Insert),
            ),
            result matches Err(e) ==> outcome matches Err(o) && o@ == e@,
            outcome matches Ok(vetoed) ==> !vetoed,
    {
        let mut context = self.context;
        match result {
            Err(e) => Err(e),
            Ok(_) => match self.entity.after_execution(&mut context, Method::Insert) {
                Err(e) => Err(e),
                Ok(_) => Ok(false),
            },
        }
    }
}

impl<'a, T> InsertStep<'a, T> {
    /// Where the insertion stands.
    pub open spec fn progress(&self) -> Progress {
        match self {
            InsertStep::Lookup(pending) => Progress::Lookup(pending.at()),
            InsertStep::Write(_) => Progress::Write,
            InsertStep::Done(outcome) => Progress::Done(outcome_view(*outcome)),
        }
    }

    /// Whether this step belongs to the insertion of `entity` that runs
    /// `steps` under `env`.
    pub open spec fn continues(&self, steps: Seq<PreStepView>, entity: &T, env: HookEnv) -> bool {
        match self {
            InsertStep::Lookup(pending) => pending.steps() == steps && pending.entity() == entity
                && pending.env() == env,
            InsertStep::Write(pending) => pending.entity() == entity && pending.env() == env,
            InsertStep::Done(_) => true,
        }
    }
}

/// Takes the steps from index `from` on.
fn proceed<'a, T>(
    entity: &'a T,
    context: MutationContext<'a>,
    steps: Vec<PreStep>,
    from: usize,
) -> (next: InsertStep<'a, T>)
    requires
        from <= steps.len(),
    ensures
        next.progress() == advance(steps.deep_view(), from as nat),
        next.continues(steps.deep_view(), entity, context@),
{
    if from >= steps.len() {
        return InsertStep::Write(PendingWrite { entity, context });
    }
    match &steps[from] {
        PreStep::Abort => InsertStep::Done(Ok(true)),
        PreStep::Fail(e) => InsertStep::Done(Err(e.clone())),
        PreStep::Lookup { .. } => InsertStep::Lookup(
            PendingLookup { entity, context, steps, at: from },
        ),
    }
}

/// The document-store backend of the entity `T`.
#[derive(Debug, PartialEq, Eq)]
pub struct MongoRepository<T> {
    pub uri: String,
    pub database: String,
    pub collection: String,
    pub entity: PhantomData<T>,
}

impl<T> MongoRepository<T> {
    /// The backend on the collection `collection` of the database `database`
    /// of the store at `mongo_uri`.
    pub fn new(mongo_uri: &str, database: &str, collection: &str) -> (repository: Self)
        ensures
            repository.uri@ == mongo_uri@,
            repository.database@ == database@,
            repository.collection@ == collection@,
    {
        Self {
            uri: mongo_uri.to_owned(),
            database: database.to_owned(),
            collection: collection.to_owned(),
            entity: PhantomData,
        }
    }

    /// The query that finds the record with the identifier `id`.
    pub fn id_query(id: &ObjectId) -> (query: Document)
        ensures
            query@ == seq![(id_field(), ValueView::Id(id@))],
    {
        Document::single("_id", Value::Id(*id))
    }
}

impl<T: Entity<T>> MongoRepository<T> {
    /// Finishes a find by identifier: `found` is what the collection holds
    /// under the identifier. A record that the post-execution hook does not
    /// keep is reported as not found.
    pub fn find(&self, found: Option<T>, context: &Context) -> (result: Result<
        Option<T>,
        ServiceError,
    >)
        ensures
            T::obeys_entity_spec() ==> record_view(result) == surfaced(
                found,
                found.unwrap().post_outcome(fresh_env(context), Method::Find),
            ),
            found is None ==> result == Ok::<Option<T>, ServiceError>(None),
            result matches Ok(Some(record)) ==> found == Some(record),
    {
        if let Some(entity) = found {
            let mut context = MutationContext::new(context);
            let keep = entity.after_execution(&mut context, Method::Find)?;
            if !keep {
                return Ok(None);
            }
            return Ok(Some(entity));
        }
        Ok(None)
    }

    /// Finishes a find by query: `found` is the record of the collection that
    /// answers the query, if one does. The hook runs as for a find by
    /// identifier.
    pub fn find_by_doc(&self, found: Option<T>, context: &Context) -> (result: Result<
        Option<T>,
        ServiceError,
    >)
        ensures
            T::obeys_entity_spec() ==> record_view(result) == surfaced(
                found,
                found.unwrap().post_outcome(fresh_env(context), Method::Find),
            ),
            found is None ==> result == Ok::<Option<T>, ServiceError>(None),
            result matches Ok(Some(record)) ==> found == Some(record),
    {
        if let Some(entity) = found {
            let mut context = MutationContext::new(context);
            if !entity.after_execution(&mut context, Method::Find)? {
                return Ok(None);
            }
            return Ok(Some(entity));
        }
        Ok(None)
    }

    /// Starts the insertion of `entity`: runs the pre-execution hook and takes
    /// its first step. Nothing is written before every step has let the
    /// insertion pass.
    pub fn insert<'a>(&self, entity: &'a T, context: &'a Context) -> (step: InsertStep<'a, T>)
        ensures
            T::obeys_entity_spec() ==> step.progress() == advance(
                entity.pre_steps(fresh_env(context), Method::Insert),
                0,
            ),
            T::obeys_entity_spec() ==> step.continues(
                entity.pre_steps(fresh_env(context), Method::Insert),
                entity,
                fresh_env(context),
            ),
    {
        let mut context = MutationContext::new(context);
        let steps = entity.before_execution(&mut context, Method::Insert);
        proceed(entity, context, steps, 0)
    }

    /// Finishes a deletion: `deleted` is the record that the collection
    /// removed, if there was one. The post-execution hook runs on it, and only
    /// its failure matters.
    pub fn delete(&self, deleted: Option<T>, context: &Context) -> (result: Result<
        Option<T>,
        ServiceError,
    >)
        ensures
            T::obeys_entity_spec() ==> record_view(result) == removed(
                deleted,
                deleted.unwrap().post_outcome(fresh_env(context), Method::Delete),
            ),
            deleted is None ==> result == Ok::<Option<T>, ServiceError>(None),
            result matches Ok(record) ==> record == deleted,
    {
        if let Some(entity) = deleted {
            let mut context = MutationContext::new(context);
            entity.after_execution(&mut context, Method::Delete)?;
            return Ok(Some(entity));
        }
        Ok(None)
    }
}

} // verus!
