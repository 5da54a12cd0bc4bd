//! The entity contract and the field wrappers that compose under it.

use vstd::prelude::*;

use crate::context::{HookEnv, MutationContext};
use crate::document::{Document, DocumentView, Scalar, Value, ValueView};
use crate::error::{ErrorKind, ServiceError, ServiceErrorView};
use crate::oid::{hex_of, ObjectId};
use crate::repository::Method;

pub mod audit;
pub mod audit_request;
pub mod auditor;
pub mod customer;
pub mod laws;
pub mod project;
pub mod user;

verus! {

/// One step of a pre-execution hook. The steps of a hook are taken in order,
/// and the first that vetoes or fails ends the hook.
#[derive(Clone, Debug, PartialEq, Eq)]
pub enum PreStep {
    /// Veto the operation.
    Abort,
    /// Fail the operation with this error.
    Fail(ServiceError),
    /// Veto the operation if the repository of `entity` holds a record that
    /// answers `document`.
    Lookup { entity: String, document: Document },
}

/// The mathematical content of a [`PreStep`].
pub enum PreStepView {
    Abort,
    Fail(ServiceErrorView),
    Lookup { entity: Seq<char>, document: DocumentView },
}

impl View for PreStep {
    type V = PreStepView;

    open spec fn view(&self) -> PreStepView {
        match self {
            PreStep::Abort => PreStepView::Abort,
            PreStep::Fail(e) => PreStepView::Fail(e@),
            PreStep::Lookup { entity, document } => PreStepView::Lookup {
                entity: entity@,
                document: document@,
            },
        }
    }
}

impl DeepView for PreStep {
    type V = PreStepView;

    open spec fn deep_view(&self) -> PreStepView {
        self@
    }
}

/// The mathematical content of what a post-execution hook returns.
pub open spec fn outcome_view(outcome: Result<bool, ServiceError>) -> Result<
    bool,
    ServiceErrorView,
> {
    match outcome {
        Ok(keep) => Ok(keep),
        Err(e) => Err(e@),
    }
}

/// A record type with a name. The name keys the repository of the type in the
/// registry and stands in the paths of its routes.
pub trait Named {
    /// Whether `name` returns `spec_name`. Of an implementation that does not
    /// say so, nothing is claimed.
    open spec fn obeys_name_spec() -> bool {
        false
    }

    open spec fn spec_name() -> Seq<char> {
        Seq::empty()
    }

    fn name() -> (name: &'static str)
        ensures
            Self::obeys_name_spec() ==> name@ == Self::spec_name(),
    ;
}

/// What every persisted record and every field wrapper offers: a public
/// projection, a hook that runs before an operation and one that runs after.
///
/// `RootRef` is the record type that owns the value, so that a wrapper nested
/// at any depth can find the repository of the record it belongs to.
///
/// The specification functions say what the three operations do. An
/// implementation states that it follows them by `obeys_entity_spec`; of one
/// that does not, nothing is claimed.
pub trait Entity<RootRef>: Sized {
    type PublicEntity;

    /// Whether this implementation follows the specification functions below.
    open spec fn obeys_entity_spec() -> bool {
        false
    }

    /// Whether `public` is the public projection of this value.
    open spec fn projects_to(&self, public: &Self::PublicEntity) -> bool {
        true
    }

    /// The steps of the pre-execution hook.
    open spec fn pre_steps(&self, env: HookEnv, method: Method) -> Seq<PreStepView> {
        Seq::empty()
    }

    /// What the post-execution hook returns: whether the result may be
    /// surfaced, or an error.
    open spec fn post_outcome(&self, env: HookEnv, method: Method) -> Result<
        bool,
        ServiceErrorView,
    > {
        Ok(true)
    }

    fn to_public(&self, context: &mut MutationContext) -> (public: Self::PublicEntity)
        ensures
            Self::obeys_entity_spec() ==> self.projects_to(&public),
            Self::obeys_entity_spec() ==> final(context)@ == old(context)@,
    ;

    fn before_execution(&self, context: &mut MutationContext, method: Method) -> (steps: Vec<
        PreStep,
    >)
        ensures
            Self::obeys_entity_spec() ==> steps.deep_view() == self.pre_steps(
                old(context)@,
                method,
            ),
            Self::obeys_entity_spec() ==> final(context)@ == old(context)@,
    ;

    fn after_execution(&self, context: &mut MutationContext, method: Method) -> (outcome: Result<
        bool,
        ServiceError,
    >)
        ensures
            Self::obeys_entity_spec() ==> outcome_view(outcome) == self.post_outcome(
                old(context)@,
                method,
            ),
            Self::obeys_entity_spec() ==> final(context)@ == old(context)@,
    ;
}

/// The outcome of two post-execution hooks run in order: the first that fails
/// or does not keep the result decides, and the second then does not count.
pub open spec fn both(
    first: Result<bool, ServiceErrorView>,
    second: Result<bool, ServiceErrorView>,
) -> Result<bool, ServiceErrorView> {
    match first {
        Ok(true) => second,
        _ => first,
    }
}

/// Runs the pre-execution hook of the field `name` of a record and puts its
/// steps behind those gathered so far. The hook is told which field it stands
/// for.
pub fn field_steps<RootRef, F: Entity<RootRef>>(
    field: &F,
    name: &str,
    context: &mut MutationContext,
    method: Method,
    steps: &mut Vec<PreStep>,
)
    ensures
        F::obeys_entity_spec() ==> final(steps).deep_view() == old(steps).deep_view()
            + field.pre_steps(old(context)@.within(name@), method),
        F::obeys_entity_spec() ==> final(context)@ == old(context)@.within(name@),
{
    context.current_field = Some(name.to_owned());
    let ghost before = steps.deep_view();
    let mut more = field.before_execution(context, method);
    let ghost added = more.deep_view();
    steps.append(&mut more);
    assert(steps.deep_view() =~= before + added);
}

/// Runs the post-execution hook of the field `name` of a record, unless an
/// earlier field has already decided the outcome.
pub fn field_outcome<RootRef, F: Entity<RootRef>>(
    so_far: Result<bool, ServiceError>,
    field: &F,
    name: &str,
    context: &mut MutationContext,
    method: Method,
) -> (outcome: Result<bool, ServiceError>)
    ensures
        F::obeys_entity_spec() ==> outcome_view(outcome) == both(
            outcome_view(so_far),
            field.post_outcome(old(context)@.within(name@), method),
        ),
        F::obeys_entity_spec() ==> final(context)@.registered == old(context)@.registered,
        !(so_far matches Ok(true)) ==> outcome == so_far && *final(context) == *old(context),
{
    match so_far {
        Ok(true) => {
            context.current_field = Some(name.to_owned());
            field.after_execution(context, method)
        },
        other => other,
    }
}

/// A value that is public only if its owner says so.
#[derive(Clone, Debug, PartialEq, Eq)]
pub struct OptionallyPrivate<T>(pub bool, pub T);

impl<RootRef, T: Entity<RootRef>> Entity<RootRef> for OptionallyPrivate<T> {
    type PublicEntity = Option<T::PublicEntity>;

    open spec fn obeys_entity_spec() -> bool {
        <T as Entity<RootRef>>::obeys_entity_spec()
    }

    open spec fn projects_to(&self, public: &Option<T::PublicEntity>) -> bool {
        match public {
            Some(inner) => self.0 && self.1.projects_to(inner),
            None => !self.0,
        }
    }

    open spec fn pre_steps(&self, env: HookEnv, method: Method) -> Seq<PreStepView> {
        self.1.pre_steps(env, method)
    }

    open spec fn post_outcome(&self, env: HookEnv, method: Method) -> Result<
        bool,
        ServiceErrorView,
    > {
        self.1.post_outcome(env, method)
    }

    fn to_public(&self, ctx: &mut MutationContext) -> (public: Option<T::PublicEntity>)
        ensures
            public is Some <==> self.0,
    {
        if self.0 {
            Some(self.1.to_public(ctx))
        } else {
            None
        }
    }

    fn before_execution(&self, ctx: &mut MutationContext, method: Method) -> (steps: Vec<PreStep>) {
        self.1.before_execution(ctx, method)
    }

    fn after_execution(&self, ctx: &mut MutationContext, method: Method) -> (outcome: Result<
        bool,
        ServiceError,
    >) {
        self.1.after_execution(ctx, method)
    }
}

/// A value that no public projection shows.
#[derive(Clone, Debug, PartialEq, Eq)]
pub struct Private<T>(pub T);

impl<RootRef, T: Entity<RootRef>> Entity<RootRef> for Private<T> {
    type PublicEntity = ();

    open spec fn obeys_entity_spec() -> bool {
        <T as Entity<RootRef>>::obeys_entity_spec()
    }

    open spec fn projects_to(&self, public: &()) -> bool {
        true
    }

    open spec fn pre_steps(&self, env: HookEnv, method: Method) -> Seq<PreStepView> {
        self.0.pre_steps(env, method)
    }

    open spec fn post_outcome(&self, env: HookEnv, method: Method) -> Result<
        bool,
        ServiceErrorView,
    > {
        self.0.post_outcome(env, method)
    }

    fn to_public(&self, _ctx: &mut MutationContext) -> (public: ()) {
        ()
    }

    fn before_execution(&self, ctx: &mut MutationContext, method: Method) -> (steps: Vec<PreStep>) {
        self.0.before_execution(ctx, method)
    }

    fn after_execution(&self, ctx: &mut MutationContext, method: Method) -> (outcome: Result<
        bool,
        ServiceError,
    >) {
        self.0.after_execution(ctx, method)
    }
}

/// The error of a uniqueness check whose record type has no repository.
pub open spec fn no_repository_for_entity() -> ServiceErrorView {
    ServiceErrorView {
        kind: ErrorKind::RepositoryNotConfigured,
        message: "No repository found for entity"@,
    }
}

/// The error of a uniqueness check that was not told which field it stands for.
pub open spec fn no_field() -> ServiceErrorView {
    ServiceErrorView { kind: ErrorKind::FieldNotSet, message: "No field found"@ }
}

/// The step by which a unique field of the record type `entity` guards an
/// insertion of `value`: a lookup of the records that hold `value` in the
/// field being processed, or the configuration error that prevents it. A
/// missing repository is reported before a missing field name.
pub open spec fn uniqueness_step(entity: Seq<char>, env: HookEnv, value: ValueView) -> PreStepView {
    if !env.registered.contains(entity) {
        PreStepView::Fail(no_repository_for_entity())
    } else {
        match env.field {
            None => PreStepView::Fail(no_field()),
            Some(field) => PreStepView::Lookup { entity, document: seq![(field, value)] },
        }
    }
}

/// A value that no two stored records of the owning type may share.
#[derive(Clone, Debug, PartialEq, Eq)]
pub struct Unique<T>(pub T);

impl<RootRef: Named, T: Entity<RootRef> + Scalar> Entity<RootRef> for Unique<T> {
    type PublicEntity = T::PublicEntity;

    open spec fn obeys_entity_spec() -> bool {
        <T as Entity<RootRef>>::obeys_entity_spec() && RootRef::obeys_name_spec()
    }

    open spec fn projects_to(&self, public: &T::PublicEntity) -> bool {
        self.0.projects_to(public)
    }

    /// The steps of the wrapped value, and on insertion the uniqueness check
    /// behind them.
    open spec fn pre_steps(&self, env: HookEnv, method: Method) -> Seq<PreStepView> {
        if method == Method::Insert {
            self.0.pre_steps(env, method).push(
                uniqueness_step(RootRef::spec_name(), env, self.0.scalar()),
            )
        } else {
            self.0.pre_steps(env, method)
        }
    }

    open spec fn post_outcome(&self, env: HookEnv, method: Method) -> Result<
        bool,
        ServiceErrorView,
    > {
        self.0.post_outcome(env, method)
    }

    fn to_public(&self, ctx: &mut MutationContext) -> (public: T::PublicEntity) {
        self.0.to_public(ctx)
    }

    fn before_execution(&self, ctx: &mut MutationContext, method: Method) -> (steps: Vec<PreStep>) {
        let mut steps = self.0.before_execution(ctx, method);
        if method != Method::Insert {
            return steps;
        }
        let ghost inner = steps.deep_view();
        let step = match ctx.context.get_repository::<RootRef>() {
            None => PreStep::Fail(
                ServiceError::new(
                    ErrorKind::RepositoryNotConfigured,
                    "No repository found for entity",
                ),
            ),
            Some(_) => match &ctx.current_field {
                None => PreStep::Fail(ServiceError::new(ErrorKind::FieldNotSet, "No field found")),
                Some(field) => PreStep::Lookup {
                    entity: RootRef::name().to_owned(),
                    document: Document::single(field.as_str(), self.0.to_value()),
                },
            },
        };
        steps.push(step);
        assert(steps.deep_view() =~= inner.push(step@));
        steps
    }

    fn after_execution(&self, ctx: &mut MutationContext, method: Method) -> (outcome: Result<
        bool,
        ServiceError,
    >) {
        self.0.after_execution(ctx, method)
    }
}

impl<RootRef> Entity<RootRef> for ObjectId {
    type PublicEntity = String;

    open spec fn obeys_entity_spec() -> bool {
        true
    }

    /// An identifier shows as its canonical text.
    open spec fn projects_to(&self, public: &String) -> bool {
        public@ == hex_of(self@)
    }

    open spec fn pre_steps(&self, env: HookEnv, method: Method) -> Seq<PreStepView> {
        Seq::empty()
    }

    open spec fn post_outcome(&self, env: HookEnv, method: Method) -> Result<
        bool,
        ServiceErrorView,
    > {
        Ok(true)
    }

    fn to_public(&self, _ctx: &mut MutationContext) -> (public: String) {
        self.to_hex()
    }

    fn before_execution(&self, _ctx: &mut MutationContext, _method: Method) -> (steps: Vec<
        PreStep,
    >) {
        let steps = Vec::new();
        assert(steps.deep_view() =~= Seq::<PreStepView>::empty());
        steps
    }

    fn after_execution(&self, _ctx: &mut MutationContext, _method: Method) -> (outcome: Result<
        bool,
        ServiceError,
    >) {
        Ok(true)
    }
}

impl<RootRef> Entity<RootRef> for String {
    type PublicEntity = String;

    open spec fn obeys_entity_spec() -> bool {
        true
    }

    /// A text shows as itself.
    open spec fn projects_to(&self, public: &String) -> bool {
        public@ == self@
    }

    open spec fn pre_steps(&self, env: HookEnv, method: Method) -> Seq<PreStepView> {
        Seq::empty()
    }

    open spec fn post_outcome(&self, env: HookEnv, method: Method) -> Result<
        bool,
        ServiceErrorView,
    > {
        Ok(true)
    }

    fn to_public(&self, _ctx: &mut MutationContext) -> (public: String) {
        self.clone()
    }

    fn before_execution(&self, _ctx: &mut MutationContext, _method: Method) -> (steps: Vec<
        PreStep,
    >) {
        let steps = Vec::new();
        assert(steps.deep_view() =~= Seq::<PreStepView>::empty());
        steps
    }

    fn after_execution(&self, _ctx: &mut MutationContext, _method: Method) -> (outcome: Result<
        bool,
        ServiceError,
    >) {
        Ok(true)
    }
}

impl<RootRef> Entity<RootRef> for i64 {
    type PublicEntity = i64;

    open spec fn obeys_entity_spec() -> bool {
        true
    }

    /// A number shows as itself.
    open spec fn projects_to(&self, public: &i64) -> bool {
        *public == *self
    }

    open spec fn pre_steps(&self, env: HookEnv, method: Method) -> Seq<PreStepView> {
        Seq::empty()
    }

    open spec fn post_outcome(&self, env: HookEnv, method: Method) -> Result<
        bool,
        ServiceErrorView,
    > {
        Ok(true)
    }

    fn to_public(&self, _ctx: &mut MutationContext) -> (public: i64) {
        *self
    }

    fn before_execution(&self, _ctx: &mut MutationContext, _method: Method) -> (steps: Vec<
        PreStep,
    >) {
        let steps = Vec::new();
        assert(steps.deep_view() =~= Seq::<PreStepView>::empty());
        steps
    }

    fn after_execution(&self, _ctx: &mut MutationContext, _method: Method) -> (outcome: Result<
        bool,
        ServiceError,
    >) {
        Ok(true)
    }
}

impl<T: Scalar> Scalar for Unique<T> {
    open spec fn scalar(&self) -> ValueView {
        self.0.scalar()
    }

    fn to_value(&self) -> (value: Value) {
        self.0.to_value()
    }
}

impl<T: Scalar> Scalar for Private<T> {
    open spec fn scalar(&self) -> ValueView {
        self.0.scalar()
    }

    fn to_value(&self) -> (value: Value) {
        self.0.to_value()
    }
}

impl<T: Scalar> Scalar for OptionallyPrivate<T> {
    open spec fn scalar(&self) -> ValueView {
        self.1.scalar()
    }

    fn to_value(&self) -> (value: Value) {
        self.1.to_value()
    }
}

/// A value that an insertion depends on.
#[derive(Clone, Debug, PartialEq, Eq)]
pub struct InsertCondition<T>(pub T);

/// The roles a principal can act in.
#[derive(Clone, Copy, Debug, PartialEq, Eq, Structural)]
pub enum Role {
    Admin,
    User,
    Service,
}

/// An authorization principal: who acts, in which role, and until when.
#[derive(Debug, PartialEq, Eq)]
pub struct AuthInfo {
    pub role: Role,
    pub user_id: Option<String>,
    pub exp: i64,
}

impl Clone for AuthInfo {
    fn clone(&self) -> (copy: AuthInfo)
        ensures
            copy == *self,
    {
        AuthInfo {
            role: self.role,
            user_id: match &self.user_id {
                Some(id) => Some(id.clone()),
                None => None,
            },
            exp: self.exp,
        }
    }
}

impl Named for AuthInfo {
    open spec fn obeys_name_spec() -> bool {
        true
    }

    open spec fn spec_name() -> Seq<char> {
        "AuthInfo"@
    }

    fn name() -> (name: &'static str) {
        "AuthInfo"
    }
}

impl Entity<AuthInfo> for AuthInfo {
    type PublicEntity = AuthInfo;

    open spec fn obeys_entity_spec() -> bool {
        true
    }

    /// A principal shows as it is.
    open spec fn projects_to(&self, public: &AuthInfo) -> bool {
        *public == *self
    }

    open spec fn pre_steps(&self, env: HookEnv, method: Method) -> Seq<PreStepView> {
        Seq::empty()
    }

    open spec fn post_outcome(&self, env: HookEnv, method: Method) -> Result<
        bool,
        ServiceErrorView,
    > {
        Ok(true)
    }

    fn to_public(&self, _ctx: &mut MutationContext) -> (public: AuthInfo) {
        self.clone()
    }

    fn before_execution(&self, _ctx: &mut MutationContext, _method: Method) -> (steps: Vec<
        PreStep,
    >) {
        let steps = Vec::new();
        assert(steps.deep_view() =~= Seq::<PreStepView>::empty());
        steps
    }

    fn after_execution(&self, _ctx: &mut MutationContext, _method: Method) -> (outcome: Result<
        bool,
        ServiceError,
    >) {
        Ok(true)
    }
}

/// The error of an authorization check without a repository of principals.
pub open spec fn no_repository_for_auth() -> ServiceErrorView {
    ServiceErrorView {
        kind: ErrorKind::RepositoryNotConfigured,
        message: "No repository found for AuthInfo"@,
    }
}

/// A value together with the principals that may act on it.
#[derive(Clone, Debug, PartialEq, Eq)]
pub struct Auth<T> {
    pub permission_users: Vec<AuthInfo>,
    pub value: T,
}

impl<RootRef, T: Entity<RootRef>> Entity<RootRef> for Auth<T> {
    type PublicEntity = T::PublicEntity;

    open spec fn obeys_entity_spec() -> bool {
        <T as Entity<RootRef>>::obeys_entity_spec()
    }

    open spec fn projects_to(&self, public: &T::PublicEntity) -> bool {
        self.value.projects_to(public)
    }

    open spec fn pre_steps(&self, env: HookEnv, method: Method) -> Seq<PreStepView> {
        self.value.pre_steps(env, method)
    }

    /// The outcome of the wrapped value, once a repository of principals is
    /// known to be registered; a configuration error without one.
    open spec fn post_outcome(&self, env: HookEnv, method: Method) -> Result<
        bool,
        ServiceErrorView,
    > {
        if env.registered.contains(AuthInfo::spec_name()) {
            self.value.post_outcome(env, method)
        } else {
            Err(no_repository_for_auth())
        }
    }

    fn to_public(&self, ctx: &mut MutationContext) -> (public: T::PublicEntity) {
        self.value.to_public(ctx)
    }

    fn before_execution(&self, ctx: &mut MutationContext, method: Method) -> (steps: Vec<PreStep>) {
        self.value.before_execution(ctx, method)
    }

    fn after_execution(&self, ctx: &mut MutationContext, method: Method) -> (outcome: Result<
        bool,
        ServiceError,
    >) {
        match ctx.context.get_repository::<AuthInfo>() {
            None => Err(
                ServiceError::new(
                    ErrorKind::RepositoryNotConfigured,
                    "No repository found for AuthInfo",
                ),
            ),
            Some(_) => self.value.after_execution(ctx, method),
        }
    }
}

impl<T: Scalar> Scalar for Auth<T> {
    open spec fn scalar(&self) -> ValueView {
        self.value.scalar()
    }

    fn to_value(&self) -> (value: Value) {
        self.value.to_value()
    }
}

} // verus!
