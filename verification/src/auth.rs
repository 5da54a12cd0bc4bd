//! The record of a login: an identifier, a login name that no two records
//! share, and a password that never leaves the service.

use vstd::prelude::*;

use crate::context::{HookEnv, MutationContext};
use crate::document::{DocumentView, ValueView};
use crate::entity::{
    both, field_outcome, field_steps, Entity, Named, PreStep, PreStepView, Private, Unique,
};
use crate::error::{ServiceError, ServiceErrorView};
use crate::entity::laws::show_alike;
use crate::oid::{hex_of, ObjectId};
use crate::repository::store::{
    holds, lemma_second_insertion_is_rejected, lemma_taken_value_is_rejected, run_insert,
};
use crate::repository::Method;

verus! {

/// A login as it is stored.
#[derive(Debug, Clone, PartialEq, Eq)]
pub struct Login {
    pub id: ObjectId,
    pub login: Unique<String>,
    pub password: Private<String>,
    pub password_salt: Private<String>,
}

/// A login as it is shown.
#[derive(Debug, Clone, PartialEq, Eq)]
pub struct LoginPublic {
    pub id: String,
    pub login: String,
}

impl Named for Login {
    open spec fn obeys_name_spec() -> bool {
        true
    }

    open spec fn spec_name() -> Seq<char> {
        "login"@
    }

    fn name() -> (name: &'static str) {
        "login"
    }
}

impl Entity<Login> for Login {
    type PublicEntity = LoginPublic;

    open spec fn obeys_entity_spec() -> bool {
        true
    }

    /// The identifier shows as its canonical text and the login name as it
    /// is; the password and its salt do not show.
    open spec fn projects_to(&self, public: &LoginPublic) -> bool {
        &&& public.id@ == hex_of(self.id@)
        &&& public.login@ == self.login.0@
    }

    /// The steps of the four fields, in the order of their declaration.
    open spec fn pre_steps(&self, env: HookEnv, method: Method) -> Seq<PreStepView> {
        <ObjectId as Entity<Login>>::pre_steps(&self.id, env.within("_id"@), method)
            + <Unique<String> as Entity<Login>>::pre_steps(
            &self.login,
            env.within("login"@),
            method,
        ) + <Private<String> as Entity<Login>>::pre_steps(
            &self.password,
            env.within("password"@),
            method,
        ) + <Private<String> as Entity<Login>>::pre_steps(
            &self.password_salt,
            env.within("password_salt"@),
            method,
        )
    }

    /// The outcomes of the four fields, in the order of their declaration.
    open spec fn post_outcome(&self, env: HookEnv, method: Method) -> Result<
        bool,
        ServiceErrorView,
    > {
        both(
            both(
                both(
                    <ObjectId as Entity<Login>>::post_outcome(
                        &self.id,
                        env.within("_id"@),
                        method,
                    ),
                    <Unique<String> as Entity<Login>>::post_outcome(
                        &self.login,
                        env.within("login"@),
                        method,
                    ),
                ),
                <Private<String> as Entity<Login>>::post_outcome(
                    &self.password,
                    env.within("password"@),
                    method,
                ),
            ),
            <Private<String> as Entity<Login>>::post_outcome(
                &self.password_salt,
                env.within("password_salt"@),
                method,
            ),
        )
    }

    fn to_public(&self, context: &mut MutationContext) -> (public: LoginPublic) {
        LoginPublic {
            id: <ObjectId as Entity<Login>>::to_public(&self.id, context),
            login: <Unique<String> as Entity<Login>>::to_public(&self.login, context),
        }
    }

    fn before_execution(&self, context: &mut MutationContext, method: Method) -> (steps: Vec<
        PreStep,
    >) {
        let outer = context.current_field.take();
        let mut steps = Vec::new();
        assert(steps.deep_view() =~= Seq::<PreStepView>::empty());
        field_steps::<Login, ObjectId>(&self.id, "_id", context, method, &mut steps);
        field_steps::<Login, Unique<String>>(&self.login, "login", context, method, &mut steps);
        field_steps::<Login, Private<String>>(
            &self.password,
            "password",
            context,
            method,
            &mut steps,
        );
        field_steps::<Login, Private<String>>(
            &self.password_salt,
            "password_salt",
            context,
            method,
            &mut steps,
        );
        context.current_field = outer;
        assert(steps.deep_view() =~= self.pre_steps(old(context)@, method));
        steps
    }

    fn after_execution(&self, context: &mut MutationContext, method: Method) -> (outcome: Result<
        bool,
        ServiceError,
    >) {
        let outer = context.current_field.take();
        let outcome = Ok(true);
        let outcome = field_outcome::<Login, ObjectId>(outcome, &self.id, "_id", context, method);
        let outcome = field_outcome::<Login, Unique<String>>(
            outcome,
            &self.login,
            "login",
            context,
            method,
        );
        let outcome = field_outcome::<Login, Private<String>>(
            outcome,
            &self.password,
            "password",
            context,
            method,
        );
        let outcome = field_outcome::<Login, Private<String>>(
            outcome,
            &self.password_salt,
            "password_salt",
            context,
            method,
        );
        context.current_field = outer;
        outcome
    }
}

/// The document under which a login is stored.
pub open spec fn stored(login: Login) -> DocumentView {
    seq![
        ("_id"@, ValueView::Id(login.id@)),
        ("login"@, ValueView::Text(login.login.0@)),
        ("password"@, ValueView::Text(login.password.0@)),
        ("password_salt"@, ValueView::Text(login.password_salt.0@)),
    ]
}

/// The query for the logins with the login name `name`.
pub open spec fn by_login_name(name: Seq<char>) -> DocumentView {
    seq![("login"@, ValueView::Text(name))]
}

/// With a repository of logins registered, the pre-execution hook of an
/// insertion is the one lookup of the login name, and the post-execution hook
/// keeps the record.
pub proof fn lemma_login_hooks(login: Login, env: HookEnv)
    requires
        env.registered.contains(Login::spec_name()),
    ensures
        login.pre_steps(env, Method::Insert) == seq![
            PreStepView::Lookup {
                entity: Login::spec_name(),
                document: by_login_name(login.login.0@),
            },
        ],
        login.post_outcome(env, Method::Insert) == Ok::<bool, ServiceErrorView>(true),
{
    assert(login.pre_steps(env, Method::Insert) =~= seq![
        PreStepView::Lookup {
            entity: Login::spec_name(),
            document: by_login_name(login.login.0@),
        },
    ]);
}

/// A password does not show: two logins that differ in nothing but password
/// and salt have the same public projections.
pub proof fn lemma_password_does_not_show(a: Login, b: Login)
    requires
        a.id == b.id,
        a.login == b.login,
    ensures
        show_alike::<Login, Login>(a, b),
{
}

/// Login names are unique. With a store that answers every lookup: a login
/// whose name a stored record holds is vetoed and nothing is written; a login
/// whose name no record holds is written, and the same login is vetoed when
/// inserted again.
pub proof fn lemma_login_name_is_unique(login: Login, env: HookEnv, store: Seq<DocumentView>)
    requires
        env.registered.contains(Login::spec_name()),
    ensures
        ({
            let steps = login.pre_steps(env, Method::Insert);
            let post = login.post_outcome(env, Method::Insert);
            let first = run_insert(steps, store, stored(login), post, 0);
            let second = run_insert(steps, first.store, stored(login), post, 0);
            if holds(store, by_login_name(login.login.0@)) {
                &&& first.outcome == Ok::<bool, ServiceErrorView>(true)
                &&& first.store == store
            } else {
                &&& first.outcome == Ok::<bool, ServiceErrorView>(false)
                &&& first.store == store.push(stored(login))
                &&& second.outcome == Ok::<bool, ServiceErrorView>(true)
                &&& second.store == first.store
            }
        }),
{
    lemma_login_hooks(login, env);
    let steps = login.pre_steps(env, Method::Insert);
    let post = login.post_outcome(env, Method::Insert);
    let query = by_login_name(login.login.0@);
    if holds(store, query) {
        lemma_taken_value_is_rejected(steps, store, stored(login), post, 0, 0);
    } else {
        assert(stored(login)[1] == query[0]);
        lemma_second_insertion_is_rejected(steps, store, stored(login), post, 0);
    }
}

} // verus!
