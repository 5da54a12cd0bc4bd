//! The record of a user of the platform.

use vstd::prelude::*;

use crate::context::{HookEnv, MutationContext};
use crate::entity::{both, field_outcome, field_steps, Entity, Named, PreStep, PreStepView};
use crate::error::{ServiceError, ServiceErrorView};
use crate::oid::{hex_of, ObjectId};
use crate::repository::Method;

verus! {

/// A user as it is stored.
#[derive(Debug, Clone)]
pub struct User {
    pub id: ObjectId,
    pub email: String,
    pub name: String,
    pub current_role: String,
}

/// A user as it is shown.
#[derive(Debug, Clone)]
pub struct PublicUser {
    pub id: String,
    pub email: String,
    pub name: String,
    pub current_role: String,
}

impl Named for User {
    open spec fn obeys_name_spec() -> bool {
        true
    }

    open spec fn spec_name() -> Seq<char> {
        "user"@
    }

    fn name() -> (name: &'static str) {
        "user"
    }
}

impl Entity<User> for User {
    type PublicEntity = PublicUser;

    open spec fn obeys_entity_spec() -> bool {
        true
    }

    /// The identifier shows as its canonical text, the other fields as they are.
    open spec fn projects_to(&self, public: &PublicUser) -> bool {
        &&& public.id@ == hex_of(self.id@)
        &&& public.email@ == self.email@
        &&& public.name@ == self.name@
        &&& public.current_role@ == self.current_role@
    }

    /// The steps of the four fields, in the order of their declaration.
    open spec fn pre_steps(&self, env: HookEnv, method: Method) -> Seq<PreStepView> {
        <ObjectId as Entity<User>>::pre_steps(&self.id, env.within("_id"@), method) + <String as
            Entity<User>>::pre_steps(&self.email, env.within("email"@), method) + <String as Entity<
            User,
        >>::pre_steps(&self.name, env.within("name"@), method) + <String as Entity<
            User,
        >>::pre_steps(&self.current_role, env.within("current_role"@), method)
    }

    /// The outcomes of the four fields, in the order of their declaration.
    open spec fn post_outcome(&self, env: HookEnv, method: Method) -> Result<
        bool,
        ServiceErrorView,
    > {
        both(
            both(
                both(
                    <ObjectId as Entity<User>>::post_outcome(&self.id, env.within("_id"@), method),
                    <String as Entity<User>>::post_outcome(
                        &self.email,
                        env.within("email"@),
                        method,
                    ),
                ),
                <String as Entity<User>>::post_outcome(&self.name, env.within("name"@), method),
            ),
            <String as Entity<User>>::post_outcome(
                &self.current_role,
                env.within("current_role"@),
                method,
            ),
        )
    }

    fn to_public(&self, context: &mut MutationContext) -> (public: PublicUser) {
        PublicUser {
            id: <ObjectId as Entity<User>>::to_public(&self.id, context),
            email: <String as Entity<User>>::to_public(&self.email, context),
            name: <String as Entity<User>>::to_public(&self.name, context),
            current_role: <String as Entity<User>>::to_public(&self.current_role, context),
        }
    }

    fn before_execution(&self, context: &mut MutationContext, method: Method) -> (steps: Vec<
        PreStep,
    >) {
        let outer = context.current_field.take();
        let mut steps = Vec::new();
        assert(steps.deep_view() =~= Seq::<PreStepView>::empty());
        field_steps::<User, ObjectId>(&self.id, "_id", context, method, &mut steps);
        field_steps::<User, String>(&self.email, "email", context, method, &mut steps);
        field_steps::<User, String>(&self.name, "name", context, method, &mut steps);
        field_steps::<User, String>(
            &self.current_role,
            "current_role",
            context,
            method,
            &mut steps,
        );
        context.current_field = outer;
        assert(steps.deep_view() =~= self.pre_steps(old(context)@, method));
        steps
    }

    fn after_execution(&self, context: &mut MutationContext, method: Method) -> (outcome: Result<
        bool,
        ServiceError,
    >) {
        let outer = context.current_field.take();
        let outcome = Ok(true);
        let outcome = field_outcome::<User, ObjectId>(outcome, &self.id, "_id", context, method);
        let outcome = field_outcome::<User, String>(outcome, &self.email, "email", context, method);
        let outcome = field_outcome::<User, String>(outcome, &self.name, "name", context, method);
        let outcome = field_outcome::<User, String>(
            outcome,
            &self.current_role,
            "current_role",
            context,
            method,
        );
        context.current_field = outer;
        outcome
    }
}

} // verus!
