//! What the wrappers guarantee of public projections, however they are nested.

use vstd::prelude::*;

use crate::context::HookEnv;
use crate::document::Scalar;
use crate::entity::{Auth, Entity, Named, OptionallyPrivate, PreStepView, Private, Unique};
use crate::repository::Method;

verus! {

/// Whether two values cannot be told apart by their public projections: every
/// projection of the one is a projection of the other.
pub open spec fn show_alike<RootRef, E: Entity<RootRef>>(a: E, b: E) -> bool {
    forall|public: E::PublicEntity|
        #![trigger a.projects_to(&public)]
        #![trigger b.projects_to(&public)]
        a.projects_to(&public) == b.projects_to(&public)
}

/// A private value does not show: whatever two values are wrapped, their
/// projections are the same.
pub proof fn lemma_private_shows_nothing<RootRef, T: Entity<RootRef>>(a: Private<T>, b: Private<T>)
    ensures
        show_alike::<RootRef, Private<T>>(a, b),
{
}

/// Uniqueness adds nothing to a projection: what does not show of a value does
/// not show of the value made unique.
pub proof fn lemma_unique_shows_no_more<RootRef: Named, T: Entity<RootRef> + Scalar>(
    a: Unique<T>,
    b: Unique<T>,
)
    requires
        show_alike::<RootRef, T>(a.0, b.0),
    ensures
        show_alike::<RootRef, Unique<T>>(a, b),
{
    assert forall|public: T::PublicEntity|
        <Unique<T> as Entity<RootRef>>::projects_to(&a, &public) == <Unique<T> as Entity<
            RootRef,
        >>::projects_to(&b, &public) by {
        assert(a.0.projects_to(&public) == b.0.projects_to(&public));
    }
}

/// Authorization adds nothing to a projection: neither the principals show,
/// nor more of the value than shows of it alone.
pub proof fn lemma_auth_shows_no_more<RootRef, T: Entity<RootRef>>(a: Auth<T>, b: Auth<T>)
    requires
        show_alike::<RootRef, T>(a.value, b.value),
    ensures
        show_alike::<RootRef, Auth<T>>(a, b),
{
    assert forall|public: T::PublicEntity|
        <Auth<T> as Entity<RootRef>>::projects_to(&a, &public) == <Auth<T> as Entity<
            RootRef,
        >>::projects_to(&b, &public) by {
        assert(a.value.projects_to(&public) == b.value.projects_to(&public));
    }
}

/// Optional privacy adds nothing to a projection but the flag: under the same
/// flag, what does not show of a value does not show of the wrapped value.
pub proof fn lemma_optionally_private_shows_no_more<RootRef, T: Entity<RootRef>>(
    a: OptionallyPrivate<T>,
    b: OptionallyPrivate<T>,
)
    requires
        a.0 == b.0,
        show_alike::<RootRef, T>(a.1, b.1),
    ensures
        show_alike::<RootRef, OptionallyPrivate<T>>(a, b),
{
    assert forall|public: Option<T::PublicEntity>|
        <OptionallyPrivate<T> as Entity<RootRef>>::projects_to(&a, &public) == <OptionallyPrivate<
            T,
        > as Entity<RootRef>>::projects_to(&b, &public) by {
        match public {
            Some(inner) => {
                assert(a.1.projects_to(&inner) == b.1.projects_to(&inner));
            },
            None => {},
        }
    }
}

/// A value that is flagged as hidden does not show, whatever it is.
pub proof fn lemma_hidden_shows_nothing<RootRef, T: Entity<RootRef>>(
    a: OptionallyPrivate<T>,
    b: OptionallyPrivate<T>,
)
    requires
        !a.0,
        !b.0,
    ensures
        show_alike::<RootRef, OptionallyPrivate<T>>(a, b),
{
}

/// The projection of an optionally private value is present if and only if
/// the value is flagged as visible, and then it is a projection of the value.
pub proof fn lemma_shown_iff_visible<RootRef, T: Entity<RootRef>>(
    value: OptionallyPrivate<T>,
    public: Option<T::PublicEntity>,
)
    requires
        <OptionallyPrivate<T> as Entity<RootRef>>::projects_to(&value, &public),
    ensures
        public is Some <==> value.0,
        public matches Some(inner) ==> value.1.projects_to(&inner),
{
}

/// A unique value guards its insertion: where the record type has a
/// repository and the field has a name, the last step of the pre-execution
/// hook looks up the records that hold the value in that field, after
/// whatever steps the value itself asks for. No other operation is guarded.
pub proof fn lemma_unique_guards_insertion<RootRef: Named, T: Entity<RootRef> + Scalar>(
    value: Unique<T>,
    env: HookEnv,
    field: Seq<char>,
    method: Method,
)
    requires
        env.registered.contains(RootRef::spec_name()),
        env.field == Some(field),
    ensures
        method == Method::Insert ==> <Unique<T> as Entity<RootRef>>::pre_steps(&value, env, method)
            == <T as Entity<RootRef>>::pre_steps(&value.0, env, method).push(
            PreStepView::Lookup {
                entity: RootRef::spec_name(),
                document: seq![(field, value.0.scalar())],
            },
        ),
        method != Method::Insert ==> <Unique<T> as Entity<RootRef>>::pre_steps(&value, env, method)
            == <T as Entity<RootRef>>::pre_steps(&value.0, env, method),
{
}

} // verus!
