use std::sync::Arc;

use common::auth::{Login, LoginPublic};
use common::context::{Context, HandlerContext, MutationContext, ServiceState};
use common::document::{Document, Entry, Scalar, Value};
use common::entity::user::{PublicUser, User};
use common::entity::{Auth, AuthInfo, Entity, OptionallyPrivate, PreStep, Private, Role, Unique};
use common::error::{ErrorKind, ServiceError};
use common::oid::ObjectId;
use common::repository::{Backend, Method};

fn service() -> AuthInfo {
    AuthInfo { role: Role::Service, user_id: None, exp: 0 }
}

fn context_with(names: &[&str]) -> Context {
    let mut state = ServiceState::new(reqwest::Client::new(), service());
    for name in names {
        state.repositories.insert(
            name,
            Arc::new(Backend::DocumentStore {
                uri: "mongodb://localhost".to_string(),
                database: "test".to_string(),
                collection: name.to_string(),
            }),
        );
    }
    Context(Arc::new(state), HandlerContext { user_auth: None })
}

fn sample_login() -> Login {
    Login {
        id: ObjectId::from_bytes([1, 2, 3, 4, 5, 6, 7, 8, 9, 10, 11, 12]),
        login: Unique("ada".to_string()),
        password: Private("hunter2".to_string()),
        password_salt: Private("pepper".to_string()),
    }
}

#[test]
fn private_projects_to_unit() {
    let context = context_with(&[]);
    let mut ctx = MutationContext::new(&context);
    let secret = Private("123-45-6789".to_string());
    let shown: () = <Private<String> as Entity<Login>>::to_public(&secret, &mut ctx);
    assert_eq!(shown, ());
    assert_eq!(format!("{:?}", shown), "()");
}

#[test]
fn private_stays_hidden_under_other_wrappers() {
    let context = context_with(&[]);
    let mut ctx = MutationContext::new(&context);
    let unique = Unique(Private("s3cret".to_string()));
    let shown: () = <Unique<Private<String>> as Entity<Login>>::to_public(&unique, &mut ctx);
    assert_eq!(shown, ());
    let visible = OptionallyPrivate(true, Private("s3cret".to_string()));
    let shown: Option<()> =
        <OptionallyPrivate<Private<String>> as Entity<Login>>::to_public(&visible, &mut ctx);
    assert_eq!(shown, Some(()));
    assert!(!format!("{:?}", shown).contains("s3cret"));
    let gated = Auth { permission_users: vec![service()], value: Private(7i64) };
    let shown: () = <Auth<Private<i64>> as Entity<Login>>::to_public(&gated, &mut ctx);
    assert_eq!(shown, ());
}

#[test]
fn optionally_private_shows_iff_visible() {
    let context = context_with(&[]);
    let mut ctx = MutationContext::new(&context);
    let shown = OptionallyPrivate(true, "a@b.c".to_string());
    let hidden = OptionallyPrivate(false, "a@b.c".to_string());
    assert_eq!(
        <OptionallyPrivate<String> as Entity<Login>>::to_public(&shown, &mut ctx),
        Some("a@b.c".to_string())
    );
    assert_eq!(<OptionallyPrivate<String> as Entity<Login>>::to_public(&hidden, &mut ctx), None);
}

#[test]
fn leaves_project_to_themselves() {
    let context = context_with(&[]);
    let mut ctx = MutationContext::new(&context);
    let id = ObjectId::from_bytes([0xab; 12]);
    assert_eq!(<ObjectId as Entity<Login>>::to_public(&id, &mut ctx), "abababababababababababab");
    assert_eq!(<String as Entity<Login>>::to_public(&"plain".to_string(), &mut ctx), "plain");
    assert_eq!(<i64 as Entity<Login>>::to_public(&-42i64, &mut ctx), -42);
    assert_eq!(
        <Unique<String> as Entity<Login>>::to_public(&Unique("u".to_string()), &mut ctx),
        "u"
    );
}

#[test]
fn leaves_never_veto_and_always_keep() {
    let context = context_with(&[]);
    let mut ctx = MutationContext::new(&context);
    let id = ObjectId::from_bytes([0; 12]);
    for method in [Method::Insert, Method::Find, Method::FindByDoc, Method::Delete] {
        assert!(<ObjectId as Entity<Login>>::before_execution(&id, &mut ctx, method).is_empty());
        assert_eq!(<ObjectId as Entity<Login>>::after_execution(&id, &mut ctx, method), Ok(true));
        let text = "t".to_string();
        assert!(<String as Entity<Login>>::before_execution(&text, &mut ctx, method).is_empty());
        assert_eq!(<String as Entity<Login>>::after_execution(&text, &mut ctx, method), Ok(true));
    }
}

#[test]
fn unique_checks_only_on_insert() {
    let context = context_with(&["login"]);
    let mut ctx = MutationContext::new(&context);
    ctx.current_field = Some("login".to_string());
    let value = Unique("ada".to_string());
    for method in [Method::Find, Method::FindByDoc, Method::Delete] {
        let steps = <Unique<String> as Entity<Login>>::before_execution(&value, &mut ctx, method);
        assert!(steps.is_empty());
    }
    let steps = <Unique<String> as Entity<Login>>::before_execution(&value, &mut ctx, Method::Insert);
    assert_eq!(
        steps,
        vec![PreStep::Lookup {
            entity: "login".to_string(),
            document: Document {
                entries: vec![Entry { key: "login".to_string(), value: Value::Text("ada".to_string()) }]
            },
        }]
    );
    assert_eq!(ctx.current_field, Some("login".to_string()));
}

#[test]
fn unique_without_repository_is_a_configuration_error() {
    let context = context_with(&["user"]);
    let mut ctx = MutationContext::new(&context);
    ctx.current_field = Some("login".to_string());
    let value = Unique("ada".to_string());
    let steps = <Unique<String> as Entity<Login>>::before_execution(&value, &mut ctx, Method::Insert);
    assert_eq!(
        steps,
        vec![PreStep::Fail(ServiceError {
            kind: ErrorKind::RepositoryNotConfigured,
            message: "No repository found for entity".to_string(),
        })]
    );
}

#[test]
fn unique_without_field_name_is_a_configuration_error() {
    let context = context_with(&["login"]);
    let mut ctx = MutationContext::new(&context);
    let value = Unique("ada".to_string());
    let steps = <Unique<String> as Entity<Login>>::before_execution(&value, &mut ctx, Method::Insert);
    assert_eq!(
        steps,
        vec![PreStep::Fail(ServiceError {
            kind: ErrorKind::FieldNotSet,
            message: "No field found".to_string(),
        })]
    );
}

#[test]
fn missing_repository_is_reported_before_missing_field() {
    let context = context_with(&[]);
    let mut ctx = MutationContext::new(&context);
    let value = Unique(5i64);
    let steps = <Unique<i64> as Entity<Login>>::before_execution(&value, &mut ctx, Method::Insert);
    assert_eq!(steps.len(), 1);
    assert!(matches!(&steps[0], PreStep::Fail(e) if e.kind == ErrorKind::RepositoryNotConfigured));
}

#[test]
fn nested_unique_checks_twice() {
    let context = context_with(&["login"]);
    let mut ctx = MutationContext::new(&context);
    ctx.current_field = Some("n".to_string());
    let value = Unique(Unique(9i64));
    let steps =
        <Unique<Unique<i64>> as Entity<Login>>::before_execution(&value, &mut ctx, Method::Insert);
    let lookup = PreStep::Lookup {
        entity: "login".to_string(),
        document: Document { entries: vec![Entry { key: "n".to_string(), value: Value::Integer(9) }] },
    };
    assert_eq!(steps, vec![lookup.clone(), lookup]);
}

#[test]
fn scalars_of_every_kind() {
    assert_eq!("x".to_string().to_value(), Value::Text("x".to_string()));
    assert_eq!(12i64.to_value(), Value::Integer(12));
    assert_eq!(true.to_value(), Value::Boolean(true));
    let id = ObjectId::from_bytes([3; 12]);
    assert_eq!(id.to_value(), Value::Id(id));
    assert_eq!(Unique(Private(false)).to_value(), Value::Boolean(false));
    assert_eq!(OptionallyPrivate(false, 1i64).to_value(), Value::Integer(1));
    assert_eq!(Auth { permission_users: vec![], value: 2i64 }.to_value(), Value::Integer(2));
}

#[test]
fn auth_gate_needs_the_repository_of_principals() {
    let gated = Auth { permission_users: vec![service()], value: "v".to_string() };
    let without = context_with(&["login"]);
    let mut ctx = MutationContext::new(&without);
    assert_eq!(
        <Auth<String> as Entity<Login>>::after_execution(&gated, &mut ctx, Method::Find),
        Err(ServiceError {
            kind: ErrorKind::RepositoryNotConfigured,
            message: "No repository found for AuthInfo".to_string(),
        })
    );
    let with = context_with(&["AuthInfo"]);
    let mut ctx = MutationContext::new(&with);
    assert_eq!(
        <Auth<String> as Entity<Login>>::after_execution(&gated, &mut ctx, Method::Find),
        Ok(true)
    );
    assert!(<Auth<String> as Entity<Login>>::before_execution(&gated, &mut ctx, Method::Insert)
        .is_empty());
    assert_eq!(<Auth<String> as Entity<Login>>::to_public(&gated, &mut ctx), "v");
}

#[test]
fn auth_info_is_its_own_projection() {
    let context = context_with(&[]);
    let mut ctx = MutationContext::new(&context);
    let info = AuthInfo { role: Role::Admin, user_id: Some("u1".to_string()), exp: 1_700_000_000 };
    assert_eq!(info.to_public(&mut ctx), info);
    assert!(info.before_execution(&mut ctx, Method::Insert).is_empty());
    assert_eq!(info.after_execution(&mut ctx, Method::Delete), Ok(true));
    assert_eq!(<AuthInfo as common::entity::Named>::name(), "AuthInfo");
}

#[test]
fn login_projection_leaves_the_password_out() {
    let context = context_with(&["login"]);
    let mut ctx = MutationContext::new(&context);
    let login = sample_login();
    let public = login.to_public(&mut ctx);
    assert_eq!(
        public,
        LoginPublic { id: "0102030405060708090a0b0c".to_string(), login: "ada".to_string() }
    );
    let shown = format!("{:?}", public);
    assert!(!shown.contains("hunter2"));
    assert!(!shown.contains("pepper"));
}

#[test]
fn login_hooks_run_the_fields_in_order() {
    let context = context_with(&["login"]);
    let mut ctx = MutationContext::new(&context);
    let login = sample_login();
    let steps = login.before_execution(&mut ctx, Method::Insert);
    assert_eq!(
        steps,
        vec![PreStep::Lookup {
            entity: "login".to_string(),
            document: Document {
                entries: vec![Entry { key: "login".to_string(), value: Value::Text("ada".to_string()) }]
            },
        }]
    );
    assert_eq!(ctx.current_field, None);
    assert!(login.before_execution(&mut ctx, Method::Find).is_empty());
    assert_eq!(login.after_execution(&mut ctx, Method::Insert), Ok(true));
    assert_eq!(ctx.current_field, None);
}

#[test]
fn login_hooks_restore_the_outer_field() {
    let context = context_with(&["login"]);
    let mut ctx = MutationContext::new(&context);
    ctx.current_field = Some("owner".to_string());
    let login = sample_login();
    let _ = login.before_execution(&mut ctx, Method::Insert);
    assert_eq!(ctx.current_field, Some("owner".to_string()));
    let _ = login.after_execution(&mut ctx, Method::Find);
    assert_eq!(ctx.current_field, Some("owner".to_string()));
}

#[test]
fn user_projection_and_hooks() {
    let context = context_with(&[]);
    let mut ctx = MutationContext::new(&context);
    let user = User {
        id: ObjectId::from_bytes([0x10; 12]),
        email: "u@example.org".to_string(),
        name: "Una".to_string(),
        current_role: "auditor".to_string(),
    };
    let public: PublicUser = user.to_public(&mut ctx);
    assert_eq!(public.id, "101010101010101010101010");
    assert_eq!(public.email, "u@example.org");
    assert_eq!(public.name, "Una");
    assert_eq!(public.current_role, "auditor");
    assert!(user.before_execution(&mut ctx, Method::Insert).is_empty());
    assert_eq!(user.after_execution(&mut ctx, Method::Find), Ok(true));
    assert_eq!(<User as common::entity::Named>::name(), "user");
}
