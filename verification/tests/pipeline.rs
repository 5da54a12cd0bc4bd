use std::sync::Arc;

use common::auth::Login;
use common::context::{Context, HandlerContext, MutationContext, ServiceState};
use common::document::{Document, Value};
use common::entity::{
    field_outcome, field_steps, AuthInfo, Entity, Named, PreStep, Private, Role, Unique,
};
use common::error::{ErrorKind, ServiceError};
use common::oid::ObjectId;
use common::repository::mongo::{InsertStep, MongoRepository};
use common::repository::{Backend, Method};

fn context_with(names: &[&str]) -> Context {
    let auth = AuthInfo { role: Role::Service, user_id: None, exp: 0 };
    let mut state = ServiceState::new(reqwest::Client::new(), auth);
    for name in names {
        state.repositories.insert(
            name,
            Arc::new(Backend::DocumentStore {
                uri: "mongodb://localhost".to_string(),
                database: "test".to_string(),
                collection: name.to_string(),
            }),
        );
    }
    Context(Arc::new(state), HandlerContext { user_auth: None })
}

fn id(n: u8) -> ObjectId {
    ObjectId::from_bytes([n; 12])
}

#[derive(Clone, Debug, PartialEq)]
struct Widget {
    id: ObjectId,
    sku: Unique<String>,
}

impl Named for Widget {
    fn name() -> &'static str {
        "widget"
    }
}

impl Entity<Widget> for Widget {
    type PublicEntity = (String, String);

    fn to_public(&self, ctx: &mut MutationContext) -> (String, String) {
        (
            <ObjectId as Entity<Widget>>::to_public(&self.id, ctx),
            <Unique<String> as Entity<Widget>>::to_public(&self.sku, ctx),
        )
    }

    fn before_execution(&self, ctx: &mut MutationContext, method: Method) -> Vec<PreStep> {
        let mut steps = Vec::new();
        field_steps::<Widget, ObjectId>(&self.id, "_id", ctx, method, &mut steps);
        field_steps::<Widget, Unique<String>>(&self.sku, "sku", ctx, method, &mut steps);
        steps
    }

    fn after_execution(
        &self,
        ctx: &mut MutationContext,
        method: Method,
    ) -> Result<bool, ServiceError> {
        let outcome = field_outcome::<Widget, ObjectId>(Ok(true), &self.id, "_id", ctx, method);
        field_outcome::<Widget, Unique<String>>(outcome, &self.sku, "sku", ctx, method)
    }
}

fn widget_answers(widget: &Widget, query: &Document) -> bool {
    query.entries.iter().all(|entry| match (entry.key.as_str(), &entry.value) {
        ("_id", Value::Id(id)) => *id == widget.id,
        ("sku", Value::Text(sku)) => *sku == widget.sku.0,
        _ => false,
    })
}

struct Outcome {
    result: Result<bool, ServiceError>,
    lookups: Vec<(String, Document)>,
    wrote: bool,
}

fn insert_widget(store: &mut Vec<Widget>, widget: &Widget, context: &Context) -> Outcome {
    let repository = MongoRepository::<Widget>::new("mongodb://localhost", "test", "widget");
    let mut lookups = Vec::new();
    let mut step = repository.insert(widget, context);
    loop {
        match step {
            InsertStep::Lookup(pending) => {
                let query = pending.document().clone();
                lookups.push((pending.target().to_string(), query.clone()));
                let found = store.iter().any(|stored| widget_answers(stored, &query));
                step = pending.answer(Ok(found));
            }
            InsertStep::Write(pending) => {
                store.push(pending.record().clone());
                return Outcome { result: pending.written(Ok(())), lookups, wrote: true };
            }
            InsertStep::Done(result) => return Outcome { result, lookups, wrote: false },
        }
    }
}

#[test]
fn widget_sku_is_unique() {
    let context = context_with(&["widget"]);
    let mut store: Vec<Widget> = Vec::new();

    let first = insert_widget(&mut store, &Widget { id: id(1), sku: Unique("A".to_string()) }, &context);
    assert_eq!(first.result, Ok(false));
    assert_eq!(store.len(), 1);

    let again = insert_widget(&mut store, &Widget { id: id(2), sku: Unique("A".to_string()) }, &context);
    assert_eq!(again.result, Ok(true));
    assert!(!again.wrote);
    assert_eq!(store.len(), 1);
    assert_eq!(store[0].id, id(1));

    let other = insert_widget(&mut store, &Widget { id: id(3), sku: Unique("B".to_string()) }, &context);
    assert_eq!(other.result, Ok(false));
    assert_eq!(store.len(), 2);
    assert_eq!(store[1].sku.0, "B");
}

#[test]
fn widget_lookup_names_owner_and_field() {
    let context = context_with(&["widget"]);
    let mut store: Vec<Widget> = Vec::new();
    let outcome = insert_widget(&mut store, &Widget { id: id(1), sku: Unique("A".to_string()) }, &context);
    assert_eq!(outcome.lookups.len(), 1);
    assert_eq!(outcome.lookups[0].0, "widget");
    assert_eq!(outcome.lookups[0].1, Document::single("sku", Value::Text("A".to_string())));
}

#[test]
fn inserted_value_is_rejected_afterwards() {
    let context = context_with(&["widget"]);
    let mut store: Vec<Widget> = Vec::new();
    for sku in ["x", "y", "z"] {
        let widget = Widget { id: id(7), sku: Unique(sku.to_string()) };
        assert_eq!(insert_widget(&mut store, &widget, &context).result, Ok(false));
        let before = store.clone();
        assert_eq!(insert_widget(&mut store, &widget, &context).result, Ok(true));
        assert_eq!(store, before);
    }
    assert_eq!(store.len(), 3);
}

#[test]
fn insert_without_repository_fails_before_any_lookup() {
    let context = context_with(&["login"]);
    let mut store: Vec<Widget> = Vec::new();
    let outcome = insert_widget(&mut store, &Widget { id: id(1), sku: Unique("A".to_string()) }, &context);
    assert_eq!(
        outcome.result,
        Err(ServiceError {
            kind: ErrorKind::RepositoryNotConfigured,
            message: "No repository found for entity".to_string(),
        })
    );
    assert!(outcome.lookups.is_empty());
    assert!(store.is_empty());
}

#[test]
fn failed_lookup_fails_the_insert() {
    let context = context_with(&["widget"]);
    let repository = MongoRepository::<Widget>::new("mongodb://localhost", "test", "widget");
    let widget = Widget { id: id(1), sku: Unique("A".to_string()) };
    let InsertStep::Lookup(pending) = repository.insert(&widget, &context) else {
        panic!("a unique field asks for a lookup");
    };
    let failure = ServiceError { kind: ErrorKind::Storage, message: "connection reset".to_string() };
    match pending.answer(Err(failure.clone())) {
        InsertStep::Done(result) => assert_eq!(result, Err(failure)),
        _ => panic!("a failed lookup ends the insertion"),
    }
}

#[test]
fn failed_write_fails_the_insert() {
    let context = context_with(&["widget"]);
    let repository = MongoRepository::<Widget>::new("mongodb://localhost", "test", "widget");
    let widget = Widget { id: id(1), sku: Unique("A".to_string()) };
    let InsertStep::Lookup(pending) = repository.insert(&widget, &context) else {
        panic!("a unique field asks for a lookup");
    };
    let InsertStep::Write(pending) = pending.answer(Ok(false)) else {
        panic!("an unseen value is written");
    };
    assert_eq!(pending.record(), &widget);
    let failure = ServiceError { kind: ErrorKind::Storage, message: "disk full".to_string() };
    assert_eq!(pending.written(Err(failure.clone())), Err(failure));
}

#[derive(Clone, Debug, PartialEq)]
struct Pair {
    first: Unique<String>,
    second: Unique<String>,
}

impl Named for Pair {
    fn name() -> &'static str {
        "pair"
    }
}

impl Entity<Pair> for Pair {
    type PublicEntity = ();

    fn to_public(&self, _: &mut MutationContext) {}

    fn before_execution(&self, ctx: &mut MutationContext, method: Method) -> Vec<PreStep> {
        let mut steps = Vec::new();
        field_steps::<Pair, Unique<String>>(&self.first, "first", ctx, method, &mut steps);
        field_steps::<Pair, Unique<String>>(&self.second, "second", ctx, method, &mut steps);
        steps
    }

    fn after_execution(&self, _: &mut MutationContext, _: Method) -> Result<bool, ServiceError> {
        Ok(true)
    }
}

fn run_pair(pair: &Pair, context: &Context, taken: &[(&str, &str)]) -> (Result<bool, ServiceError>, Vec<String>, bool) {
    let repository = MongoRepository::<Pair>::new("mongodb://localhost", "test", "pair");
    let mut asked = Vec::new();
    let mut step = repository.insert(pair, context);
    loop {
        match step {
            InsertStep::Lookup(pending) => {
                let entry = pending.document().entries[0].clone();
                asked.push(entry.key.clone());
                let found = taken
                    .iter()
                    .any(|(key, value)| *key == entry.key && Value::Text(value.to_string()) == entry.value);
                step = pending.answer(Ok(found));
            }
            InsertStep::Write(pending) => return (pending.written(Ok(())), asked, true),
            InsertStep::Done(result) => return (result, asked, false),
        }
    }
}

#[test]
fn first_veto_stops_the_later_fields() {
    let context = context_with(&["pair"]);
    let pair = Pair { first: Unique("a".to_string()), second: Unique("b".to_string()) };
    let (result, asked, wrote) = run_pair(&pair, &context, &[("first", "a"), ("second", "b")]);
    assert_eq!(result, Ok(true));
    assert_eq!(asked, vec!["first".to_string()]);
    assert!(!wrote);
}

#[test]
fn second_field_can_veto_too() {
    let context = context_with(&["pair"]);
    let pair = Pair { first: Unique("a".to_string()), second: Unique("b".to_string()) };
    let (result, asked, wrote) = run_pair(&pair, &context, &[("second", "b")]);
    assert_eq!(result, Ok(true));
    assert_eq!(asked, vec!["first".to_string(), "second".to_string()]);
    assert!(!wrote);
}

#[test]
fn all_fields_pass_then_write() {
    let context = context_with(&["pair"]);
    let pair = Pair { first: Unique("a".to_string()), second: Unique("b".to_string()) };
    let (result, asked, wrote) = run_pair(&pair, &context, &[("first", "b"), ("second", "a")]);
    assert_eq!(result, Ok(false));
    assert_eq!(asked, vec!["first".to_string(), "second".to_string()]);
    assert!(wrote);
}

#[derive(Clone, Debug, PartialEq)]
struct Gate {
    veto: bool,
    fail: bool,
    keep: bool,
    sku: Unique<String>,
}

impl Named for Gate {
    fn name() -> &'static str {
        "gate"
    }
}

impl Entity<Gate> for Gate {
    type PublicEntity = String;

    fn to_public(&self, ctx: &mut MutationContext) -> String {
        <Unique<String> as Entity<Gate>>::to_public(&self.sku, ctx)
    }

    fn before_execution(&self, ctx: &mut MutationContext, method: Method) -> Vec<PreStep> {
        let mut steps = Vec::new();
        if self.fail {
            steps.push(PreStep::Fail(ServiceError {
                kind: ErrorKind::Storage,
                message: "refused".to_string(),
            }));
        }
        if self.veto {
            steps.push(PreStep::Abort);
        }
        field_steps::<Gate, Unique<String>>(&self.sku, "sku", ctx, method, &mut steps);
        steps
    }

    fn after_execution(&self, _: &mut MutationContext, _: Method) -> Result<bool, ServiceError> {
        if self.fail {
            Err(ServiceError { kind: ErrorKind::Storage, message: "refused".to_string() })
        } else {
            Ok(self.keep)
        }
    }
}

fn gate(veto: bool, fail: bool, keep: bool) -> Gate {
    Gate { veto, fail, keep, sku: Unique("g".to_string()) }
}

#[test]
fn plain_veto_needs_no_lookup_and_writes_nothing() {
    let context = context_with(&["gate"]);
    let repository = MongoRepository::<Gate>::new("mongodb://localhost", "test", "gate");
    let entity = gate(true, false, true);
    match repository.insert(&entity, &context) {
        InsertStep::Done(result) => assert_eq!(result, Ok(true)),
        _ => panic!("a veto ends the insertion at once"),
    }
}

#[test]
fn failing_step_ends_the_insert_with_its_error() {
    let context = context_with(&["gate"]);
    let repository = MongoRepository::<Gate>::new("mongodb://localhost", "test", "gate");
    let entity = gate(true, true, true);
    match repository.insert(&entity, &context) {
        InsertStep::Done(result) => assert_eq!(
            result,
            Err(ServiceError { kind: ErrorKind::Storage, message: "refused".to_string() })
        ),
        _ => panic!("a failing step ends the insertion at once"),
    }
}

#[test]
fn insert_reports_written_whatever_the_post_hook_keeps() {
    let context = context_with(&["gate"]);
    let repository = MongoRepository::<Gate>::new("mongodb://localhost", "test", "gate");
    let entity = gate(false, false, false);
    let InsertStep::Lookup(pending) = repository.insert(&entity, &context) else {
        panic!("a unique field asks for a lookup");
    };
    let InsertStep::Write(pending) = pending.answer(Ok(false)) else {
        panic!("an unseen value is written");
    };
    assert_eq!(pending.written(Ok(())), Ok(false));
}

#[test]
fn find_suppresses_what_the_post_hook_drops() {
    let context = context_with(&["gate"]);
    let repository = MongoRepository::<Gate>::new("mongodb://localhost", "test", "gate");
    assert_eq!(repository.find(Some(gate(false, false, false)), &context), Ok(None));
    assert_eq!(repository.find_by_doc(Some(gate(false, false, false)), &context), Ok(None));
}

#[test]
fn find_returns_what_the_post_hook_keeps() {
    let context = context_with(&["gate"]);
    let repository = MongoRepository::<Gate>::new("mongodb://localhost", "test", "gate");
    let kept = gate(false, false, true);
    assert_eq!(repository.find(Some(kept.clone()), &context), Ok(Some(kept.clone())));
    assert_eq!(repository.find_by_doc(Some(kept.clone()), &context), Ok(Some(kept)));
    assert_eq!(repository.find(None, &context), Ok(None));
    assert_eq!(repository.find_by_doc(None, &context), Ok(None));
}

#[test]
fn find_propagates_a_failing_post_hook() {
    let context = context_with(&["gate"]);
    let repository = MongoRepository::<Gate>::new("mongodb://localhost", "test", "gate");
    let failure = ServiceError { kind: ErrorKind::Storage, message: "refused".to_string() };
    assert_eq!(repository.find(Some(gate(false, true, true)), &context), Err(failure.clone()));
    assert_eq!(repository.delete(Some(gate(false, true, true)), &context), Err(failure));
}

#[test]
fn delete_returns_the_record_whatever_the_post_hook_keeps() {
    let context = context_with(&["gate"]);
    let repository = MongoRepository::<Gate>::new("mongodb://localhost", "test", "gate");
    let dropped = gate(false, false, false);
    assert_eq!(repository.delete(Some(dropped.clone()), &context), Ok(Some(dropped)));
    assert_eq!(repository.delete(None, &context), Ok(None));
}

#[test]
fn id_query_asks_for_the_identifier_field() {
    let query = MongoRepository::<Login>::id_query(&id(9));
    assert_eq!(query, Document::single("_id", Value::Id(id(9))));
    assert_eq!(query.entries.len(), 1);
    assert_eq!(query.entries[0].key, "_id");
}

#[test]
fn login_name_is_unique_in_a_store() {
    let context = context_with(&["login"]);
    let repository = MongoRepository::<Login>::new("mongodb://localhost", "auth", "auth");
    let mut store: Vec<Login> = Vec::new();
    let ada = Login {
        id: id(1),
        login: Unique("ada".to_string()),
        password: Private("pw".to_string()),
        password_salt: Private("salt".to_string()),
    };
    for expected in [false, true] {
        let mut step = repository.insert(&ada, &context);
        let result = loop {
            match step {
                InsertStep::Lookup(pending) => {
                    assert_eq!(pending.target(), "login");
                    let query = pending.document().clone();
                    assert_eq!(query, Document::single("login", Value::Text("ada".to_string())));
                    let found = store.iter().any(|stored| stored.login.0 == "ada");
                    step = pending.answer(Ok(found));
                }
                InsertStep::Write(pending) => {
                    store.push(pending.record().clone());
                    break pending.written(Ok(()));
                }
                InsertStep::Done(result) => break result,
            }
        };
        assert_eq!(result, Ok(expected));
        assert_eq!(store.len(), 1);
    }
}

#[derive(Clone, Debug, PartialEq)]
struct Account {
    id: ObjectId,
    ssn: Private<String>,
    email: String,
}

#[derive(Clone, Debug, PartialEq)]
struct AccountPublic {
    id: String,
    ssn: (),
    email: String,
}

impl Named for Account {
    fn name() -> &'static str {
        "account"
    }
}

impl Entity<Account> for Account {
    type PublicEntity = AccountPublic;

    fn to_public(&self, ctx: &mut MutationContext) -> AccountPublic {
        AccountPublic {
            id: <ObjectId as Entity<Account>>::to_public(&self.id, ctx),
            ssn: <Private<String> as Entity<Account>>::to_public(&self.ssn, ctx),
            email: <String as Entity<Account>>::to_public(&self.email, ctx),
        }
    }

    fn before_execution(&self, ctx: &mut MutationContext, method: Method) -> Vec<PreStep> {
        let mut steps = Vec::new();
        field_steps::<Account, ObjectId>(&self.id, "_id", ctx, method, &mut steps);
        field_steps::<Account, Private<String>>(&self.ssn, "ssn", ctx, method, &mut steps);
        field_steps::<Account, String>(&self.email, "email", ctx, method, &mut steps);
        steps
    }

    fn after_execution(&self, _: &mut MutationContext, _: Method) -> Result<bool, ServiceError> {
        Ok(true)
    }
}

#[test]
fn account_projection_never_shows_the_ssn() {
    let context = context_with(&["account"]);
    let repository = MongoRepository::<Account>::new("mongodb://localhost", "test", "account");
    let mut projections = Vec::new();
    for (n, ssn) in ["078-05-1120", "219-09-9999", ""].iter().enumerate() {
        let account = Account {
            id: id(n as u8),
            ssn: Private(ssn.to_string()),
            email: "same@example.org".to_string(),
        };
        let InsertStep::Write(pending) = repository.insert(&account, &context) else {
            panic!("an account has no step that asks or vetoes");
        };
        assert_eq!(pending.written(Ok(())), Ok(false));
        let stored = repository.find(Some(account), &context).unwrap().unwrap();
        let mut ctx = MutationContext::new(&context);
        let public = stored.to_public(&mut ctx);
        assert_eq!(public.ssn, ());
        assert_eq!(public.email, "same@example.org");
        let shown = format!("{:?}", public);
        if !ssn.is_empty() {
            assert!(!shown.contains(ssn));
        }
        projections.push(AccountPublic { id: String::new(), ..public });
    }
    assert_eq!(projections[0], projections[1]);
    assert_eq!(projections[1], projections[2]);
}
