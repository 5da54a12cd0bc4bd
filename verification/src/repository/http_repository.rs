//! The HTTP surface of a repository, from both sides: the routes under which
//! a service exposes an entity, what a handler settles before it touches a
//! repository, and the remote-proxy backend that speaks to such a surface
//! elsewhere.

use core::marker::PhantomData;
use vstd::prelude::*;
use vstd::string::StringExecFns;

use crate::context::{Context, HttpMethod, ServiceRequest};
use crate::document::Document;
use crate::entity::Named;
use crate::error::{ErrorKind, ServiceError, ServiceErrorView};
use crate::oid::{bytes_of_hex, hex_of, is_hex_id, not_an_identifier, ObjectId};
use crate::repository::{Method, Repository};

verus! {

/// The last segment of the path of an operation.
pub open spec fn operation_segment(operation: Method) -> Seq<char> {
    match operation {
        Method::Find => "find"@,
        Method::FindByDoc => "find_by_doc"@,
        Method::Insert => "insert"@,
        Method::Delete => "delete"@,
    }
}

/// Whether the path of an operation ends in the identifier of a record.
pub open spec fn takes_id(operation: Method) -> bool {
    operation == Method::Find || operation == Method::Delete
}

/// The verb of an operation.
pub open spec fn operation_verb(operation: Method) -> HttpMethod {
    match operation {
        Method::Find => HttpMethod::Get,
        Method::FindByDoc => HttpMethod::Post,
        Method::Insert => HttpMethod::Post,
        Method::Delete => HttpMethod::Delete,
    }
}

/// The path of an operation on the entity `name`, without the identifier
/// that may follow it.
pub open spec fn operation_path(name: Seq<char>, operation: Method) -> Seq<char> {
    "/api/"@ + name + "/"@ + operation_segment(operation)
}

/// The pattern under which a service routes an operation on the entity `name`.
pub open spec fn route_pattern(name: Seq<char>, operation: Method) -> Seq<char> {
    if takes_id(operation) {
        operation_path(name, operation) + "/:id"@
    } else {
        operation_path(name, operation)
    }
}

/// The address of an operation on the entity `name` at the service `origin`.
/// `id` is the text of the identifier for the operations that take one.
pub open spec fn operation_url(
    origin: Seq<char>,
    name: Seq<char>,
    operation: Method,
    id: Option<Seq<char>>,
) -> Seq<char> {
    let base = "http://"@ + origin + operation_path(name, operation);
    match id {
        Some(text) => base + "/"@ + text,
        None => base,
    }
}

/// The error of a handler whose entity has no repository.
pub open spec fn repository_not_found() -> ServiceErrorView {
    ServiceErrorView {
        kind: ErrorKind::RepositoryNotConfigured,
        message: "Repository not found"@,
    }
}

/// The verb of `operation`.
pub fn verb_of(operation: Method) -> (verb: HttpMethod)
    ensures
        verb == operation_verb(operation),
{
    match operation {
        Method::Find => HttpMethod::Get,
        Method::FindByDoc => HttpMethod::Post,
        Method::Insert => HttpMethod::Post,
        Method::Delete => HttpMethod::Delete,
    }
}

/// Puts the path of `operation` on the entity `name` behind `base`.
fn push_operation_path(base: &mut String, name: &str, operation: Method)
    ensures
        final(base)@ == old(base)@ + operation_path(name@, operation),
{
    base.append("/api/");
    base.append(name);
    base.append("/");
    base.append(
        match operation {
            Method::Find => "find",
            Method::FindByDoc => "find_by_doc",
            Method::Insert => "insert",
            Method::Delete => "delete",
        },
    );
    assert(base@ =~= old(base)@ + operation_path(name@, operation));
}

/// One route of a service: requests with `verb` whose path fits `path` are
/// the operation `operation`.
#[derive(Debug, PartialEq, Eq)]
pub struct Route {
    pub verb: HttpMethod,
    pub path: String,
    pub operation: Method,
}

/// The mathematical content of a [`Route`].
pub struct RouteView {
    pub verb: HttpMethod,
    pub path: Seq<char>,
    pub operation: Method,
}

impl View for Route {
    type V = RouteView;

    open spec fn view(&self) -> RouteView {
        RouteView { verb: self.verb, path: self.path@, operation: self.operation }
    }
}

impl DeepView for Route {
    type V = RouteView;

    open spec fn deep_view(&self) -> RouteView {
        self@
    }
}

/// The route of `operation` on the entity `name`.
pub open spec fn route_of(name: Seq<char>, operation: Method) -> RouteView {
    RouteView {
        verb: operation_verb(operation),
        path: route_pattern(name, operation),
        operation,
    }
}

/// The four routes of the entity `name`, in the order in which a service
/// registers them.
pub open spec fn entity_routes(name: Seq<char>) -> Seq<RouteView> {
    seq![
        route_of(name, Method::Find),
        route_of(name, Method::FindByDoc),
        route_of(name, Method::Insert),
        route_of(name, Method::Delete),
    ]
}

/// The route of `operation` on the entity `name`.
pub fn route(name: &str, operation: Method) -> (route: Route)
    ensures
        route@ == route_of(name@, operation),
{
    let mut path = String::new();
    push_operation_path(&mut path, name, operation);
    assert(path@ =~= operation_path(name@, operation));
    match operation {
        Method::Find | Method::Delete => {
            path.append("/:id");
        },
        _ => {},
    }
    Route { verb: verb_of(operation), path, operation }
}

/// Something that the routes of an entity can be registered on.
pub trait Registrable: Sized {
    /// The routes registered so far.
    spec fn routes(&self) -> Seq<RouteView>;

    /// Registers the four routes of the entity `T` behind those already there.
    fn register<T: Named>(self) -> (registered: Self)
        ensures
            T::obeys_name_spec() ==> registered.routes() == self.routes() + entity_routes(
                T::spec_name(),
            ),
    ;
}

/// The routes of a service, in the order of their registration.
pub struct RouteTable {
    pub routes: Vec<Route>,
}

impl RouteTable {
    /// The table without routes.
    pub fn new() -> (table: RouteTable)
        ensures
            table.routes() == Seq::<RouteView>::empty(),
    {
        let table = RouteTable { routes: Vec::new() };
        assert(table.routes.deep_view() =~= Seq::<RouteView>::empty());
        table
    }
}

impl Registrable for RouteTable {
    open spec fn routes(&self) -> Seq<RouteView> {
        self.routes.deep_view()
    }

    fn register<T: Named>(self) -> (registered: Self) {
        let mut table = self;
        let name = T::name();
        table.routes.push(route(name, Method::Find));
        table.routes.push(route(name, Method::FindByDoc));
        table.routes.push(route(name, Method::Insert));
        table.routes.push(route(name, Method::Delete));
        assert(table.routes.deep_view() =~= self.routes.deep_view() + entity_routes(name@));
        table
    }
}

/// The repository of the entity `T` in `context`, for a handler.
fn repository_of<T: Named>(context: &Context) -> (found: Result<Repository<T>, ServiceError>)
    ensures
        T::obeys_name_spec() ==> match found {
            Ok(repository) => context.0.repositories.backend_of(T::spec_name()) == Some(
                *repository.backend,
            ),
            Err(e) => context.0.repositories.backend_of(T::spec_name()) is None && e@
                == repository_not_found(),
        },
{
    match context.get_repository::<T>() {
        Some(repository) => Ok(repository),
        None => Err(
            ServiceError::new(ErrorKind::RepositoryNotConfigured, "Repository not found"),
        ),
    }
}

/// What the handler of a find settles before the repository is asked: the
/// identifier that the path segment `id` spells, and the repository of `T`.
/// A malformed identifier is reported before a missing repository.
pub fn server_find<T: Named>(id: &str, context: &Context) -> (settled: Result<
    (ObjectId, Repository<T>),
    ServiceError,
>)
    ensures
        settled is Ok ==> is_hex_id(id@),
        !is_hex_id(id@) ==> (settled matches Err(e) && e@ == not_an_identifier(id@)),
        settled matches Ok(pair) ==> pair.0@ == bytes_of_hex(id@),
        T::obeys_name_spec() && is_hex_id(id@) ==> match settled {
            Ok(pair) => context.0.repositories.backend_of(T::spec_name()) == Some(*pair.1.backend),
            Err(e) => context.0.repositories.backend_of(T::spec_name()) is None && e@
                == repository_not_found(),
        },
{
    let id = ObjectId::parse_str(id)?;
    let repository = repository_of::<T>(context)?;
    Ok((id, repository))
}

/// What the handler of a find by query settles before the repository is
/// asked: the repository of `T`.
pub fn server_find_by_doc<T: Named>(context: &Context) -> (settled: Result<
    Repository<T>,
    ServiceError,
>)
    ensures
        T::obeys_name_spec() ==> match settled {
            Ok(repository) => context.0.repositories.backend_of(T::spec_name()) == Some(
                *repository.backend,
            ),
            Err(e) => context.0.repositories.backend_of(T::spec_name()) is None && e@
                == repository_not_found(),
        },
{
    repository_of::<T>(context)
}

/// What the handler of an insertion settles before the repository is asked:
/// the repository of `T`.
pub fn server_insert<T: Named>(context: &Context) -> (settled: Result<Repository<T>, ServiceError>)
    ensures
        T::obeys_name_spec() ==> match settled {
            Ok(repository) => context.0.repositories.backend_of(T::spec_name()) == Some(
                *repository.backend,
            ),
            Err(e) => context.0.repositories.backend_of(T::spec_name()) is None && e@
                == repository_not_found(),
        },
{
    repository_of::<T>(context)
}

/// What the handler of a deletion settles before the repository is asked: the
/// identifier that the path segment `id` spells, and the repository of `T`.
/// A malformed identifier is reported before a missing repository.
pub fn server_delete<T: Named>(id: &str, context: &Context) -> (settled: Result<
    (ObjectId, Repository<T>),
    ServiceError,
>)
    ensures
        settled is Ok ==> is_hex_id(id@),
        !is_hex_id(id@) ==> (settled matches Err(e) && e@ == not_an_identifier(id@)),
        settled matches Ok(pair) ==> pair.0@ == bytes_of_hex(id@),
        T::obeys_name_spec() && is_hex_id(id@) ==> match settled {
            Ok(pair) => context.0.repositories.backend_of(T::spec_name()) == Some(*pair.1.backend),
            Err(e) => context.0.repositories.backend_of(T::spec_name()) is None && e@
                == repository_not_found(),
        },
{
    let id = ObjectId::parse_str(id)?;
    let repository = repository_of::<T>(context)?;
    Ok((id, repository))
}

/// The remote-proxy backend of the entity `T`: the records live in the
/// service at `origin`, which runs the hooks; this side only asks.
#[derive(Debug, PartialEq, Eq)]
pub struct HttpRepositoryClient<T> {
    pub origin: String,
    pub entity: PhantomData<T>,
}

/// The error of a reply that had to decode and did not.
pub open spec fn as_decode_failure(cause: ServiceErrorView) -> ServiceErrorView {
    ServiceErrorView { kind: ErrorKind::Decode, message: cause.message }
}

impl<T> HttpRepositoryClient<T> {
    /// The backend that asks the service at `origin`.
    pub fn new(origin: &str) -> (client: Self)
        ensures
            client.origin@ == origin@,
    {
        Self { origin: origin.to_owned(), entity: PhantomData }
    }

    /// What a read or a deletion returns for the reply of the remote service.
    /// The outer result of `reply` tells whether the call went through, the
    /// inner one whether the body decoded as a record. A call that did not go
    /// through is an error; a body that does not decode is no record.
    pub fn received(reply: Result<Result<T, ServiceError>, ServiceError>) -> (result: Result<
        Option<T>,
        ServiceError,
    >)
        ensures
            match reply {
                Err(e) => result matches Err(failure) && failure == e,
                Ok(Err(_)) => result == Ok::<Option<T>, ServiceError>(None),
                Ok(Ok(record)) => result == Ok::<Option<T>, ServiceError>(Some(record)),
            },
    {
        match reply {
            Err(e) => Err(e),
            Ok(Err(_)) => Ok(None),
            Ok(Ok(record)) => Ok(Some(record)),
        }
    }

    /// What an insertion returns for the reply of the remote service: the
    /// veto flag that the service reports. Here a body that does not decode is
    /// an error, as is a call that did not go through.
    pub fn inserted(reply: Result<Result<bool, ServiceError>, ServiceError>) -> (result: Result<
        bool,
        ServiceError,
    >)
        ensures
            match reply {
                Err(e) => result matches Err(failure) && failure == e,
                Ok(Err(cause)) => result matches Err(failure) && failure@ == as_decode_failure(
                    cause@,
                ),
                Ok(Ok(vetoed)) => result == Ok::<bool, ServiceError>(vetoed),
            },
    {
        match reply {
            Err(e) => Err(e),
            Ok(Err(cause)) => Err(ServiceError { kind: ErrorKind::Decode, message: cause.message }),
            Ok(Ok(vetoed)) => Ok(vetoed),
        }
    }
}

impl<T: Named> HttpRepositoryClient<T> {
    /// The address of `operation` at the remote service.
    fn url(&self, operation: Method, id: Option<&ObjectId>) -> (url: String)
        ensures
            T::obeys_name_spec() ==> url@ == operation_url(
                self.origin@,
                T::spec_name(),
                operation,
                match id {
                    Some(id) => Some(hex_of(id@)),
                    None => None,
                },
            ),
    {
        let mut url = String::from_str("http://");
        url.append(self.origin.as_str());
        push_operation_path(&mut url, T::name(), operation);
        if let Some(id) = id {
            url.append("/");
            url.append(id.to_hex().as_str());
        }
        url
    }

    /// The request that finds the record with the identifier `id`.
    pub fn find<'a>(&self, id: &ObjectId, context: &'a Context) -> (request: ServiceRequest<
        'a,
        'static,
        (),
    >)
        ensures
            request.method == HttpMethod::Get,
            request.body is None,
            request.client == &context.0.client,
            request.auth == context.0.auth,
            T::obeys_name_spec() ==> (request.url matches Some(url) && url@ == operation_url(
                self.origin@,
                T::spec_name(),
                Method::Find,
                Some(hex_of(id@)),
            )),
    {
        context.make_request::<()>().get(self.url(Method::Find, Some(id)))
    }

    /// The request that finds a record that answers `doc`.
    pub fn find_by_doc<'a, 'b>(&self, doc: &'b Document, context: &'a Context) -> (request:
        ServiceRequest<'a, 'b, Document>)
        ensures
            request.method == HttpMethod::Post,
            request.body == Some(doc),
            request.client == &context.0.client,
            request.auth == context.0.auth,
            T::obeys_name_spec() ==> (request.url matches Some(url) && url@ == operation_url(
                self.origin@,
                T::spec_name(),
                Method::FindByDoc,
                None,
            )),
    {
        context.make_request::<Document>().post(self.url(Method::FindByDoc, None)).json(doc)
    }

    /// The request that inserts `entity`.
    pub fn insert<'a, 'b>(&self, entity: &'b T, context: &'a Context) -> (request: ServiceRequest<
        'a,
        'b,
        T,
    >)
        ensures
            request.method == HttpMethod::Post,
            request.body == Some(entity),
            request.client == &context.0.client,
            request.auth == context.0.auth,
            T::obeys_name_spec() ==> (request.url matches Some(url) && url@ == operation_url(
                self.origin@,
                T::spec_name(),
                Method::Insert,
                None,
            )),
    {
        context.make_request::<T>().post(self.url(Method::Insert, None)).json(entity)
    }

    /// The request that deletes the record with the identifier `id`.
    pub fn delete<'a>(&self, id: &ObjectId, context: &'a Context) -> (request: ServiceRequest<
        'a,
        'static,
        (),
    >)
        ensures
            request.method == HttpMethod::Delete,
            request.body is None,
            request.client == &context.0.client,
            request.auth == context.0.auth,
            T::obeys_name_spec() ==> (request.url matches Some(url) && url@ == operation_url(
                self.origin@,
                T::spec_name(),
                Method::Delete,
                Some(hex_of(id@)),
            )),
    {
        context.make_request::<()>().delete(self.url(Method::Delete, Some(id)))
    }
}

} // verus!
