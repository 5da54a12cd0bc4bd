//! What a request carries with it: the process-wide service state with its
//! registry of repositories, the caller's authorization, and the scratch state
//! of one repository call.

use core::marker::PhantomData;
use std::sync::Arc;
use vstd::prelude::*;
use vstd::string::StrSliceExecFns;

use crate::entity::{AuthInfo, Named};
use crate::error::{ErrorKind, ServiceError, ServiceErrorView};
use crate::repository::{Backend, Repository};

verus! {

/// One line of the registry.
pub struct Registration {
    pub name: String,
    pub backend: Arc<Backend>,
}

/// The backend that `entries` gives `name`: that of the latest registration
/// under it.
pub open spec fn latest_backend(entries: Seq<Registration>, name: Seq<char>) -> Option<Backend>
    decreases entries.len(),
{
    if entries.len() == 0 {
        None
    } else if entries.last().name@ == name {
        Some(*entries.last().backend)
    } else {
        latest_backend(entries.drop_last(), name)
    }
}

/// The repositories of a process, by entity name. Registrations are only ever
/// added; a later one under the same name takes the place of the earlier.
pub struct Registry {
    entries: Vec<Registration>,
}

impl Registry {
    /// The backend registered under `name`, if any.
    pub closed spec fn backend_of(&self, name: Seq<char>) -> Option<Backend> {
        latest_backend(self.entries@, name)
    }

    /// The names under which a repository is registered.
    pub open spec fn registered(&self) -> Set<Seq<char>> {
        Set::new(|name: Seq<char>| self.backend_of(name) is Some)
    }

    pub fn new() -> (registry: Registry)
        ensures
            forall|name: Seq<char>| registry.backend_of(name) is None,
    {
        Registry { entries: Vec::new() }
    }

    /// Registers `backend` under `name`.
    pub fn insert(&mut self, name: &str, backend: Arc<Backend>)
        ensures
            forall|other: Seq<char>|
                #[trigger] final(self).backend_of(other) == if other == name@ {
                    Some(*backend)
                } else {
                    old(self).backend_of(other)
                },
    {
        let ghost before = self.entries@;
        self.entries.push(Registration { name: name.to_owned(), backend });
        assert(self.entries@.drop_last() =~= before);
    }

    /// Looks up the backend registered under `name`.
    pub fn get(&self, name: &str) -> (found: Option<&Arc<Backend>>)
        ensures
            match found {
                Some(backend) => self.backend_of(name@) == Some(**backend),
                None => self.backend_of(name@) is None,
            },
    {
        let wanted = name.to_owned();
        let mut i = self.entries.len();
        assert(self.entries@.take(i as int) =~= self.entries@);
        while i > 0
            invariant
                i <= self.entries.len(),
                wanted@ == name@,
                latest_backend(self.entries@, name@) == latest_backend(
                    self.entries@.take(i as int),
                    name@,
                ),
            decreases i,
        {
            let ghost prefix = self.entries@.take(i as int);
            assert(prefix.drop_last() =~= self.entries@.take(i - 1));
            i -= 1;
            if self.entries[i].name == wanted {
                return Some(&self.entries[i].backend);
            }
        }
        assert(self.entries@.take(0).len() == 0);
        None
    }
}

/// The client of reqwest on which outbound requests go out. It is carried
/// through to whoever sends a request; nothing is claimed of it.
#[verifier::external_type_specification]
#[verifier::external_body]
pub struct ExClient(reqwest::Client);

/// What a process shares among all its requests. It is assembled once at
/// startup and only read afterwards.
pub struct ServiceState {
    pub repositories: Registry,
    pub client: reqwest::Client,
    pub auth: AuthInfo,
}

impl ServiceState {
    /// A state without repositories.
    pub fn new(client: reqwest::Client, auth: AuthInfo) -> (state: ServiceState)
        ensures
            state.repositories.registered() == Set::<Seq<char>>::empty(),
            state.client == client,
            state.auth == auth,
    {
        let state = ServiceState { repositories: Registry::new(), client, auth };
        assert(state.repositories.registered() =~= Set::<Seq<char>>::empty());
        state
    }

    /// Registers the repository of the entity `T` under the entity's name.
    pub fn insert<T: Named>(&mut self, repository: Repository<T>)
        ensures
            T::obeys_name_spec() ==> forall|other: Seq<char>|
                #[trigger] final(self).repositories.backend_of(other) == if other
                    == T::spec_name() {
                    Some(*repository.backend)
                } else {
                    old(self).repositories.backend_of(other)
                },
            final(self).client == old(self).client,
            final(self).auth == old(self).auth,
    {
        self.repositories.insert(T::name(), repository.backend);
    }
}

/// What is known of the caller of one request.
pub struct HandlerContext {
    pub user_auth: Option<AuthInfo>,
}

/// The context of one request: the shared state and the caller.
pub struct Context(pub Arc<ServiceState>, pub HandlerContext);

impl Context {
    /// The names under which the shared state holds a repository.
    pub open spec fn registered(&self) -> Set<Seq<char>> {
        self.0.repositories.registered()
    }

    /// The repository of the entity `T`, if one is registered under its name.
    pub fn get_repository<T: Named>(&self) -> (found: Option<Repository<T>>)
        ensures
            T::obeys_name_spec() ==> match found {
                Some(repository) => self.0.repositories.backend_of(T::spec_name()) == Some(
                    *repository.backend,
                ),
                None => self.0.repositories.backend_of(T::spec_name()) is None,
            },
            T::obeys_name_spec() ==> (found is Some <==> self.registered().contains(
                T::spec_name(),
            )),
    {
        match self.0.repositories.get(T::name()) {
            Some(backend) => Some(Repository { backend: Arc::clone(backend), entity: PhantomData }),
            None => None,
        }
    }

    /// A request on the shared client, on behalf of the service itself.
    pub fn make_request<'a, 'b, T>(&'a self) -> (request: ServiceRequest<'a, 'b, T>)
        ensures
            request.client == &self.0.client,
            request.auth == self.0.auth,
            request.method == HttpMethod::Get,
            request.url is None,
            request.body is None,
    {
        ServiceRequest::new(&self.0.client, self.0.auth.clone())
    }
}

/// The context of one request as the transport layer extracts it.
pub struct ContextExtractor(pub Context);

/// What precedes the token in an `Authorization` header.
pub open spec fn bearer_prefix() -> Seq<char> {
    "Bearer "@
}

/// The error for an `Authorization` header that carries no bearer token.
pub open spec fn wrong_token_format() -> ServiceErrorView {
    ServiceErrorView { kind: ErrorKind::TokenFormat, message: "wrong token format"@ }
}

/// The token of a request, from the text of its `Authorization` header.
///
/// A request without the header has no token, which is no error: it is
/// anonymous. A header must hold the bearer prefix; what follows the prefix is
/// the token, whatever it is.
pub fn extract_token<'a>(header: Option<&'a str>) -> (token: Result<Option<&'a str>, ServiceError>)
    ensures
        match header {
            None => token == Ok::<Option<&str>, ServiceError>(None),
            Some(text) => if bearer_prefix().is_prefix_of(text@) {
                token matches Ok(Some(found)) && found@ == text@.skip(bearer_prefix().len() as int)
            } else {
                token matches Err(e) && e@ == wrong_token_format()
            },
        },
{
    let Some(text) = header else {
        return Ok(None);
    };
    let prefix = "Bearer ";
    proof {
        reveal_strlit("Bearer ");
    }
    let length = text.unicode_len();
    if length < 7 {
        return Err(ServiceError::new(ErrorKind::TokenFormat, "wrong token format"));
    }
    let mut i: usize = 0;
    while i < 7
        invariant
            i <= 7,
            header == Some(text),
            7 <= length == text@.len(),
            prefix@ == bearer_prefix(),
            prefix@.len() == 7,
            forall|j: int| 0 <= j < i ==> text@[j] == prefix@[j],
        decreases 7 - i,
    {
        if text.get_char(i) != prefix.get_char(i) {
            assert(!bearer_prefix().is_prefix_of(text@)) by {
                if bearer_prefix().is_prefix_of(text@) {
                    assert(text@.subrange(0, 7)[i as int] == prefix@[i as int]);
                }
            }
            return Err(ServiceError::new(ErrorKind::TokenFormat, "wrong token format"));
        }
        i += 1;
    }
    assert(text@.subrange(0, 7) =~= prefix@);
    let found = text.substring_char(7, length);
    assert(found@ =~= text@.skip(7));
    Ok(Some(found))
}

impl ContextExtractor {
    /// The context of a request on `state`. `verified` is what the
    /// verification of the request's token gave, and `None` for a request
    /// without a token: such a request is anonymous, not rejected. A token
    /// that does not verify fails the request.
    pub fn from_request_parts(
        verified: Option<Result<AuthInfo, ServiceError>>,
        state: &Arc<ServiceState>,
    ) -> (extracted: Result<ContextExtractor, ServiceError>)
        ensures
            match verified {
                None => extracted matches Ok(context) && context.0.0 == *state
                    && context.0.1.user_auth is None,
                Some(Ok(auth)) => extracted matches Ok(context) && context.0.0 == *state
                    && context.0.1.user_auth == Some(auth),
                Some(Err(e)) => extracted matches Err(failure) && failure == e,
            },
    {
        let mut user_auth = None;
        if let Some(outcome) = verified {
            user_auth = Some(outcome?);
        }
        Ok(ContextExtractor(Context(Arc::clone(state), HandlerContext { user_auth })))
    }
}

/// The verb of an outbound request.
#[derive(Clone, Copy, Debug, PartialEq, Eq, Structural)]
pub enum HttpMethod {
    Get,
    Post,
    Patch,
    Delete,
}

/// An outbound request to another service, before it is sent: on which client
/// it goes out, with which verb, to which address, with which body, and on
/// whose behalf.
pub struct ServiceRequest<'a, 'b, T = ()> {
    pub client: &'a reqwest::Client,
    pub method: HttpMethod,
    pub url: Option<String>,
    pub body: Option<&'b T>,
    pub auth: AuthInfo,
}

impl<'a, 'b, T> ServiceRequest<'a, 'b, T> {
    /// A request without address and body. Until told otherwise it is a `GET`.
    pub fn new(client: &'a reqwest::Client, auth: AuthInfo) -> (request: Self)
        ensures
            request.client == client,
            request.auth == auth,
            request.method == HttpMethod::Get,
            request.url is None,
            request.body is None,
    {
        Self { client, auth, method: HttpMethod::Get, url: None, body: None }
    }

    /// Addresses the request to `url`; the verb stays.
    pub fn get(self, url: String) -> (request: Self)
        ensures
            request.url == Some(url),
            request.method == self.method,
            request.client == self.client,
            request.body == self.body,
            request.auth == self.auth,
    {
        let mut request = self;
        request.url = Some(url);
        request
    }

    /// Addresses the request to `url` as a `POST`.
    pub fn post(self, url: String) -> (request: Self)
        ensures
            request.url == Some(url),
            request.method == HttpMethod::Post,
            request.client == self.client,
            request.body == self.body,
            request.auth == self.auth,
    {
        let mut request = self;
        request.url = Some(url);
        request.method = HttpMethod::Post;
        request
    }

    /// Addresses the request to `url` as a `PATCH`.
    pub fn patch(self, url: String) -> (request: Self)
        ensures
            request.url == Some(url),
            request.method == HttpMethod::Patch,
            request.client == self.client,
            request.body == self.body,
            request.auth == self.auth,
    {
        let mut request = self;
        request.url = Some(url);
        request.method = HttpMethod::Patch;
        request
    }

    /// Addresses the request to `url` as a `DELETE`.
    pub fn delete(self, url: String) -> (request: Self)
        ensures
            request.url == Some(url),
            request.method == HttpMethod::Delete,
            request.client == self.client,
            request.body == self.body,
            request.auth == self.auth,
    {
        let mut request = self;
        request.url = Some(url);
        request.method = HttpMethod::Delete;
        request
    }

    /// Gives the request the body `body`, to be sent as JSON.
    pub fn json(self, body: &'b T) -> (request: Self)
        ensures
            request.body == Some(body),
            request.url == self.url,
            request.method == self.method,
            request.client == self.client,
            request.auth == self.auth,
    {
        let mut request = self;
        request.body = Some(body);
        request
    }

    /// Sends the request on behalf of `auth`.
    pub fn auth(self, auth: AuthInfo) -> (request: Self)
        ensures
            request.auth == auth,
            request.url == self.url,
            request.method == self.method,
            request.client == self.client,
            request.body == self.body,
    {
        let mut request = self;
        request.auth = auth;
        request
    }
}

/// What a hook can see of the call it runs in.
pub struct HookEnv {
    /// The names under which a repository is registered.
    pub registered: Set<Seq<char>>,
    /// The name of the field being processed, if one is.
    pub field: Option<Seq<char>>,
}

impl HookEnv {
    /// The same call, seen from inside the field `name`.
    pub open spec fn within(self, name: Seq<char>) -> HookEnv {
        HookEnv { registered: self.registered, field: Some(name) }
    }
}

/// The scratch state of one repository call. It is made afresh for each call
/// and never kept beyond it.
pub struct MutationContext<'a> {
    pub context: &'a Context,
    pub current_field: Option<String>,
}

impl<'a> View for MutationContext<'a> {
    type V = HookEnv;

    open spec fn view(&self) -> HookEnv {
        HookEnv {
            registered: self.context.registered(),
            field: match self.current_field {
                Some(name) => Some(name@),
                None => None,
            },
        }
    }
}

impl<'a> MutationContext<'a> {
    pub fn new(context: &'a Context) -> (fresh: Self)
        ensures
            fresh.context == context,
            fresh.current_field is None,
    {
        Self { current_field: None, context }
    }
}

} // verus!
