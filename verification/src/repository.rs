//! Repositories: what an operation is, where an entity's records live, and
//! the handle through which a caller reaches them.

use core::marker::PhantomData;
use std::sync::Arc;
use vstd::prelude::*;

pub mod http_repository;
pub mod mongo;
pub mod store;

use crate::repository::http_repository::HttpRepositoryClient;
use crate::repository::mongo::MongoRepository;

verus! {

/// The kind of repository operation a hook runs for.
#[derive(Clone, Copy, Debug, PartialEq, Eq, Structural)]
pub enum Method {
    Insert,
    Find,
    FindByDoc,
    Delete,
}

/// Where the records of one entity live.
#[derive(Debug, PartialEq, Eq)]
pub enum Backend {
    /// A collection of a document store, reached directly.
    DocumentStore { uri: String, database: String, collection: String },
    /// Another service that owns the records and exposes the same four
    /// operations over HTTP.
    RemoteProxy { origin: String },
}

impl Clone for Backend {
    fn clone(&self) -> (copy: Backend)
        ensures
            copy == *self,
    {
        match self {
            Backend::DocumentStore { uri, database, collection } => Backend::DocumentStore {
                uri: uri.clone(),
                database: database.clone(),
                collection: collection.clone(),
            },
            Backend::RemoteProxy { origin } => Backend::RemoteProxy { origin: origin.clone() },
        }
    }
}

/// The repository of the entity `T`: a handle on its backend. Copies of a
/// handle share the backend.
pub struct Repository<T> {
    pub backend: Arc<Backend>,
    pub entity: PhantomData<T>,
}

impl<T> Repository<T> {
    pub fn new(backend: Backend) -> (repository: Repository<T>)
        ensures
            *repository.backend == backend,
    {
        Repository { backend: Arc::new(backend), entity: PhantomData }
    }


    /// The repository whose records live in the collection of `store`.
    pub fn mongo(store: MongoRepository<T>) -> (repository: Repository<T>)
        ensures
            *repository.backend == (Backend::DocumentStore {
                uri: store.uri,
                database: store.database,
                collection: store.collection,
            }),
    {
        Repository::new(
            Backend::DocumentStore {
                uri: store.uri,
                database: store.database,
                collection: store.collection,
            },
        )
    }

    /// The repository whose records live in the service that `client` asks.
    pub fn http(client: HttpRepositoryClient<T>) -> (repository: Repository<T>)
        ensures
            *repository.backend == (Backend::RemoteProxy { origin: client.origin }),
    {
        Repository::new(Backend::RemoteProxy { origin: client.origin })
    }

    /// The document-store backend of this repository, if that is its backend.
    pub fn document_store(&self) -> (store: Option<MongoRepository<T>>)
        ensures
            match *self.backend {
                Backend::DocumentStore { uri, database, collection } => store matches Some(s)
                    && s.uri == uri && s.database == database && s.collection == collection,
                Backend::RemoteProxy { .. } => store is None,
            },
    {
        match &*self.backend {
            Backend::DocumentStore { uri, database, collection } => Some(
                MongoRepository {
                    uri: uri.clone(),
                    database: database.clone(),
                    collection: collection.clone(),
                    entity: PhantomData,
                },
            ),
            Backend::RemoteProxy { .. } => None,
        }
    }

    /// The remote-proxy backend of this repository, if that is its backend.
    pub fn remote_proxy(&self) -> (client: Option<HttpRepositoryClient<T>>)
        ensures
            match *self.backend {
                Backend::DocumentStore { .. } => client is None,
                Backend::RemoteProxy { origin } => client matches Some(c) && c.origin == origin,
            },
    {
        match &*self.backend {
            Backend::DocumentStore { .. } => None,
            Backend::RemoteProxy { origin } => Some(
                HttpRepositoryClient { origin: origin.clone(), entity: PhantomData },
            ),
        }
    }
}

impl<T> Clone for Repository<T> {
    fn clone(&self) -> (copy: Repository<T>)
        ensures
            copy.backend == self.backend,
    {
        Repository { backend: Arc::clone(&self.backend), entity: PhantomData }
    }
}

} // verus!
