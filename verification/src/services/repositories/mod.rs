//! Repositories: uniform create, read, update and delete over one kind of
//! entity, against a store that all repositories of a process share.

use vstd::prelude::*;
use sea_orm::DatabaseConnection;
use std::sync::Arc;

pub mod memory;
pub mod store;

verus! {

/// Why a repository operation failed.
#[derive(Debug, PartialEq, Eq)]
pub enum RepositoryError {
    /// No entity has the identity that the operation names.
    NotFound,
    /// The operation would break the rule that identities are unique.
    Conflict,
    /// The store itself failed; the cause is kept as text.
    Backend(String),
}

impl Clone for RepositoryError {
    fn clone(&self) -> (copy: Self)
        ensures
            copy == *self,
    {
        match self {
            RepositoryError::NotFound => RepositoryError::NotFound,
            RepositoryError::Conflict => RepositoryError::Conflict,
            RepositoryError::Backend(cause) => RepositoryError::Backend(cause.clone()),
        }
    }
}

/// An entity as a store keeps it: its identity, and the value it carries.
///
/// Identity zero marks an entity that has not been given an identity yet; no
/// stored entity has it.
#[derive(Debug, PartialEq, Eq)]
pub struct Record<T> {
    pub id: i32,
    pub value: T,
}

impl<T: Clone> Clone for Record<T> {
    fn clone(&self) -> (copy: Self)
        ensures
            copy.id == self.id,
            cloned(self.value, copy.value),
    {
        Record { id: self.id, value: self.value.clone() }
    }
}

/// The class of a repository failure, whatever error type carries it.
#[derive(Clone, Copy, Debug, PartialEq, Eq, Structural)]
pub enum ErrorClass {
    /// No entity has the identity that the operation names.
    NotFound,
    /// The operation would break the rule that identities are unique.
    Conflict,
    /// The store itself failed.
    Backend,
}

impl RepositoryError {
    /// The class of the error.
    pub open spec fn class(self) -> ErrorClass {
        match self {
            RepositoryError::NotFound => ErrorClass::NotFound,
            RepositoryError::Conflict => ErrorClass::Conflict,
            RepositoryError::Backend(_) => ErrorClass::Backend,
        }
    }

    /// The class of the error.
    pub fn kind(&self) -> (class: ErrorClass)
        ensures
            class == self.class(),
    {
        match self {
            RepositoryError::NotFound => ErrorClass::NotFound,
            RepositoryError::Conflict => ErrorClass::Conflict,
            RepositoryError::Backend(_) => ErrorClass::Backend,
        }
    }
}

/// Uniform create, read, update and delete over the entities of one kind.
///
/// A repository is described by what its store holds, each entity under its
/// identity. Reading leaves the store as it is, and so does every operation
/// that fails. Absence is an error for `update` and `delete`, never for the
/// two reading operations, which fail only where the store itself fails. In
/// which order `find_all` lists the entities is the store's own affair.
pub trait Repository<M> {
    /// The error that the operations fail with.
    type Error;

    /// Whether the repository is in working order.
    spec fn well_formed(&self) -> bool;

    /// What the store holds: each entity under its identity.
    spec fn records(&self) -> Map<i32, M>;

    /// The identity that an entity carries.
    spec fn identity(model: M) -> i32;

    /// Whether `stored` is `given` but for the fields that the store assigns.
    spec fn same_content(given: M, stored: M) -> bool;

    /// The class of a failure.
    spec fn class(error: Self::Error) -> ErrorClass;

    /// The entity with the identity `id`, or `None` where there is none:
    /// absence is no error.
    fn find_by_id(&self, id: i32) -> (found: Result<Option<M>, Self::Error>)
        requires
            self.well_formed(),
        ensures
            match found {
                Ok(model) => model == self.records().get(id),
                Err(error) => Self::class(error) == ErrorClass::Backend,
            },
    ;

    /// All entities, each once; none where the store is empty.
    fn find_all(&self) -> (all: Result<Vec<M>, Self::Error>)
        requires
            self.well_formed(),
        ensures
            match all {
                Ok(models) => models@.no_duplicates() && models@.to_set()
                    == self.records().values(),
                Err(error) => Self::class(error) == ErrorClass::Backend,
            },
    ;

    /// Stores a new entity and returns it as stored, under an identity that
    /// was free.
    fn create(&mut self, model: M) -> (created: Result<M, Self::Error>)
        requires
            old(self).well_formed(),
        ensures
            final(self).well_formed(),
            match created {
                Ok(stored) => {
                    &&& Self::same_content(model, stored)
                    &&& !old(self).records().contains_key(Self::identity(stored))
                    &&& final(self).records() == old(self).records().insert(
                        Self::identity(stored),
                        stored,
                    )
                },
                Err(error) => {
                    &&& final(self).records() == old(self).records()
                    &&& Self::class(error) != ErrorClass::NotFound
                },
            },
    ;

    /// Replaces the entity that has the identity of `model` and returns it as
    /// stored. Where no entity has that identity this fails, as not found
    /// unless the store itself fails, and nothing is inserted.
    fn update(&mut self, model: M) -> (updated: Result<M, Self::Error>)
        requires
            old(self).well_formed(),
        ensures
            final(self).well_formed(),
            match updated {
                Ok(stored) => {
                    &&& old(self).records().contains_key(Self::identity(model))
                    &&& Self::same_content(model, stored)
                    &&& Self::identity(stored) == Self::identity(model)
                    &&& final(self).records() == old(self).records().insert(
                        Self::identity(model),
                        stored,
                    )
                },
                Err(error) => {
                    &&& final(self).records() == old(self).records()
                    &&& Self::class(error) == ErrorClass::NotFound ==> !old(
                        self,
                    ).records().contains_key(Self::identity(model))
                    &&& !old(self).records().contains_key(Self::identity(model))
                        ==> Self::class(error) != ErrorClass::Conflict
                },
            },
    ;

    /// Removes the entity with the identity `id`. Where there is none this
    /// fails, as not found unless the store itself fails.
    fn delete(&mut self, id: i32) -> (deleted: Result<(), Self::Error>)
        requires
            old(self).well_formed(),
        ensures
            final(self).well_formed(),
            match deleted {
                Ok(_) => old(self).records().contains_key(id) && final(self).records() == old(
                    self,
                ).records().remove(id),
                Err(error) => {
                    &&& final(self).records() == old(self).records()
                    &&& Self::class(error) == ErrorClass::NotFound ==> !old(
                        self,
                    ).records().contains_key(id)
                    &&& !old(self).records().contains_key(id) ==> Self::class(error)
                        != ErrorClass::Conflict
                },
            },
    ;
}

/// What repositories are built from: the shared connection handle. The
/// context neither opens nor closes the connection.
pub struct RepositoryContext {
    /// The shared database connection.
    pub connection: Arc<DatabaseConnection>,
}

impl RepositoryContext {
    /// Takes a share of the connection handle.
    pub fn new(connection: Arc<DatabaseConnection>) -> (context: Self)
        ensures
            context.connection == connection,
    {
        RepositoryContext { connection }
    }
}

} // verus!
