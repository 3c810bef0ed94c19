//! A repository that keeps its records in memory, in the order in which they
//! were created.
//!
//! It honours the identity that a record is given with, and gives one to a
//! record that has none: the one after the highest in the store. Deleting
//! checks strictly that the identity exists, and `find_all` lists the records
//! in the order of their creation.

use vstd::prelude::*;
use crate::services::repositories::{ErrorClass, Record, Repository, RepositoryError};
use crate::services::repositories::store::{
    create_in,
    delete_in,
    find_in,
    highest_identity,
    holds,
    index_of,
    lemma_create_inserts,
    lemma_create_keeps_validity,
    lemma_delete_keeps_validity,
    lemma_delete_removes,
    lemma_index_of_is_the_place,
    lemma_next_identity_is_free,
    lemma_records_get,
    lemma_records_listed_once,
    lemma_update_keeps_validity,
    lemma_update_overwrites,
    records_of,
    update_in,
    valid_store,
};

verus! {

/// Whether every clone of a `T` equals the value it was made from.
pub open spec fn clones_exactly<T: Clone>() -> bool {
    forall|value: T, copy: T| #[trigger] cloned(value, copy) ==> value == copy
}

/// A repository whose store is a vector in memory.
pub struct MemoryRepository<T> {
    rows: Vec<Record<T>>,
}

impl<T: Clone> MemoryRepository<T> {
    /// The records of the store, in the order of their creation.
    pub closed spec fn entities(&self) -> Seq<Record<T>> {
        self.rows@
    }

    /// A repository with an empty store.
    pub fn new() -> (repository: Self)
        requires
            clones_exactly::<T>(),
        ensures
            repository.entities() == Seq::<Record<T>>::empty(),
            repository.well_formed(),
    {
        MemoryRepository { rows: Vec::new() }
    }

    /// Where the record with the identity `id` stands, if there is one.
    fn position(&self, id: i32) -> (place: Option<usize>)
        requires
            valid_store(self.entities()),
        ensures
            match place {
                Some(at) => holds(self.entities(), id) && at == index_of(self.entities(), id),
                None => !holds(self.entities(), id),
            },
    {
        let mut at: usize = 0;
        while at < self.rows.len()
            invariant
                at <= self.rows@.len(),
                valid_store(self.rows@),
                forall|i: int| 0 <= i < at ==> (#[trigger] self.rows@[i]).id != id,
            decreases self.rows@.len() - at,
        {
            if self.rows[at].id == id {
                proof {
                    lemma_index_of_is_the_place(self.rows@, at as int);
                }
                return Some(at);
            }
            at += 1;
        }
        None
    }

    /// The highest identity in the store, and zero where there is none above
    /// zero.
    fn highest(&self) -> (highest: i32)
        ensures
            highest == highest_identity(self.entities()),
    {
        let mut highest: i32 = 0;
        let mut at: usize = 0;
        while at < self.rows.len()
            invariant
                at <= self.rows@.len(),
                highest == highest_identity(self.rows@.take(at as int)),
            decreases self.rows@.len() - at,
        {
            proof {
                assert(self.rows@.take(at + 1).drop_last() =~= self.rows@.take(at as int));
            }
            if self.rows[at].id > highest {
                highest = self.rows[at].id;
            }
            at += 1;
        }
        proof {
            assert(self.rows@.take(at as int) =~= self.rows@);
        }
        highest
    }
}

impl<T: Clone> Repository<Record<T>> for MemoryRepository<T> {
    type Error = RepositoryError;

    open spec fn well_formed(&self) -> bool {
        valid_store(self.entities()) && clones_exactly::<T>()
    }

    open spec fn records(&self) -> Map<i32, Record<T>> {
        records_of(self.entities())
    }

    open spec fn identity(model: Record<T>) -> i32 {
        model.id
    }

    open spec fn same_content(given: Record<T>, stored: Record<T>) -> bool {
        given.value == stored.value
    }

    open spec fn class(error: RepositoryError) -> ErrorClass {
        error.class()
    }

    /// Never fails: the record with the identity `id`, or `None`.
    fn find_by_id(&self, id: i32) -> (found: Result<Option<Record<T>>, RepositoryError>)
        ensures
            found == Ok::<_, RepositoryError>(find_in(self.entities(), id)),
    {
        proof {
            lemma_records_get(self.entities(), id);
        }
        match self.position(id) {
            Some(at) => Ok(Some(self.rows[at].clone())),
            None => Ok(None),
        }
    }

    /// Never fails: the records in the order of their creation.
    fn find_all(&self) -> (all: Result<Vec<Record<T>>, RepositoryError>)
        ensures
            all matches Ok(models) && models@ == self.entities(),
    {
        let mut models: Vec<Record<T>> = Vec::new();
        let mut at: usize = 0;
        while at < self.rows.len()
            invariant
                at <= self.rows@.len(),
                clones_exactly::<T>(),
                models@ == self.rows@.take(at as int),
            decreases self.rows@.len() - at,
        {
            models.push(self.rows[at].clone());
            proof {
                assert(models@ =~= self.rows@.take(at + 1));
            }
            at += 1;
        }
        proof {
            assert(self.rows@.take(at as int) =~= self.rows@);
            lemma_records_listed_once(self.entities());
        }
        Ok(models)
    }

    /// Fails, as a conflict, exactly where the identity is taken or none is
    /// left; else the record comes last in the store.
    fn create(&mut self, model: Record<T>) -> (created: Result<Record<T>, RepositoryError>)
        ensures
            match create_in(old(self).entities(), model) {
                Ok(after) => final(self).entities() == after && created == Ok::<
                    _,
                    RepositoryError,
                >(after.last()),
                Err(error) => final(self).entities() == old(self).entities() && created == Err::<
                    Record<T>,
                    _,
                >(error),
            },
    {
        proof {
            lemma_create_keeps_validity(self.entities(), model);
            lemma_create_inserts(self.entities(), model);
            lemma_next_identity_is_free(self.entities());
        }
        let id: i32 = if model.id == 0 {
            let highest = self.highest();
            if highest == i32::MAX {
                return Err(RepositoryError::Conflict);
            }
            highest + 1
        } else {
            if self.position(model.id).is_some() {
                return Err(RepositoryError::Conflict);
            }
            model.id
        };
        let stored = Record { id, value: model.value };
        let copy = stored.clone();
        self.rows.push(stored);
        Ok(copy)
    }

    /// Fails, as not found, exactly where the store has no record with the
    /// identity of `model`; else `model` takes that record's place.
    fn update(&mut self, model: Record<T>) -> (updated: Result<Record<T>, RepositoryError>)
        ensures
            match update_in(old(self).entities(), model) {
                Ok(after) => final(self).entities() == after && updated == Ok::<
                    _,
                    RepositoryError,
                >(model),
                Err(error) => final(self).entities() == old(self).entities() && updated == Err::<
                    Record<T>,
                    _,
                >(error),
            },
    {
        proof {
            lemma_update_keeps_validity(self.entities(), model);
            lemma_update_overwrites(self.entities(), model);
        }
        match self.position(model.id) {
            Some(at) => {
                let copy = model.clone();
                self.rows[at] = model;
                Ok(copy)
            },
            None => Err(RepositoryError::NotFound),
        }
    }

    /// Fails, as not found, exactly where the store has no record with the
    /// identity `id`; else that record leaves and the others keep their
    /// order.
    fn delete(&mut self, id: i32) -> (deleted: Result<(), RepositoryError>)
        ensures
            match delete_in(old(self).entities(), id) {
                Ok(after) => final(self).entities() == after && deleted is Ok,
                Err(error) => final(self).entities() == old(self).entities() && deleted == Err::<
                    (),
                    _,
                >(error),
            },
    {
        proof {
            lemma_delete_keeps_validity(self.entities(), id);
            lemma_delete_removes(self.entities(), id);
        }
        match self.position(id) {
            Some(at) => {
                self.rows.remove(at);
                Ok(())
            },
            None => Err(RepositoryError::NotFound),
        }
    }
}

} // verus!
