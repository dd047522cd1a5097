//! The record store: at most one record per identifier, behind one lock.

use vstd::prelude::*;
use crate::movie::{Movie, MovieView, movie_views};

verus! {

/// Why a store operation did not deliver.
#[derive(Debug, Clone, Copy, PartialEq, Eq, Structural)]
pub enum StoreError {
    /// No record is kept under the identifier.
    NotFound,
    /// The lock that guards the records is poisoned.
    Lock,
}

/// `records` holds no identifier twice.
pub open spec fn distinct_ids(records: Seq<Movie>) -> bool {
    forall|i: int, j: int|
        0 <= i < records.len() && 0 <= j < records.len() && i != j
            ==> (#[trigger] records[i]).id@ != (#[trigger] records[j]).id@
}

/// Some record of `records` has the identifier `id`.
pub open spec fn has_id(records: Seq<Movie>, id: Seq<char>) -> bool {
    exists|i: int| 0 <= i < records.len() && (#[trigger] records[i]).id@ == id
}

/// The position of a record with the identifier `id`.
pub open spec fn position_of(records: Seq<Movie>, id: Seq<char>) -> int {
    choose|i: int| 0 <= i < records.len() && (#[trigger] records[i]).id@ == id
}

/// The map from identifier to record that `records` stands for.
pub open spec fn as_map(records: Seq<Movie>) -> Map<Seq<char>, MovieView> {
    Map::new(|id: Seq<char>| has_id(records, id), |id: Seq<char>| records[position_of(records, id)]@)
}

/// `listing` holds each record of `content` once, and nothing else.
pub open spec fn lists(listing: Seq<MovieView>, content: Map<Seq<char>, MovieView>) -> bool {
    &&& forall|i: int|
        0 <= i < listing.len() ==> content.contains_key((#[trigger] listing[i]).id)
            && content[listing[i].id] == listing[i]
    &&& forall|id: Seq<char>|
        content.contains_key(id) ==> exists|i: int|
            0 <= i < listing.len() && (#[trigger] listing[i]).id == id
    &&& forall|i: int, j: int|
        0 <= i < listing.len() && 0 <= j < listing.len() && i != j
            ==> (#[trigger] listing[i]).id != (#[trigger] listing[j]).id
}

/// The records of the service and the state of the lock around them.
///
/// The store stands for a map behind a mutual-exclusion lock. Exclusive access
/// is what `&mut self` gives; `poisoned` records that the lock can no longer be
/// taken, after which every operation fails with [`StoreError::Lock`].
pub struct MovieStore {
    records: Vec<Movie>,
    poisoned: bool,
}

impl View for MovieStore {
    type V = Map<Seq<char>, MovieView>;

    closed spec fn view(&self) -> Map<Seq<char>, MovieView> {
        as_map(self.records@)
    }
}

impl Default for MovieStore {
    fn default() -> (store: Self)
        ensures
            store@ == Map::<Seq<char>, MovieView>::empty(),
            !store.poisoned(),
    {
        MovieStore::new()
    }
}

impl MovieStore {
    #[verifier::type_invariant]
    closed spec fn inv(&self) -> bool {
        distinct_ids(self.records@)
    }

    /// Whether the lock is poisoned.
    pub closed spec fn poisoned(&self) -> bool {
        self.poisoned
    }

    /// Every record is kept under its own identifier, and the records are
    /// finitely many.
    pub proof fn lemma_keyed_by_id(&self)
        ensures
            self@.dom().finite(),
            forall|id: Seq<char>| self@.contains_key(id) ==> (#[trigger] self@[id]).id == id,
    {
        lemma_as_map_finite(self.records@);
    }

    /// An empty store with a sound lock.
    pub fn new() -> (store: Self)
        ensures
            store@ == Map::<Seq<char>, MovieView>::empty(),
            !store.poisoned(),
    {
        let store = MovieStore { records: Vec::new(), poisoned: false };
        assert(store@ =~= Map::<Seq<char>, MovieView>::empty());
        store
    }

    /// Marks the lock as poisoned. The records stay as they are.
    pub fn poison(&mut self)
        ensures
            final(self).poisoned(),
            final(self)@ == old(self)@,
    {
        proof {
            use_type_invariant(&*self);
        }
        self.poisoned = true;
    }

    /// Whether the lock is poisoned.
    pub fn is_poisoned(&self) -> (poisoned: bool)
        ensures
            poisoned == self.poisoned(),
    {
        self.poisoned
    }

    /// The position of the record with the identifier `id`, if there is one.
    fn find(&self, id: &String) -> (found: Option<usize>)
        ensures
            match found {
                Some(i) => i < self.records@.len() && self.records@[i as int].id@ == id@,
                None => !has_id(self.records@, id@),
            },
    {
        let mut i: usize = 0;
        while i < self.records.len()
            invariant
                i <= self.records@.len(),
                forall|j: int| 0 <= j < i ==> (#[trigger] self.records@[j]).id@ != id@,
            decreases self.records@.len() - i,
        {
            if self.records[i].id == *id {
                return Some(i);
            }
            i += 1;
        }
        None
    }

    /// Whether a record is kept under `id`.
    pub fn contains(&self, id: &String) -> (found: Result<bool, StoreError>)
        ensures
            found == if self.poisoned() {
                Err::<bool, StoreError>(StoreError::Lock)
            } else {
                Ok(self@.contains_key(id@))
            },
    {
        if self.poisoned {
            return Err(StoreError::Lock);
        }
        Ok(self.find(id).is_some())
    }

    /// Keeps `movie` under its identifier, in place of the record that was
    /// kept under it before, if there was one.
    pub fn put(&mut self, movie: Movie) -> (done: Result<(), StoreError>)
        ensures
            final(self).poisoned() == old(self).poisoned(),
            old(self).poisoned() ==> done == Err::<(), StoreError>(StoreError::Lock) && final(self)@
                == old(self)@,
            !old(self).poisoned() ==> done == Ok::<(), StoreError>(()) && final(self)@ == old(self)@.insert(movie.id@, movie@),
    {
        if self.poisoned {
            return Err(StoreError::Lock);
        }
        proof {
            use_type_invariant(&*self);
        }
        let found = self.find(&movie.id);
        let mut records: Vec<Movie> = Vec::new();
        std::mem::swap(&mut self.records, &mut records);
        let ghost before = records@;
        match found {
            Some(i) => {
                proof {
                    lemma_as_map_update(before, i as int, movie);
                }
                records[i] = movie;
            },
            None => {
                proof {
                    lemma_as_map_push(before, movie);
                }
                records.push(movie);
            },
        }
        self.records = records;
        Ok(())
    }

    /// The record kept under `id`.
    pub fn get(&self, id: &String) -> (found: Result<Movie, StoreError>)
        ensures
            self.poisoned() ==> found == Err::<Movie, StoreError>(StoreError::Lock),
            !self.poisoned() && !self@.contains_key(id@) ==> found == Err::<Movie, StoreError>(
                StoreError::NotFound,
            ),
            !self.poisoned() && self@.contains_key(id@) ==> found is Ok && found->Ok_0@
                == self@[id@],
    {
        if self.poisoned {
            return Err(StoreError::Lock);
        }
        proof {
            use_type_invariant(self);
        }
        match self.find(id) {
            Some(i) => {
                proof {
                    lemma_as_map_at(self.records@, i as int);
                }
                Ok(self.records[i].clone())
            },
            None => Err(StoreError::NotFound),
        }
    }

    /// All records, each once, in no order that a caller may rely on.
    pub fn list(&self) -> (found: Result<Vec<Movie>, StoreError>)
        ensures
            self.poisoned() ==> found == Err::<Vec<Movie>, StoreError>(StoreError::Lock),
            !self.poisoned() ==> found is Ok && lists(movie_views(found->Ok_0@), self@),
    {
        if self.poisoned {
            return Err(StoreError::Lock);
        }
        proof {
            use_type_invariant(self);
        }
        let mut listing: Vec<Movie> = Vec::new();
        let mut i: usize = 0;
        while i < self.records.len()
            invariant
                i <= self.records@.len(),
                listing@.len() == i,
                forall|j: int| 0 <= j < i ==> (#[trigger] listing@[j])@ == self.records@[j]@,
            decreases self.records@.len() - i,
        {
            listing.push(self.records[i].clone());
            i += 1;
        }
        proof {
            lemma_as_map_lists(self.records@, listing@);
        }
        Ok(listing)
    }

    /// Removes the record kept under `id`. The result says whether there was
    /// one.
    pub fn delete(&mut self, id: &String) -> (removed: Result<bool, StoreError>)
        ensures
            final(self).poisoned() == old(self).poisoned(),
            old(self).poisoned() ==> removed == Err::<bool, StoreError>(StoreError::Lock) && final(self)@ == old(self)@,
            !old(self).poisoned() ==> removed == Ok::<bool, StoreError>(
                old(self)@.contains_key(id@),
            ) && final(self)@ == old(self)@.remove(id@),
    {
        if self.poisoned {
            return Err(StoreError::Lock);
        }
        proof {
            use_type_invariant(&*self);
        }
        match self.find(id) {
            Some(i) => {
                let mut records: Vec<Movie> = Vec::new();
                std::mem::swap(&mut self.records, &mut records);
                proof {
                    lemma_as_map_remove(records@, i as int);
                }
                records.remove(i);
                self.records = records;
                Ok(true)
            },
            None => {
                assert(self@ =~= self@.remove(id@));
                Ok(false)
            },
        }
    }
}

/// A record of `records` is what the map holds under its identifier.
proof fn lemma_as_map_at(records: Seq<Movie>, i: int)
    requires
        distinct_ids(records),
        0 <= i < records.len(),
    ensures
        as_map(records).contains_key(records[i].id@),
        as_map(records)[records[i].id@] == records[i]@,
{
    let id = records[i].id@;
    assert(has_id(records, id));
    let p = position_of(records, id);
    assert(p == i);
}

/// The map of a sequence of records has a finite domain, and keeps each
/// record under its own identifier.
proof fn lemma_as_map_finite(records: Seq<Movie>)
    ensures
        as_map(records).dom().finite(),
        forall|id: Seq<char>|
            as_map(records).contains_key(id) ==> (#[trigger] as_map(records)[id]).id == id,
    decreases records.len(),
{
    if records.len() == 0 {
        assert(as_map(records).dom() =~= Set::<Seq<char>>::empty());
    } else {
        let front = records.drop_last();
        lemma_as_map_finite(front);
        let last = records.last();
        assert forall|id: Seq<char>|
            as_map(records).dom().contains(id) <==> as_map(front).dom().insert(last.id@).contains(
                id,
            ) by {
            if has_id(records, id) {
                let p = position_of(records, id);
                if p < front.len() {
                    assert(front[p].id@ == id);
                }
            }
            if has_id(front, id) {
                let p = position_of(front, id);
                assert(records[p].id@ == id);
            }
            if id == last.id@ {
                assert(records[records.len() - 1].id@ == id);
            }
        }
        assert(as_map(records).dom() =~= as_map(front).dom().insert(last.id@));
    }
}

/// Replacing the record at `i` by one with the same identifier is an insert.
proof fn lemma_as_map_update(records: Seq<Movie>, i: int, movie: Movie)
    requires
        distinct_ids(records),
        0 <= i < records.len(),
        records[i].id@ == movie.id@,
    ensures
        distinct_ids(records.update(i, movie)),
        as_map(records.update(i, movie)) == as_map(records).insert(movie.id@, movie@),
{
    let after = records.update(i, movie);
    assert(distinct_ids(after)) by {
        assert forall|a: int, b: int|
            0 <= a < after.len() && 0 <= b < after.len() && a != b implies (#[trigger] after[a]).id@
            != (#[trigger] after[b]).id@ by {
            assert(records[a].id@ != records[b].id@);
        }
    }
    assert forall|id: Seq<char>| has_id(after, id) <==> (id == movie.id@ || has_id(records, id)) by {
        if has_id(after, id) {
            let p = position_of(after, id);
            assert(records[p].id@ == id);
        }
        if has_id(records, id) {
            let p = position_of(records, id);
            assert(after[p].id@ == id);
        }
        if id == movie.id@ {
            assert(after[i].id@ == id);
        }
    }
    assert forall|id: Seq<char>| has_id(after, id) implies #[trigger] as_map(after)[id] == as_map(
        records,
    ).insert(movie.id@, movie@)[id] by {
        let p = position_of(after, id);
        lemma_as_map_at(after, p);
        if id != movie.id@ {
            assert(p != i);
            lemma_as_map_at(records, p);
        }
    }
    assert(as_map(after) =~= as_map(records).insert(movie.id@, movie@));
}

/// Appending a record with a new identifier is an insert.
proof fn lemma_as_map_push(records: Seq<Movie>, movie: Movie)
    requires
        distinct_ids(records),
        !has_id(records, movie.id@),
    ensures
        distinct_ids(records.push(movie)),
        as_map(records.push(movie)) == as_map(records).insert(movie.id@, movie@),
{
    let after = records.push(movie);
    assert(distinct_ids(after)) by {
        assert forall|a: int, b: int|
            0 <= a < after.len() && 0 <= b < after.len() && a != b implies (#[trigger] after[a]).id@
            != (#[trigger] after[b]).id@ by {
            if a < records.len() && b < records.len() {
                assert(records[a].id@ != records[b].id@);
            } else if a < records.len() {
                assert(records[a].id@ != movie.id@);
            } else {
                assert(records[b].id@ != movie.id@);
            }
        }
    }
    assert forall|id: Seq<char>| has_id(after, id) <==> (id == movie.id@ || has_id(records, id)) by {
        if has_id(after, id) {
            let p = position_of(after, id);
            if p < records.len() {
                assert(records[p].id@ == id);
            }
        }
        if has_id(records, id) {
            let p = position_of(records, id);
            assert(after[p].id@ == id);
        }
        if id == movie.id@ {
            assert(after[records.len() as int].id@ == id);
        }
    }
    assert forall|id: Seq<char>| has_id(after, id) implies #[trigger] as_map(after)[id] == as_map(
        records,
    ).insert(movie.id@, movie@)[id] by {
        let p = position_of(after, id);
        lemma_as_map_at(after, p);
        if id != movie.id@ {
            assert(p < records.len());
            lemma_as_map_at(records, p);
        }
    }
    assert(as_map(after) =~= as_map(records).insert(movie.id@, movie@));
}

/// Taking the record at `i` out removes its identifier from the map.
proof fn lemma_as_map_remove(records: Seq<Movie>, i: int)
    requires
        distinct_ids(records),
        0 <= i < records.len(),
    ensures
        distinct_ids(records.remove(i)),
        as_map(records.remove(i)) == as_map(records).remove(records[i].id@),
{
    let after = records.remove(i);
    let gone = records[i].id@;
    assert forall|a: int| 0 <= a < after.len() implies #[trigger] after[a] == records[if a < i {
        a
    } else {
        a + 1
    }] by {}
    assert(distinct_ids(after)) by {
        assert forall|a: int, b: int|
            0 <= a < after.len() && 0 <= b < after.len() && a != b implies (#[trigger] after[a]).id@
            != (#[trigger] after[b]).id@ by {
            let a0 = if a < i { a } else { a + 1 };
            let b0 = if b < i { b } else { b + 1 };
            assert(records[a0].id@ != records[b0].id@);
        }
    }
    assert forall|id: Seq<char>| has_id(after, id) <==> (id != gone && has_id(records, id)) by {
        if has_id(after, id) {
            let p = position_of(after, id);
            let p0 = if p < i { p } else { p + 1 };
            assert(records[p0].id@ == id);
            assert(records[p0].id@ != records[i].id@);
        }
        if id != gone && has_id(records, id) {
            let p = position_of(records, id);
            let q = if p < i { p } else { p - 1 };
            assert(after[q].id@ == id);
        }
    }
    assert forall|id: Seq<char>| has_id(after, id) implies #[trigger] as_map(after)[id] == as_map(
        records,
    ).remove(gone)[id] by {
        let p = position_of(after, id);
        lemma_as_map_at(after, p);
        let p0 = if p < i { p } else { p + 1 };
        lemma_as_map_at(records, p0);
    }
    assert(as_map(after) =~= as_map(records).remove(gone));
}

/// A copy of the records, one for one, lists the map they stand for.
proof fn lemma_as_map_lists(records: Seq<Movie>, listing: Seq<Movie>)
    requires
        distinct_ids(records),
        listing.len() == records.len(),
        forall|j: int| 0 <= j < records.len() ==> (#[trigger] listing[j])@ == records[j]@,
    ensures
        lists(movie_views(listing), as_map(records)),
{
    let views = movie_views(listing);
    assert forall|i: int| 0 <= i < views.len() implies as_map(records).contains_key(
        (#[trigger] views[i]).id,
    ) && as_map(records)[views[i].id] == views[i] by {
        assert(listing[i]@ == records[i]@);
        lemma_as_map_at(records, i);
    }
    assert forall|id: Seq<char>| as_map(records).contains_key(id) implies exists|i: int|
        0 <= i < views.len() && (#[trigger] views[i]).id == id by {
        let p = position_of(records, id);
        assert(listing[p]@ == records[p]@);
        assert(views[p].id == id);
    }
    assert forall|i: int, j: int|
        0 <= i < views.len() && 0 <= j < views.len() && i != j implies (#[trigger] views[i]).id
        != (#[trigger] views[j]).id by {
        assert(listing[i]@ == records[i]@);
        assert(listing[j]@ == records[j]@);
        assert(records[i].id@ != records[j].id@);
    }
}

} // verus!
