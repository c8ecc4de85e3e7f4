//! The repository: an in-memory table of `Person` rows with the five
//! storage operations. Ids are assigned by the table itself, starting
//! at 1, and are unique among the stored rows at all times.

use vstd::prelude::*;

use crate::person::{drop_id, with_id, InsertablePerson, InsertableView, Person, PersonView};

verus! {

/// Storage outcome taxonomy: a lookup that matched no row, or any
/// other storage failure, all collapsed to one kind.
#[derive(Clone, Copy, Debug, PartialEq, Eq, Structural)]
pub enum RepoError {
    NotFound,
    StorageFailure,
}

/// Mathematical state of the table: the stored rows in storage order,
/// and the id the next insert will assign.
pub struct StoreView {
    pub rows: Seq<PersonView>,
    pub next_id: int,
}

/// Whether some stored row carries the id `id`.
pub open spec fn contains_id(rows: Seq<PersonView>, id: int) -> bool {
    exists|i: int| 0 <= i < rows.len() && #[trigger] rows[i].id == id
}

/// The stored row carrying the id `id` (meaningful when ids are
/// unique and `contains_id` holds).
pub open spec fn row_with_id(rows: Seq<PersonView>, id: int) -> PersonView {
    rows[choose|i: int| 0 <= i < rows.len() && #[trigger] rows[i].id == id]
}

/// The rows after replacing every row carrying `id` by `row`.
pub open spec fn update_rows(rows: Seq<PersonView>, id: int, row: PersonView) -> Seq<PersonView> {
    Seq::new(rows.len(), |i: int| if rows[i].id == id { row } else { rows[i] })
}

/// Well-formedness of a table state: every stored id was assigned by
/// the table (so lies in `[1, next_id)`), and no id occurs twice.
pub open spec fn rows_wf(rows: Seq<PersonView>, next_id: int) -> bool {
    &&& forall|i: int| 0 <= i < rows.len() ==> 1 <= #[trigger] rows[i].id < next_id
    &&& forall|i: int, j: int|
        #![trigger rows[i].id, rows[j].id]
        0 <= i < rows.len() && 0 <= j < rows.len() && i != j ==> rows[i].id != rows[j].id
}

/// The table backing the service: all rows live here, keyed by their
/// storage-assigned id.
pub struct Store {
    rows: Vec<Person>,
    next_id: i32,
}

impl View for Store {
    type V = StoreView;

    closed spec fn view(&self) -> StoreView {
        StoreView {
            rows: self.rows@.map_values(|p: Person| p@),
            next_id: self.next_id as int,
        }
    }
}

impl Store {
    /// The table's invariant: well-formed rows, and a next id that an
    /// `i32` can still hold.
    pub open spec fn wf(self) -> bool {
        &&& rows_wf(self@.rows, self@.next_id)
        &&& 1 <= self@.next_id <= i32::MAX
    }

    /// An empty table; the first insert will assign id 1.
    pub fn new() -> (s: Store)
        ensures
            s.wf(),
            s@.rows == Seq::<PersonView>::empty(),
            s@.next_id == 1,
    {
        let s = Store { rows: Vec::new(), next_id: 1 };
        proof {
            assert(s@.rows =~= Seq::<PersonView>::empty());
        }
        s
    }

    /// Lists the stored rows, in storage order, each copied field for
    /// field.
    pub fn all(&self) -> (r: Result<Vec<Person>, RepoError>)
        ensures
            r matches Ok(v) && v@.map_values(|p: Person| p@) == self@.rows,
    {
        let mut out: Vec<Person> = Vec::new();
        let mut i: usize = 0;
        while i < self.rows.len()
            invariant
                i <= self.rows.len(),
                out.len() == i,
                forall|k: int| 0 <= k < i ==> #[trigger] out@[k]@ == self@.rows[k],
            decreases self.rows.len() - i,
        {
            out.push(self.rows[i].duplicate());
            i = i + 1;
        }
        proof {
            assert(out@.map_values(|p: Person| p@) =~= self@.rows);
        }
        Ok(out)
    }

    /// Looks up the row carrying `id`; reports `NotFound` exactly when
    /// no stored row carries it.
    pub fn get(&self, id: i32) -> (r: Result<Person, RepoError>)
        requires
            self.wf(),
        ensures
            contains_id(self@.rows, id as int) ==> (r matches Ok(p) && p@ == row_with_id(
                self@.rows,
                id as int,
            )),
            !contains_id(self@.rows, id as int) ==> (r matches Err(e) && e
                == RepoError::NotFound),
    {
        let mut i: usize = 0;
        while i < self.rows.len()
            invariant
                self.wf(),
                i <= self.rows.len(),
                forall|k: int| 0 <= k < i ==> #[trigger] self@.rows[k].id != id as int,
            decreases self.rows.len() - i,
        {
            if self.rows[i].id == id {
                let found = self.rows[i].duplicate();
                proof {
                    lemma_unique_id_found(self@.rows, id as int, i as int);
                }
                return Ok(found);
            }
            i = i + 1;
        }
        Err(RepoError::NotFound)
    }

    /// Stores a new row: the payload's mutable fields under a fresh
    /// id, appended in storage order. Fails (as a storage failure)
    /// exactly when the id space is exhausted.
    pub fn insert(&mut self, person: Person) -> (r: Result<Person, RepoError>)
        requires
            old(self).wf(),
        ensures
            final(self).wf(),
            old(self)@.next_id < i32::MAX ==> {
                &&& r matches Ok(p) && p@ == with_id(drop_id(person@), old(self)@.next_id)
                &&& final(self)@.rows == old(self)@.rows.push(
                    with_id(drop_id(person@), old(self)@.next_id),
                )
                &&& final(self)@.rows.len() == old(self)@.rows.len() + 1
                &&& final(self)@.next_id == old(self)@.next_id + 1
            },
            old(self)@.next_id == i32::MAX ==> (r matches Err(e) && e
                == RepoError::StorageFailure && *final(self) == *old(self)),
    {
        if self.next_id == i32::MAX {
            return Err(RepoError::StorageFailure);
        }
        let insertable = InsertablePerson::from_person(person);
        let stored = Person {
            id: self.next_id,
            first_name: insertable.first_name,
            last_name: insertable.last_name,
            age: insertable.age,
            profession: insertable.profession,
            salary: insertable.salary,
        };
        let created = stored.duplicate();
        self.rows.push(stored);
        self.next_id = self.next_id + 1;
        proof {
            assert(self@.rows =~= old(self)@.rows.push(created@));
            assert forall|i: int, j: int|
                #![trigger self@.rows[i].id, self@.rows[j].id]
                0 <= i < self@.rows.len() && 0 <= j < self@.rows.len() && i != j implies self@
                .rows[i].id != self@.rows[j].id by {
                assert(forall|k: int|
                    0 <= k < old(self)@.rows.len() ==> 1 <= #[trigger] old(self)@.rows[k].id < old(
                        self,
                    )@.next_id);
            }
        }
        Ok(created)
    }

    /// Replaces the mutable fields of the row carrying `id` with
    /// those of `person` (the stored id stays `id`, whatever id the
    /// payload carries), and returns the updated row; reports
    /// `NotFound`, leaving the table unchanged, exactly when no row
    /// carries `id`.
    pub fn update(&mut self, id: i32, person: Person) -> (r: Result<Person, RepoError>)
        requires
            old(self).wf(),
        ensures
            final(self).wf(),
            contains_id(old(self)@.rows, id as int) ==> {
                &&& r matches Ok(p) && p@ == with_id(drop_id(person@), id as int)
                &&& final(self)@.rows == update_rows(
                    old(self)@.rows,
                    id as int,
                    with_id(drop_id(person@), id as int),
                )
                &&& final(self)@.rows.len() == old(self)@.rows.len()
                &&& final(self)@.next_id == old(self)@.next_id
            },
            !contains_id(old(self)@.rows, id as int) ==> (r matches Err(e) && e
                == RepoError::NotFound && *final(self) == *old(self)),
    {
        let mut i: usize = 0;
        while i < self.rows.len()
            invariant
                *self == *old(self),
                self.wf(),
                i <= self.rows.len(),
                forall|k: int| 0 <= k < i ==> #[trigger] self@.rows[k].id != id as int,
            decreases self.rows.len() - i,
        {
            if self.rows[i].id == id {
                let insertable = InsertablePerson::from_person(person);
                let replacement = Person {
                    id,
                    first_name: insertable.first_name,
                    last_name: insertable.last_name,
                    age: insertable.age,
                    profession: insertable.profession,
                    salary: insertable.salary,
                };
                let updated = replacement.duplicate();
                proof {
                    assert(old(self)@.rows[i as int].id == id as int);
                    assert(contains_id(old(self)@.rows, id as int));
                }
                self.rows[i] = replacement;
                proof {
                    let rs = old(self)@.rows;
                    assert forall|k: int| 0 <= k < rs.len() && k != i implies #[trigger] rs[k].id
                        != id as int by {
                        assert(rs[k].id != rs[i as int].id);
                    }
                    assert(self@.rows =~= update_rows(rs, id as int, updated@));
                }
                return Ok(updated);
            }
            i = i + 1;
        }
        Err(RepoError::NotFound)
    }

    /// Removes the row carrying `id`, returning the count of rows
    /// removed: 1 when a row carried `id` (and afterwards none does),
    /// 0 when none did (and the table is unchanged).
    pub fn delete(&mut self, id: i32) -> (r: Result<usize, RepoError>)
        requires
            old(self).wf(),
        ensures
            final(self).wf(),
            final(self)@.next_id == old(self)@.next_id,
            contains_id(old(self)@.rows, id as int) ==> {
                &&& r matches Ok(n) && n == 1usize
                &&& exists|j: int|
                    0 <= j < old(self)@.rows.len() && #[trigger] old(self)@.rows[j].id == id as int
                        && final(self)@.rows == old(self)@.rows.remove(j)
                &&& final(self)@.rows.len() == old(self)@.rows.len() - 1
                &&& !contains_id(final(self)@.rows, id as int)
            },
            !contains_id(old(self)@.rows, id as int) ==> (r matches Ok(n) && n == 0usize
                && *final(self) == *old(self)),
    {
        let mut i: usize = 0;
        while i < self.rows.len()
            invariant
                *self == *old(self),
                self.wf(),
                i <= self.rows.len(),
                forall|k: int| 0 <= k < i ==> #[trigger] self@.rows[k].id != id as int,
            decreases self.rows.len() - i,
        {
            if self.rows[i].id == id {
                proof {
                    assert(old(self)@.rows[i as int].id == id as int);
                    assert(contains_id(old(self)@.rows, id as int));
                }
                self.rows.remove(i);
                proof {
                    assert(self@.rows =~= old(self)@.rows.remove(i as int));
                    lemma_removed_id_not_found(old(self)@.rows, old(self)@.next_id, i as int);
                }
                return Ok(1);
            }
            i = i + 1;
        }
        Ok(0)
    }
}

/// Inserting a payload into a well-formed table and then looking up
/// the id the table assigned yields exactly the submitted fields,
/// with the id now populated.
pub proof fn lemma_insert_then_get(rows: Seq<PersonView>, next_id: int, payload: InsertableView)
    requires
        rows_wf(rows, next_id),
    ensures
        ({
            let stored = with_id(payload, next_id);
            let after = rows.push(stored);
            &&& contains_id(after, next_id)
            &&& row_with_id(after, next_id) == stored
            &&& stored.id == next_id
            &&& drop_id(stored) == payload
        }),
{
    let stored = with_id(payload, next_id);
    let after = rows.push(stored);
    assert(after[rows.len() as int].id == next_id);
    assert(contains_id(after, next_id));
    let j = choose|j: int| 0 <= j < after.len() && #[trigger] after[j].id == next_id;
    if j != rows.len() {
        assert(1 <= rows[j].id < next_id);
    }
}

/// Applying the same update twice leaves the same rows as applying it
/// once (the replacement row carries the updated id itself).
pub proof fn lemma_update_idempotent(rows: Seq<PersonView>, id: int, row: PersonView)
    requires
        row.id == id,
    ensures
        update_rows(update_rows(rows, id, row), id, row) == update_rows(rows, id, row),
{
    assert(update_rows(update_rows(rows, id, row), id, row) =~= update_rows(rows, id, row));
}

/// Once the row carrying an id is removed from a well-formed table,
/// no row carries that id: a subsequent lookup reports `NotFound`.
pub proof fn lemma_removed_id_not_found(rows: Seq<PersonView>, next_id: int, j: int)
    requires
        rows_wf(rows, next_id),
        0 <= j < rows.len(),
    ensures
        !contains_id(rows.remove(j), rows[j].id),
{
    let id = rows[j].id;
    let removed = rows.remove(j);
    assert forall|k: int| 0 <= k < removed.len() implies #[trigger] removed[k].id != id by {
        if k < j {
            assert(removed[k] == rows[k]);
            assert(rows[k].id != rows[j].id);
        } else {
            assert(removed[k] == rows[k + 1]);
            assert(rows[k + 1].id != rows[j].id);
        }
    }
}

/// When ids are unique, the row found at an index carrying `id` is
/// the row `row_with_id` denotes.
pub proof fn lemma_unique_id_found(rows: Seq<PersonView>, id: int, i: int)
    requires
        forall|a: int, b: int|
            #![trigger rows[a].id, rows[b].id]
            0 <= a < rows.len() && 0 <= b < rows.len() && a != b ==> rows[a].id != rows[b].id,
        0 <= i < rows.len(),
        rows[i].id == id,
    ensures
        contains_id(rows, id),
        row_with_id(rows, id) == rows[i],
{
    assert(contains_id(rows, id));
    let j = choose|j: int| 0 <= j < rows.len() && #[trigger] rows[j].id == id;
    if j != i {
        assert(rows[i].id != rows[j].id);
    }
}

} // verus!
