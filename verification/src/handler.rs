//! Request handlers: one entry point per HTTP verb on the `/people`
//! resource. Each handler delegates to the repository and translates
//! the storage outcome into a transport status code: a missing row is
//! 404, any other storage failure is 500, consistently across all
//! five verbs. No transport type appears here; the caller turns these
//! results into actual HTTP responses.

use vstd::prelude::*;
use vstd::string::StringExecFns;

use crate::person::{drop_id, with_id, Person};
use crate::repository::{contains_id, row_with_id, update_rows, RepoError, Store};

verus! {

/// Storage outcome to status code: a missing row is 404, every other
/// storage error is 500. No error detail reaches the client.
pub fn error_status(error: RepoError) -> (s: u16)
    ensures
        error == RepoError::NotFound ==> s == 404,
        error != RepoError::NotFound ==> s == 500,
{
    match error {
        RepoError::NotFound => 404,
        RepoError::StorageFailure => 500,
    }
}

/// The decimal digit `d` as a character.
pub open spec fn digit_char(d: int) -> char {
    if d == 0 {
        '0'
    } else if d == 1 {
        '1'
    } else if d == 2 {
        '2'
    } else if d == 3 {
        '3'
    } else if d == 4 {
        '4'
    } else if d == 5 {
        '5'
    } else if d == 6 {
        '6'
    } else if d == 7 {
        '7'
    } else if d == 8 {
        '8'
    } else {
        '9'
    }
}

/// The decimal digits of `n`, most significant first, no sign and no
/// leading zero (except for `n == 0` itself).
pub open spec fn dec_digits(n: nat) -> Seq<char>
    decreases n,
{
    if n < 10 {
        seq![digit_char(n as int)]
    } else {
        dec_digits(n / 10) + seq![digit_char((n % 10) as int)]
    }
}

/// One decimal digit as a string slice.
fn digit_str(d: i32) -> (s: &'static str)
    requires
        0 <= d < 10,
    ensures
        s@ == seq![digit_char(d as int)],
{
    proof {
        reveal_strlit("0");
        reveal_strlit("1");
        reveal_strlit("2");
        reveal_strlit("3");
        reveal_strlit("4");
        reveal_strlit("5");
        reveal_strlit("6");
        reveal_strlit("7");
        reveal_strlit("8");
        reveal_strlit("9");
    }
    let s: &'static str = if d == 0 {
        "0"
    } else if d == 1 {
        "1"
    } else if d == 2 {
        "2"
    } else if d == 3 {
        "3"
    } else if d == 4 {
        "4"
    } else if d == 5 {
        "5"
    } else if d == 6 {
        "6"
    } else if d == 7 {
        "7"
    } else if d == 8 {
        "8"
    } else {
        "9"
    };
    proof {
        assert(s@ =~= seq![digit_char(d as int)]);
    }
    s
}

/// Writes a nonnegative number in decimal.
pub fn decimal_string(n: i32) -> (s: String)
    requires
        0 <= n,
    ensures
        s@ == dec_digits(n as nat),
    decreases n,
{
    if n < 10 {
        digit_str(n).to_owned()
    } else {
        let mut s = decimal_string(n / 10);
        s.append(digit_str(n % 10));
        s
    }
}

/// The location under which a newly created row can be fetched:
/// `{host}:{port}/people/{id}`.
pub open spec fn location_view(host: Seq<char>, port: Seq<char>, id: int) -> Seq<char> {
    host + ":"@ + port + "/people/"@ + dec_digits(id as nat)
}

/// A created response: the stored row and the location it can be
/// fetched from, built from the configured host and port.
pub struct Created {
    pub location: String,
    pub person: Person,
}

/// Builds the created response for a freshly stored row.
pub fn person_created(person: Person, host: &str, port: &str) -> (c: Created)
    requires
        0 <= person.id,
    ensures
        c.person == person,
        c.location@ == location_view(host@, port@, person@.id),
{
    let mut location = host.to_owned();
    location.append(":");
    location.append(port);
    location.append("/people/");
    let digits = decimal_string(person.id);
    location.append(digits.as_str());
    proof {
        assert(location@ =~= location_view(host@, port@, person@.id));
    }
    Created { location, person }
}

/// `GET /people`: lists every stored row (status 200); any storage
/// failure would map to 500.
pub fn all(store: &Store) -> (r: Result<Vec<Person>, u16>)
    ensures
        r matches Ok(v) && v@.map_values(|p: Person| p@) == store@.rows,
{
    match store.all() {
        Ok(rows) => Ok(rows),
        Err(error) => Err(error_status(error)),
    }
}

/// `GET /people/{id}`: the row carrying `id` (status 200), or 404
/// exactly when no row carries it.
pub fn get(store: &Store, id: i32) -> (r: Result<Person, u16>)
    requires
        store.wf(),
    ensures
        contains_id(store@.rows, id as int) ==> (r matches Ok(p) && p@ == row_with_id(
            store@.rows,
            id as int,
        )),
        !contains_id(store@.rows, id as int) ==> r == Err::<Person, u16>(404),
{
    match store.get(id) {
        Ok(person) => Ok(person),
        Err(error) => Err(error_status(error)),
    }
}

/// `POST /people`: stores the payload's fields under a fresh id
/// (status 201), answering with the created row and the location
/// built from the configured host and port; 500 exactly when storage
/// cannot assign a fresh id.
pub fn post(store: &mut Store, person: Person, host: &str, port: &str) -> (r: Result<
    Created,
    u16,
>)
    requires
        old(store).wf(),
    ensures
        final(store).wf(),
        old(store)@.next_id < i32::MAX ==> {
            &&& r matches Ok(c) && c.person@ == with_id(drop_id(person@), old(store)@.next_id)
                && c.location@ == location_view(host@, port@, old(store)@.next_id)
            &&& final(store)@.rows == old(store)@.rows.push(
                with_id(drop_id(person@), old(store)@.next_id),
            )
            &&& final(store)@.next_id == old(store)@.next_id + 1
        },
        old(store)@.next_id == i32::MAX ==> (r matches Err(s) && s == 500 && *final(store)
            == *old(store)),
{
    match store.insert(person) {
        Ok(created) => Ok(person_created(created, host, port)),
        Err(error) => Err(error_status(error)),
    }
}

/// `PUT /people/{id}`: replaces the mutable fields of the row
/// carrying `id` with the payload's (the path id wins over any id the
/// payload carries) and answers with the updated row (status 200);
/// 404 exactly when no row carries `id`, leaving storage untouched.
pub fn put(store: &mut Store, id: i32, person: Person) -> (r: Result<Person, u16>)
    requires
        old(store).wf(),
    ensures
        final(store).wf(),
        contains_id(old(store)@.rows, id as int) ==> {
            &&& r matches Ok(p) && p@ == with_id(drop_id(person@), id as int)
            &&& final(store)@.rows == update_rows(
                old(store)@.rows,
                id as int,
                with_id(drop_id(person@), id as int),
            )
            &&& final(store)@.next_id == old(store)@.next_id
        },
        !contains_id(old(store)@.rows, id as int) ==> (r matches Err(s) && s == 404
            && *final(store) == *old(store)),
{
    match store.update(id, person) {
        Ok(updated) => Ok(updated),
        Err(error) => Err(error_status(error)),
    }
}

/// `DELETE /people/{id}`: looks the row up first; when found, removes
/// it and answers 204 (afterwards no row carries `id`); when not
/// found, answers 404 and performs no mutation.
pub fn delete(store: &mut Store, id: i32) -> (r: Result<u16, u16>)
    requires
        old(store).wf(),
    ensures
        final(store).wf(),
        final(store)@.next_id == old(store)@.next_id,
        contains_id(old(store)@.rows, id as int) ==> {
            &&& r matches Ok(s) && s == 204
            &&& exists|j: int|
                0 <= j < old(store)@.rows.len() && #[trigger] old(store)@.rows[j].id == id as int
                    && final(store)@.rows == old(store)@.rows.remove(j)
            &&& final(store)@.rows.len() == old(store)@.rows.len() - 1
            &&& !contains_id(final(store)@.rows, id as int)
        },
        !contains_id(old(store)@.rows, id as int) ==> (r matches Err(s) && s == 404
            && *final(store) == *old(store)),
{
    match store.get(id) {
        Ok(_) => match store.delete(id) {
            Ok(_) => Ok(204),
            Err(error) => Err(error_status(error)),
        },
        Err(error) => Err(error_status(error)),
    }
}

} // verus!
