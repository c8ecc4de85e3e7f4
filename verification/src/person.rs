//! The `Person` entity: the sole resource of the service, and its
//! insertable variant, which omits the storage-generated id.

use vstd::prelude::*;

verus! {

/// Mathematical shape of a person row.
pub struct PersonView {
    pub id: int,
    pub first_name: Seq<char>,
    pub last_name: Seq<char>,
    pub age: int,
    pub profession: Seq<char>,
    pub salary: int,
}

/// Mathematical shape of a person payload without an id.
pub struct InsertableView {
    pub first_name: Seq<char>,
    pub last_name: Seq<char>,
    pub age: int,
    pub profession: Seq<char>,
    pub salary: int,
}

/// A person row. `id` is assigned by storage and immutable once
/// assigned; every other field is freely mutable via update.
#[derive(Debug, PartialEq, Eq)]
pub struct Person {
    pub id: i32,
    pub first_name: String,
    pub last_name: String,
    pub age: i32,
    pub profession: String,
    pub salary: i32,
}

impl View for Person {
    type V = PersonView;

    open spec fn view(&self) -> PersonView {
        PersonView {
            id: self.id as int,
            first_name: self.first_name@,
            last_name: self.last_name@,
            age: self.age as int,
            profession: self.profession@,
            salary: self.salary as int,
        }
    }
}

/// A person payload for creation requests: all fields of `Person`
/// except the id, which storage generates.
pub struct InsertablePerson {
    pub first_name: String,
    pub last_name: String,
    pub age: i32,
    pub profession: String,
    pub salary: i32,
}

impl View for InsertablePerson {
    type V = InsertableView;

    open spec fn view(&self) -> InsertableView {
        InsertableView {
            first_name: self.first_name@,
            last_name: self.last_name@,
            age: self.age as int,
            profession: self.profession@,
            salary: self.salary as int,
        }
    }
}

/// The mutable fields of a row, with the id forgotten.
pub open spec fn drop_id(p: PersonView) -> InsertableView {
    InsertableView {
        first_name: p.first_name,
        last_name: p.last_name,
        age: p.age,
        profession: p.profession,
        salary: p.salary,
    }
}

/// The row obtained by giving an insertable payload the id `id`.
pub open spec fn with_id(p: InsertableView, id: int) -> PersonView {
    PersonView {
        id: id,
        first_name: p.first_name,
        last_name: p.last_name,
        age: p.age,
        profession: p.profession,
        salary: p.salary,
    }
}

impl InsertablePerson {
    /// Strips the id from a full person, keeping the mutable fields.
    pub fn from_person(person: Person) -> (r: InsertablePerson)
        ensures
            r@ == drop_id(person@),
    {
        InsertablePerson {
            first_name: person.first_name,
            last_name: person.last_name,
            age: person.age,
            profession: person.profession,
            salary: person.salary,
        }
    }
}

impl Person {
    /// A field-for-field copy of the row.
    pub fn duplicate(&self) -> (r: Person)
        ensures
            r@ == self@,
    {
        Person {
            id: self.id,
            first_name: self.first_name.clone(),
            last_name: self.last_name.clone(),
            age: self.age,
            profession: self.profession.clone(),
            salary: self.salary,
        }
    }
}

} // verus!
