use people::handler;
use people::person::{InsertablePerson, Person};
use people::repository::{RepoError, Store};

fn person(id: i32, first: &str, last: &str, age: i32, profession: &str, salary: i32) -> Person {
    Person {
        id,
        first_name: first.to_string(),
        last_name: last.to_string(),
        age,
        profession: profession.to_string(),
        salary,
    }
}

fn assert_same_fields(a: &Person, b: &Person) {
    assert_eq!(a.first_name, b.first_name);
    assert_eq!(a.last_name, b.last_name);
    assert_eq!(a.age, b.age);
    assert_eq!(a.profession, b.profession);
    assert_eq!(a.salary, b.salary);
}

#[test]
fn insert_then_get_returns_inserted_fields() {
    let mut store = Store::new();
    let payload = person(0, "Grace", "Hopper", 85, "Admiral", 2000);
    let created = store.insert(payload.duplicate()).unwrap();
    assert_eq!(created.id, 1);
    assert_same_fields(&created, &payload);
    let fetched = store.get(created.id).unwrap();
    assert_eq!(fetched.id, created.id);
    assert_same_fields(&fetched, &payload);
}

#[test]
fn missing_id_reports_not_found() {
    let mut store = Store::new();
    store.insert(person(0, "Alan", "Turing", 41, "Logician", 900)).unwrap();
    assert_eq!(store.get(77), Err(RepoError::NotFound));
    let replacement = person(77, "Kurt", "Goedel", 71, "Logician", 800);
    assert_eq!(store.update(77, replacement), Err(RepoError::NotFound));
}

#[test]
fn handler_delete_missing_id_is_404_and_mutates_nothing() {
    let mut store = Store::new();
    store.insert(person(0, "Alan", "Turing", 41, "Logician", 900)).unwrap();
    assert_eq!(handler::delete(&mut store, 77), Err(404));
    let rows = store.all().unwrap();
    assert_eq!(rows.len(), 1);
    assert_eq!(rows[0].first_name, "Alan");
}

#[test]
fn update_is_idempotent() {
    let mut store = Store::new();
    store.insert(person(0, "Edsger", "Dijkstra", 72, "Professor", 1100)).unwrap();
    let replacement = person(0, "Tony", "Hoare", 90, "Professor", 1200);
    let once = store.update(1, replacement.duplicate()).unwrap();
    let rows_once = store.all().unwrap();
    let twice = store.update(1, replacement.duplicate()).unwrap();
    let rows_twice = store.all().unwrap();
    assert_eq!(once.id, twice.id);
    assert_same_fields(&once, &twice);
    assert_eq!(rows_once.len(), rows_twice.len());
    for (a, b) in rows_once.iter().zip(rows_twice.iter()) {
        assert_eq!(a.id, b.id);
        assert_same_fields(a, b);
    }
}

#[test]
fn update_keeps_path_id_over_payload_id() {
    let mut store = Store::new();
    store.insert(person(0, "Barbara", "Liskov", 80, "Professor", 1300)).unwrap();
    let replacement = person(99, "Barbara", "Liskov", 81, "Professor", 1350);
    let updated = store.update(1, replacement).unwrap();
    assert_eq!(updated.id, 1);
    assert_eq!(store.get(1).unwrap().age, 81);
    assert_eq!(store.get(99), Err(RepoError::NotFound));
}

#[test]
fn get_after_successful_delete_reports_not_found() {
    let mut store = Store::new();
    store.insert(person(0, "Radia", "Perlman", 72, "Engineer", 1500)).unwrap();
    assert_eq!(store.delete(1), Ok(1));
    assert_eq!(store.get(1), Err(RepoError::NotFound));
}

#[test]
fn delete_counts_removed_rows() {
    let mut store = Store::new();
    store.insert(person(0, "Donald", "Knuth", 86, "Professor", 1400)).unwrap();
    assert_eq!(store.delete(5), Ok(0));
    assert_eq!(store.delete(1), Ok(1));
    assert_eq!(store.delete(1), Ok(0));
}

#[test]
fn all_returns_net_insertions_in_storage_order() {
    let mut store = Store::new();
    assert_eq!(store.all().unwrap().len(), 0);
    store.insert(person(0, "Ada", "Lovelace", 36, "Mathematician", 1000)).unwrap();
    store.insert(person(0, "Alan", "Turing", 41, "Logician", 900)).unwrap();
    store.insert(person(0, "Grace", "Hopper", 85, "Admiral", 2000)).unwrap();
    assert_eq!(store.all().unwrap().len(), 3);
    assert_eq!(store.delete(2), Ok(1));
    let rows = store.all().unwrap();
    assert_eq!(rows.len(), 2);
    assert_eq!(rows[0].id, 1);
    assert_eq!(rows[0].first_name, "Ada");
    assert_eq!(rows[1].id, 3);
    assert_eq!(rows[1].first_name, "Grace");
}

#[test]
fn from_person_keeps_every_field_but_the_id() {
    let p = person(42, "Ada", "Lovelace", 36, "Mathematician", 1000);
    let insertable = InsertablePerson::from_person(p);
    assert_eq!(insertable.first_name, "Ada");
    assert_eq!(insertable.last_name, "Lovelace");
    assert_eq!(insertable.age, 36);
    assert_eq!(insertable.profession, "Mathematician");
    assert_eq!(insertable.salary, 1000);
}
