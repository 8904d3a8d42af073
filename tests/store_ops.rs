use todo_store::store::{add_todo, create_todo, delete_todo, find_todo, update_todo, update_todo_at, TodoError};
use todo_store::todo::Todo;

fn s(x: &str) -> String {
    x.to_string()
}

fn sample(n: usize) -> Vec<Todo> {
    let mut v = Vec::new();
    for i in 0..n {
        let r = add_todo(
            &mut v,
            format!("title {}", i),
            format!("desc {}", i),
            s(""),
            format!("id-{}", i),
            s("2024-01-01T10:00:00+00:00"),
        );
        assert_eq!(r, Ok(()));
    }
    v
}

#[test]
fn create_buy_milk_defaults_to_pending() {
    let mut v = Vec::new();
    let r = add_todo(&mut v, s("Buy milk"), s("2% milk"), s(""), s("id-1"), s("2024-05-01T08:00:00+02:00"));
    assert_eq!(r, Ok(()));
    assert_eq!(v.len(), 1);
    assert_eq!(v[0].title, "Buy milk");
    assert_eq!(v[0].description, "2% milk");
    assert_eq!(v[0].status, "Pending");
    assert_eq!(v[0].id, "id-1");
    assert_eq!(v[0].created_at, v[0].updated_at);
}

#[test]
fn create_keeps_given_status() {
    let mut v = Vec::new();
    assert_eq!(add_todo(&mut v, s("A"), s("B"), s("Done"), s("x"), s("t")), Ok(()));
    assert_eq!(v[0].status, "Done");
}

#[test]
fn create_with_fresh_id_and_time() {
    let mut v = sample(1);
    let r = create_todo(&mut v, s("Buy milk"), s("2% milk"), s(""));
    assert_eq!(r, Ok(()));
    assert_eq!(v.len(), 2);
    let t = &v[1];
    assert_eq!(t.id.chars().count(), 36);
    assert_ne!(t.id, v[0].id);
    assert_eq!(t.status, "Pending");
    assert_eq!(t.created_at, t.updated_at);
    assert!(!t.created_at.is_empty());
}

#[test]
fn create_twice_gives_distinct_ids() {
    let mut v = Vec::new();
    assert_eq!(create_todo(&mut v, s("a"), s("b"), s("c")), Ok(()));
    assert_eq!(create_todo(&mut v, s("a"), s("b"), s("c")), Ok(()));
    assert_ne!(v[0].id, v[1].id);
}

#[test]
fn create_rejects_empty_title() {
    let mut v = sample(2);
    assert_eq!(create_todo(&mut v, s(""), s("desc"), s("")), Err(TodoError::EmptyTitle));
    assert_eq!(add_todo(&mut v, s(""), s("desc"), s(""), s("i"), s("t")), Err(TodoError::EmptyTitle));
    assert_eq!(v.len(), 2);
    assert_eq!(v[1].title, "title 1");
}

#[test]
fn create_rejects_empty_description() {
    let mut v = sample(1);
    assert_eq!(create_todo(&mut v, s("t"), s(""), s("x")), Err(TodoError::EmptyDescription));
    assert_eq!(add_todo(&mut v, s("t"), s(""), s("x"), s("i"), s("t")), Err(TodoError::EmptyDescription));
    assert_eq!(v.len(), 1);
}

#[test]
fn find_gives_first_match() {
    let v = sample(3);
    assert_eq!(find_todo(&v, &s("id-2")), Some(2));
    assert_eq!(find_todo(&v, &s("id-0")), Some(0));
    assert_eq!(find_todo(&v, &s("nope")), None);
    assert_eq!(find_todo(&Vec::new(), &s("id-0")), None);
}

#[test]
fn delete_removes_exactly_one_and_keeps_order() {
    let mut v = sample(4);
    assert_eq!(delete_todo(&mut v, &s("id-1")), Ok(()));
    let ids: Vec<&str> = v.iter().map(|t| t.id.as_str()).collect();
    assert_eq!(ids, vec!["id-0", "id-2", "id-3"]);
    assert_eq!(find_todo(&v, &s("id-1")), None);
}

#[test]
fn delete_unknown_id_is_not_found() {
    let mut v = sample(2);
    assert_eq!(delete_todo(&mut v, &s("id-9")), Err(TodoError::NotFound));
    assert_eq!(v.len(), 2);
    let mut empty: Vec<Todo> = Vec::new();
    assert_eq!(delete_todo(&mut empty, &s("id-0")), Err(TodoError::NotFound));
}

#[test]
fn update_unknown_id_is_not_found() {
    let mut v = sample(2);
    assert_eq!(update_todo(&mut v, &s("zz"), s("n"), s("n"), s("n")), Err(TodoError::NotFound));
    assert_eq!(update_todo_at(&mut v, &s("zz"), s("n"), s("n"), s("n"), s("t")), Err(TodoError::NotFound));
    assert_eq!(v[0].title, "title 0");
    assert_eq!(v[1].title, "title 1");
    assert_eq!(v[1].updated_at, "2024-01-01T10:00:00+00:00");
}

#[test]
fn update_with_empty_fields_only_refreshes_time() {
    let mut v = Vec::new();
    assert_eq!(add_todo(&mut v, s("A"), s("B"), s("Done"), s("k"), s("2024-01-01T10:00:00+00:00")), Ok(()));
    assert_eq!(update_todo_at(&mut v, &s("k"), s(""), s(""), s(""), s("2024-01-01T11:00:00+00:00")), Ok(()));
    assert_eq!(v[0].title, "A");
    assert_eq!(v[0].description, "B");
    assert_eq!(v[0].status, "Done");
    assert_eq!(v[0].id, "k");
    assert_eq!(v[0].created_at, "2024-01-01T10:00:00+00:00");
    assert_eq!(v[0].updated_at, "2024-01-01T11:00:00+00:00");
}

#[test]
fn create_then_update_with_clock() {
    let mut v = Vec::new();
    assert_eq!(create_todo(&mut v, s("A"), s("B"), s("Done")), Ok(()));
    let id = v[0].id.clone();
    let created = v[0].created_at.clone();
    assert_eq!(update_todo(&mut v, &id, s(""), s(""), s("")), Ok(()));
    assert_eq!(v[0].title, "A");
    assert_eq!(v[0].description, "B");
    assert_eq!(v[0].status, "Done");
    assert_eq!(v[0].created_at, created);
    let before = chrono::DateTime::parse_from_rfc3339(&created).unwrap();
    let after = chrono::DateTime::parse_from_rfc3339(&v[0].updated_at).unwrap();
    assert!(after >= before);
}

#[test]
fn update_replaces_non_empty_fields() {
    let mut v = sample(3);
    assert_eq!(update_todo_at(&mut v, &s("id-1"), s("new"), s(""), s("Done"), s("later")), Ok(()));
    assert_eq!(v[1].title, "new");
    assert_eq!(v[1].description, "desc 1");
    assert_eq!(v[1].status, "Done");
    assert_eq!(v[1].updated_at, "later");
    assert_eq!(v[0].title, "title 0");
    assert_eq!(v[2].updated_at, "2024-01-01T10:00:00+00:00");
}
