use vstd::prelude::*;
use crate::clock::{new_id, now_rfc3339};
use crate::todo::{Todo, TodoView, records, index_of, index_from, lemma_index_of, has_id};

verus! {

/// Why an operation on the collection was refused.
#[derive(Debug, Clone, Copy, PartialEq, Eq, Structural)]
pub enum TodoError {
    /// A new record was given an empty title.
    EmptyTitle,
    /// A new record was given an empty description.
    EmptyDescription,
    /// No record carries the requested id.
    NotFound,
}

/// The status a new record gets when none is given.
pub open spec fn status_or_default(status: Seq<char>) -> Seq<char> {
    if status.len() == 0 {
        "Pending"@
    } else {
        status
    }
}

/// The outcome of validating the fields of a new record.
pub open spec fn create_outcome(title: Seq<char>, description: Seq<char>) -> Result<(), TodoError> {
    if title.len() == 0 {
        Err(TodoError::EmptyTitle)
    } else if description.len() == 0 {
        Err(TodoError::EmptyDescription)
    } else {
        Ok(())
    }
}

/// The record that a create makes from its fields, an id and the time.
pub open spec fn new_record(
    id: Seq<char>,
    title: Seq<char>,
    description: Seq<char>,
    status: Seq<char>,
    now: Seq<char>,
) -> TodoView {
    TodoView {
        id,
        title,
        description,
        status: status_or_default(status),
        created_at: now,
        updated_at: now,
    }
}

/// `new` where it is non-empty, else `current`.
pub open spec fn keep_if_empty(current: Seq<char>, new: Seq<char>) -> Seq<char> {
    if new.len() == 0 {
        current
    } else {
        new
    }
}

/// A record after an update with the given fields at time `now`.
pub open spec fn updated_record(
    t: TodoView,
    title: Seq<char>,
    description: Seq<char>,
    status: Seq<char>,
    now: Seq<char>,
) -> TodoView {
    TodoView {
        id: t.id,
        title: keep_if_empty(t.title, title),
        description: keep_if_empty(t.description, description),
        status: keep_if_empty(t.status, status),
        created_at: t.created_at,
        updated_at: now,
    }
}

/// The collection after the first record with id `id` is updated at time `now`.
pub open spec fn after_update(
    s: Seq<TodoView>,
    id: Seq<char>,
    title: Seq<char>,
    description: Seq<char>,
    status: Seq<char>,
    now: Seq<char>,
) -> Seq<TodoView> {
    let k = index_of(s, id);
    s.update(k, updated_record(s[k], title, description, status, now))
}

fn text_of(s: &str) -> (r: String)
    ensures
        r@ == s@,
{
    s.to_owned()
}

/// Appends a record made of the given fields, the id `id` and the time
/// `now`, where the title and the description are non-empty.
pub fn add_todo(
    todos: &mut Vec<Todo>,
    title: String,
    description: String,
    status: String,
    id: String,
    now: String,
) -> (r: Result<(), TodoError>)
    ensures
        r == create_outcome(title@, description@),
        r is Ok ==> records(final(todos)@) == records(old(todos)@).push(
            new_record(id@, title@, description@, status@, now@),
        ),
        r is Err ==> final(todos)@ == old(todos)@,
{
    if title.as_str().is_empty() {
        return Err(TodoError::EmptyTitle);
    }
    if description.as_str().is_empty() {
        return Err(TodoError::EmptyDescription);
    }
    let shown_status = if status.as_str().is_empty() {
        text_of("Pending")
    } else {
        status
    };
    let created = now.clone();
    let todo = Todo {
        id,
        title,
        description,
        status: shown_status,
        created_at: created,
        updated_at: now,
    };
    todos.push(todo);
    assert(records(todos@) =~= records(old(todos)@).push(
        new_record(id@, title@, description@, status@, now@),
    ));
    Ok(())
}

/// Creates a record with a fresh random id, stamped with the current time
/// as both its creation and its update time. The title and the description
/// must be non-empty; an empty status becomes "Pending".
pub fn create_todo(todos: &mut Vec<Todo>, title: String, description: String, status: String) -> (r:
    Result<(), TodoError>)
    ensures
        r == create_outcome(title@, description@),
        r is Ok ==> exists|id: Seq<char>, now: Seq<char>|
            records(final(todos)@) == records(old(todos)@).push(
                #[trigger] new_record(id, title@, description@, status@, now),
            ),
        r is Err ==> final(todos)@ == old(todos)@,
{
    if title.as_str().is_empty() {
        return Err(TodoError::EmptyTitle);
    }
    if description.as_str().is_empty() {
        return Err(TodoError::EmptyDescription);
    }
    let id = new_id();
    let now = now_rfc3339();
    let ghost (gid, gnow) = (id@, now@);
    let r = add_todo(todos, title, description, status, id, now);
    assert(records(todos@) == records(old(todos)@).push(
        new_record(gid, title@, description@, status@, gnow),
    ));
    r
}

/// Finds the position of the first record whose id is `id`.
pub fn find_todo(todos: &Vec<Todo>, id: &String) -> (r: Option<usize>)
    ensures
        r is None <==> index_of(records(todos@), id@) == -1,
        r matches Some(i) ==> i == index_of(records(todos@), id@),
{
    let ghost s = records(todos@);
    let mut i: usize = 0;
    while i < todos.len()
        invariant
            0 <= i <= todos.len(),
            s == records(todos@),
            index_of(s, id@) == index_from(s, id@, i as int),
        decreases todos.len() - i,
    {
        if todos[i].id == *id {
            return Some(i);
        }
        i = i + 1;
    }
    None
}

/// Changes the first record whose id is `id`: each of title, description
/// and status is replaced where the new value is non-empty and kept where
/// it is empty, and the update time becomes `now`. Every other record stays.
pub fn update_todo_at(
    todos: &mut Vec<Todo>,
    id: &String,
    title: String,
    description: String,
    status: String,
    now: String,
) -> (r: Result<(), TodoError>)
    ensures
        r is Err <==> !has_id(records(old(todos)@), id@),
        r is Err ==> r == Err::<(), TodoError>(TodoError::NotFound) && final(todos)@ == old(todos)@,
        r is Ok ==> records(final(todos)@) == after_update(records(old(todos)@), id@, title@, description@, status@, now@),
{
    proof {
        lemma_index_of(records(todos@), id@);
    }
    match find_todo(todos, id) {
        None => Err(TodoError::NotFound),
        Some(k) => {
            let ghost s = records(todos@);
            let t = todos.remove(k);
            let Todo { id: tid, title: old_title, description: old_description, status: old_status, created_at, updated_at: _ } = t;
            let new_title = if title.as_str().is_empty() { old_title } else { title };
            let new_description = if description.as_str().is_empty() { old_description } else { description };
            let new_status = if status.as_str().is_empty() { old_status } else { status };
            let changed = Todo {
                id: tid,
                title: new_title,
                description: new_description,
                status: new_status,
                created_at,
                updated_at: now,
            };
            todos.insert(k, changed);
            assert(records(todos@) =~= s.update(k as int, updated_record(s[k as int], title@, description@, status@, now@)));
            Ok(())
        },
    }
}

/// Updates the first record whose id is `id` as `update_todo_at` does,
/// stamped with the current time.
pub fn update_todo(todos: &mut Vec<Todo>, id: &String, title: String, description: String, status: String) -> (r:
    Result<(), TodoError>)
    ensures
        r is Err <==> !has_id(records(old(todos)@), id@),
        r is Err ==> r == Err::<(), TodoError>(TodoError::NotFound) && final(todos)@ == old(todos)@,
        r is Ok ==> exists|now: Seq<char>|
            records(final(todos)@) == #[trigger] after_update(records(old(todos)@), id@, title@, description@, status@, now),
{
    proof {
        lemma_index_of(records(todos@), id@);
    }
    if find_todo(todos, id).is_none() {
        return Err(TodoError::NotFound);
    }
    let now = now_rfc3339();
    let ghost gnow = now@;
    let ghost s = records(todos@);
    let r = update_todo_at(todos, id, title, description, status, now);
    assert(records(todos@) == after_update(s, id@, title@, description@, status@, gnow));
    r
}

/// Removes the first record whose id is `id`, keeping the order of the rest.
pub fn delete_todo(todos: &mut Vec<Todo>, id: &String) -> (r: Result<(), TodoError>)
    ensures
        r is Err <==> !has_id(records(old(todos)@), id@),
        r is Err ==> r == Err::<(), TodoError>(TodoError::NotFound) && final(todos)@ == old(todos)@,
        r is Ok ==> records(final(todos)@) == records(old(todos)@).remove(index_of(records(old(todos)@), id@)),
{
    proof {
        lemma_index_of(records(todos@), id@);
    }
    match find_todo(todos, id) {
        None => Err(TodoError::NotFound),
        Some(k) => {
            let ghost s = records(todos@);
            let _ = todos.remove(k);
            assert(records(todos@) =~= s.remove(k as int));
            Ok(())
        },
    }
}

} // verus!
