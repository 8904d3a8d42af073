use vstd::prelude::*;
use crate::store::{create_outcome, new_record, after_update, status_or_default, TodoError};
use crate::todo::{TodoView, index_of, has_id, ids_unique, valid_records, lemma_index_of};

verus! {

/// A create with a non-empty title and description succeeds, and the
/// collection then ends with a record holding exactly the given title and
/// description, the status given or "Pending" where it was empty, and equal
/// creation and update times; the records before it are those there were.
pub proof fn lemma_create_then_list(
    s: Seq<TodoView>,
    id: Seq<char>,
    title: Seq<char>,
    description: Seq<char>,
    status: Seq<char>,
    now: Seq<char>,
)
    requires
        title.len() > 0,
        description.len() > 0,
    ensures
        create_outcome(title, description) == Ok::<(), TodoError>(()),
        ({
            let r = s.push(new_record(id, title, description, status, now));
            &&& r.len() == s.len() + 1
            &&& r.subrange(0, s.len() as int) == s
            &&& r.last().id == id
            &&& r.last().title == title
            &&& r.last().description == description
            &&& r.last().status == status_or_default(status)
            &&& (status.len() == 0 ==> r.last().status == "Pending"@)
            &&& (status.len() > 0 ==> r.last().status == status)
            &&& r.last().created_at == r.last().updated_at
        }),
{
    let r = s.push(new_record(id, title, description, status, now));
    assert(r.subrange(0, s.len() as int) =~= s);
}

/// A create with an empty title or an empty description is refused with a
/// validation error (and, by the contracts of the create operations, leaves
/// the collection as it was).
pub proof fn lemma_create_rejects_empty(title: Seq<char>, description: Seq<char>)
    requires
        title.len() == 0 || description.len() == 0,
    ensures
        create_outcome(title, description) is Err,
        title.len() == 0 ==> create_outcome(title, description) == Err::<(), TodoError>(
            TodoError::EmptyTitle,
        ),
        title.len() > 0 ==> create_outcome(title, description) == Err::<(), TodoError>(
            TodoError::EmptyDescription,
        ),
{
}

/// Deleting an id that a collection with unique ids holds removes exactly
/// that record: no record with the id is left, every other record stays,
/// and the remaining records keep their relative order.
pub proof fn lemma_delete_removes_exactly(s: Seq<TodoView>, id: Seq<char>)
    requires
        ids_unique(s),
        has_id(s, id),
    ensures
        ({
            let k = index_of(s, id);
            let r = s.remove(k);
            &&& 0 <= k < s.len()
            &&& s[k].id == id
            &&& r.len() == s.len() - 1
            &&& !has_id(r, id)
            &&& forall|j: int| 0 <= j < k ==> r[j] == s[j]
            &&& forall|j: int| k <= j < r.len() ==> r[j] == s[j + 1]
            &&& forall|i: int| 0 <= i < s.len() && s[i].id != id ==> exists|j: int| 0 <= j < r.len() && r[j] == s[i]
        }),
{
    lemma_index_of(s, id);
    let k = index_of(s, id);
    let r = s.remove(k);
    assert forall|i: int| 0 <= i < s.len() && s[i].id != id implies exists|j: int| 0 <= j < r.len() && r[j] == s[i] by {
        if i < k {
            assert(r[i] == s[i]);
        } else {
            assert(i != k);
            assert(r[i - 1] == s[i]);
        }
    }
    if has_id(r, id) {
        let j = choose|j: int| 0 <= j < r.len() && r[j].id == id;
        if j < k {
            assert(s[j].id == id);
        } else {
            assert(s[j + 1].id == id);
        }
    }
}

/// An update of a present id with all fields empty changes nothing in the
/// record but its update time, which becomes the time of the update; every
/// other record stays.
pub proof fn lemma_update_with_empty_fields(s: Seq<TodoView>, id: Seq<char>, now: Seq<char>)
    requires
        has_id(s, id),
    ensures
        ({
            let k = index_of(s, id);
            let r = after_update(s, id, Seq::empty(), Seq::empty(), Seq::empty(), now);
            &&& 0 <= k < s.len()
            &&& r.len() == s.len()
            &&& r[k] == TodoView { updated_at: now, ..s[k] }
            &&& forall|j: int| 0 <= j < s.len() && j != k ==> r[j] == s[j]
        }),
{
    lemma_index_of(s, id);
}

/// A create with a non-empty title and description and an id that no
/// record carries keeps a collection well-formed.
pub proof fn lemma_create_keeps_valid(
    s: Seq<TodoView>,
    id: Seq<char>,
    title: Seq<char>,
    description: Seq<char>,
    status: Seq<char>,
    now: Seq<char>,
)
    requires
        valid_records(s),
        !has_id(s, id),
        title.len() > 0,
        description.len() > 0,
    ensures
        valid_records(s.push(new_record(id, title, description, status, now))),
{
    let r = s.push(new_record(id, title, description, status, now));
    assert forall|i: int, j: int| 0 <= i < r.len() && 0 <= j < r.len() && i != j implies r[i].id != r[j].id by {
        if i < s.len() && j < s.len() {
            assert(r[i] == s[i] && r[j] == s[j]);
        } else if i < s.len() {
            assert(r[i] == s[i]);
        } else {
            assert(r[j] == s[j]);
        }
    }
    assert forall|i: int| 0 <= i < r.len() implies (#[trigger] r[i]).title.len() > 0 && r[i].description.len() > 0 by {
        if i < s.len() {
            assert(r[i] == s[i]);
        }
    }
}

/// An update keeps a collection well-formed.
pub proof fn lemma_update_keeps_valid(
    s: Seq<TodoView>,
    id: Seq<char>,
    title: Seq<char>,
    description: Seq<char>,
    status: Seq<char>,
    now: Seq<char>,
)
    requires
        valid_records(s),
        has_id(s, id),
    ensures
        valid_records(after_update(s, id, title, description, status, now)),
{
    lemma_index_of(s, id);
    let r = after_update(s, id, title, description, status, now);
    assert forall|i: int, j: int| 0 <= i < r.len() && 0 <= j < r.len() && i != j implies r[i].id != r[j].id by {
        assert(r[i].id == s[i].id && r[j].id == s[j].id);
    }
    assert forall|i: int| 0 <= i < r.len() implies (#[trigger] r[i]).title.len() > 0 && r[i].description.len() > 0 by {
        assert(s[i].title.len() > 0);
    }
}

/// A delete keeps a collection well-formed.
pub proof fn lemma_delete_keeps_valid(s: Seq<TodoView>, id: Seq<char>)
    requires
        valid_records(s),
        has_id(s, id),
    ensures
        valid_records(s.remove(index_of(s, id))),
{
    lemma_index_of(s, id);
    let k = index_of(s, id);
    let r = s.remove(k);
    assert forall|i: int, j: int| 0 <= i < r.len() && 0 <= j < r.len() && i != j implies r[i].id != r[j].id by {
        let si = if i < k { i } else { i + 1 };
        let sj = if j < k { j } else { j + 1 };
        assert(r[i] == s[si] && r[j] == s[sj]);
    }
    assert forall|i: int| 0 <= i < r.len() implies (#[trigger] r[i]).title.len() > 0 && r[i].description.len() > 0 by {
        let si = if i < k { i } else { i + 1 };
        assert(r[i] == s[si]);
    }
}

} // verus!
