use vstd::prelude::*;

verus! {

/// One task record. Every field is text; the two timestamps are
/// RFC 3339 strings with an offset.
#[derive(Debug, Clone)]
pub struct Todo {
    pub id: String,
    pub title: String,
    pub description: String,
    pub status: String,
    pub created_at: String,
    pub updated_at: String,
}

/// The mathematical value of a record: its six fields as character sequences.
pub ghost struct TodoView {
    pub id: Seq<char>,
    pub title: Seq<char>,
    pub description: Seq<char>,
    pub status: Seq<char>,
    pub created_at: Seq<char>,
    pub updated_at: Seq<char>,
}

impl View for Todo {
    type V = TodoView;

    open spec fn view(&self) -> TodoView {
        TodoView {
            id: self.id@,
            title: self.title@,
            description: self.description@,
            status: self.status@,
            created_at: self.created_at@,
            updated_at: self.updated_at@,
        }
    }
}

/// The records of a collection, in order.
pub open spec fn records(todos: Seq<Todo>) -> Seq<TodoView> {
    todos.map_values(|t: Todo| t@)
}

/// No two records share an id.
pub open spec fn ids_unique(s: Seq<TodoView>) -> bool {
    forall|i: int, j: int| 0 <= i < s.len() && 0 <= j < s.len() && i != j ==> s[i].id != s[j].id
}

/// Some record carries `id`.
pub open spec fn has_id(s: Seq<TodoView>, id: Seq<char>) -> bool {
    exists|i: int| 0 <= i < s.len() && s[i].id == id
}

/// A well-formed collection: unique ids, and no record with an empty
/// title or description.
pub open spec fn valid_records(s: Seq<TodoView>) -> bool {
    &&& ids_unique(s)
    &&& forall|i: int| 0 <= i < s.len() ==> (#[trigger] s[i]).title.len() > 0 && s[i].description.len() > 0
}

/// The position of the first record at or after `start` whose id is `id`,
/// or -1 where there is none.
pub open spec fn index_from(s: Seq<TodoView>, id: Seq<char>, start: int) -> int
    decreases s.len() - start,
{
    if start < 0 || start >= s.len() {
        -1
    } else if s[start].id == id {
        start
    } else {
        index_from(s, id, start + 1)
    }
}

/// The position of the first record whose id is `id`, or -1.
pub open spec fn index_of(s: Seq<TodoView>, id: Seq<char>) -> int {
    index_from(s, id, 0)
}

/// What `index_from` finds: the first match at or after `start`, or none.
pub proof fn lemma_index_from(s: Seq<TodoView>, id: Seq<char>, start: int)
    requires
        0 <= start,
    ensures
        index_from(s, id, start) == -1 ==> forall|j: int| start <= j < s.len() ==> s[j].id != id,
        index_from(s, id, start) != -1 ==> {
            let k = index_from(s, id, start);
            &&& start <= k < s.len()
            &&& s[k].id == id
            &&& forall|j: int| start <= j < k ==> s[j].id != id
        },
    decreases s.len() - start,
{
    if start < s.len() && s[start].id != id {
        lemma_index_from(s, id, start + 1);
    }
}

/// The first match is the only one where ids are unique, and there is a
/// match exactly where some record carries the id.
pub proof fn lemma_index_of(s: Seq<TodoView>, id: Seq<char>)
    ensures
        index_of(s, id) == -1 <==> !has_id(s, id),
        index_of(s, id) != -1 ==> 0 <= index_of(s, id) < s.len() && s[index_of(s, id)].id == id,
        ids_unique(s) && index_of(s, id) != -1 ==> forall|j: int|
            0 <= j < s.len() && j != index_of(s, id) ==> s[j].id != id,
{
    lemma_index_from(s, id, 0);
}

} // verus!
