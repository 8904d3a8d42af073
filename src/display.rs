use vstd::prelude::*;
use crate::clock::{local_display, local_stamp_shape, rfc3339_accepts};
use crate::todo::{Todo, TodoView, records};

verus! {

/// The width that field labels are padded to.
pub const LABEL_WIDTH: usize = 12;

/// `s` padded with spaces on the right to `width` characters.
pub open spec fn pad_right(s: Seq<char>, width: nat) -> Seq<char> {
    if s.len() >= width {
        s
    } else {
        s + Seq::new((width - s.len()) as nat, |_i: int| ' ')
    }
}

/// A line that shows one field: the padded label, a colon and the value.
pub open spec fn field_text(label: Seq<char>, value: Seq<char>) -> Seq<char> {
    pad_right(label, LABEL_WIDTH as nat) + ": "@ + value
}

/// The lines that show one record, with its two times as given.
pub open spec fn todo_text(t: TodoView, created: Seq<char>, updated: Seq<char>) -> Seq<Seq<char>> {
    seq![
        field_text("ID"@, t.id),
        field_text("Title"@, t.title),
        field_text("Description"@, t.description),
        field_text("Status"@, t.status),
        field_text("Created At"@, created),
        field_text("Updated At"@, updated),
        "-------------------------"@,
    ]
}

/// How a stored time is shown: its local form where there is one,
/// else the stored text itself.
pub open spec fn stamp_shown(stamp: Seq<char>, local: Option<Seq<char>>) -> Seq<char> {
    match local {
        Some(t) => t,
        None => stamp,
    }
}

/// `block` shows record `t`, with each time shown as the stored text where
/// the parser refuses it and as a local `YYYY-MM-DD HH:MM:SS` time where it
/// accepts it.
pub open spec fn shows_record(block: Seq<Seq<char>>, t: TodoView) -> bool {
    exists|c: Seq<char>, u: Seq<char>|
        block == #[trigger] todo_text(t, c, u) && stamp_display(t.created_at, c) && stamp_display(
            t.updated_at,
            u,
        )
}

/// `shown` is how `stamp` may be displayed: the stamp itself where the
/// parser refuses it, else a local time of the `YYYY-MM-DD HH:MM:SS` shape.
pub open spec fn stamp_display(stamp: Seq<char>, shown: Seq<char>) -> bool {
    &&& !rfc3339_accepts(stamp) ==> shown == stamp
    &&& rfc3339_accepts(stamp) ==> local_stamp_shape(shown)
}

/// The text of each line.
pub open spec fn texts(lines: Seq<String>) -> Seq<Seq<char>> {
    lines.map_values(|l: String| l@)
}

/// A field line: the label padded to the label width, ": ", then the value.
pub fn field_line(label: &str, value: &str) -> (r: String)
    ensures
        r@ == field_text(label@, value@),
{
    let n = label.unicode_len();
    let mut line = label.to_owned();
    let mut i: usize = n;
    while i < LABEL_WIDTH
        invariant
            n == label@.len(),
            n <= i,
            i <= LABEL_WIDTH || i == n,
            line@ == label@ + Seq::new((i - n) as nat, |_i: int| ' '),
        decreases LABEL_WIDTH - i,
    {
        proof {
            reveal_strlit(" ");
        }
        line.append(" ");
        i = i + 1;
        assert(line@ =~= label@ + Seq::new((i - n) as nat, |_i: int| ' '));
    }
    assert(line@ =~= pad_right(label@, LABEL_WIDTH as nat));
    line.append(": ");
    line.append(value);
    line
}

/// The prompt that asks for a new value of a field and names the value
/// that an empty answer keeps.
pub open spec fn keep_prompt_text(field: Seq<char>, current: Seq<char>) -> Seq<char> {
    "Enter new "@ + field + " (leave empty to keep '"@ + current + "'): "@
}

/// Builds the prompt that asks for a new value of `field`, whose value is
/// now `current`.
pub fn keep_prompt(field: &str, current: &str) -> (r: String)
    ensures
        r@ == keep_prompt_text(field@, current@),
{
    let mut p = "Enter new ".to_owned();
    p.append(field);
    p.append(" (leave empty to keep '");
    p.append(current);
    p.append("'): ");
    p
}

/// The lines that show a record, with its creation and update times shown
/// as `created` and `updated`.
pub fn todo_lines(todo: &Todo, created: &str, updated: &str) -> (r: Vec<String>)
    ensures
        texts(r@) == todo_text(todo@, created@, updated@),
{
    let mut r: Vec<String> = Vec::new();
    r.push(field_line("ID", todo.id.as_str()));
    r.push(field_line("Title", todo.title.as_str()));
    r.push(field_line("Description", todo.description.as_str()));
    r.push(field_line("Status", todo.status.as_str()));
    r.push(field_line("Created At", created));
    r.push(field_line("Updated At", updated));
    r.push("-------------------------".to_owned());
    assert(texts(r@) =~= todo_text(todo@, created@, updated@));
    r
}

/// The shown form of a stored time, given its local form where the parser
/// gave one.
pub fn shown_datetime(stamp: &str, local: Option<String>) -> (r: String)
    ensures
        r@ == stamp_shown(stamp@, match local { Some(t) => Some(t@), None => None }),
{
    match local {
        Some(t) => t,
        None => stamp.to_owned(),
    }
}

/// A stored RFC 3339 time shown as `YYYY-MM-DD HH:MM:SS` in local time; a
/// stamp that does not parse is shown as it is.
pub fn format_datetime(stamp: &str) -> (r: String)
    ensures
        !rfc3339_accepts(stamp@) ==> r@ == stamp@,
        rfc3339_accepts(stamp@) ==> local_stamp_shape(r@),
{
    shown_datetime(stamp, local_display(stamp, "%Y-%m-%d %H:%M:%S"))
}

/// The lines that list a collection: a notice where it is empty, else a
/// heading and then each record in order.
pub fn list_todos(todos: &Vec<Todo>) -> (r: Vec<String>)
    ensures
        todos@.len() == 0 ==> texts(r@) == seq!["No todo items available."@],
        todos@.len() > 0 ==> {
            &&& r@.len() == 1 + 7 * todos@.len()
            &&& r@[0]@ == "Todo List:"@
            &&& forall|i: int| 0 <= i < todos@.len() ==> #[trigger] shows_record(
                texts(r@).subrange(1 + 7 * i, 8 + 7 * i),
                records(todos@)[i],
            )
        },
{
    let mut r: Vec<String> = Vec::new();
    if todos.len() == 0 {
        r.push("No todo items available.".to_owned());
        assert(texts(r@) =~= seq!["No todo items available."@]);
        return r;
    }
    r.push("Todo List:".to_owned());
    let mut i: usize = 0;
    while i < todos.len()
        invariant
            0 <= i <= todos@.len(),
            r@.len() == 1 + 7 * i,
            r@[0]@ == "Todo List:"@,
            forall|k: int| 0 <= k < i ==> #[trigger] shows_record(
                texts(r@).subrange(1 + 7 * k, 8 + 7 * k),
                records(todos@)[k],
            ),
        decreases todos@.len() - i,
    {
        let t = &todos[i];
        let created = format_datetime(t.created_at.as_str());
        let updated = format_datetime(t.updated_at.as_str());
        let mut block = todo_lines(t, created.as_str(), updated.as_str());
        let ghost before = r@;
        let ghost b = block@;
        assert(texts(b).len() == 7);
        assert(b.len() == 7);
        r.append(&mut block);
        proof {
            assert(r@ == before + b);
            assert forall|k: int| 0 <= k < i + 1 implies #[trigger] shows_record(
                texts(r@).subrange(1 + 7 * k, 8 + 7 * k),
                records(todos@)[k],
            ) by {
                if k < i {
                    assert(texts(r@).subrange(1 + 7 * k, 8 + 7 * k) =~= texts(before).subrange(1 + 7 * k, 8 + 7 * k));
                } else {
                    assert(texts(r@).subrange(1 + 7 * k, 8 + 7 * k) =~= texts(b));
                    assert(records(todos@)[k] == t@);
                    assert(todo_text(t@, created@, updated@) == texts(b));
                }
            }
        }
        i = i + 1;
    }
    r
}

} // verus!
