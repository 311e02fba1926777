//! Todos, sub-todos and the filters of the todo list.
use vstd::prelude::*;
use vstd::string::StringExecFns;
use crate::repeat::RepeatType;
use crate::text::{bool_str, bool_text, copy_text_opt};
use crate::timestamp::Timestamp;

verus! {

/// A todo. Identifiers are the 128 bits of a UUID.
///
/// Only `description` is required to create one; the identifier and the two
/// timestamps are assigned by the server, and the list of sub-todos is read-only.
#[derive(Clone, Debug)]
pub struct Todo {
    pub uuid: Option<u128>,
    pub created_at: Option<Timestamp>,
    pub updated_at: Option<Timestamp>,
    pub description: String,
    pub notice: Option<String>,
    pub pin: Option<bool>,
    pub completed: Option<bool>,
    pub completed_at: Option<Timestamp>,
    pub repeat_type: Option<RepeatType>,
    pub remind_time: Option<Timestamp>,
    pub estimated_pomo_count: Option<u64>,
    pub costed_pomo_count: Option<u64>,
    pub sub_todos: Option<Vec<u128>>,
}

/// A sub-todo, addressed under the identifier of its parent todo.
#[derive(Clone, Debug)]
pub struct SubTodo {
    pub uuid: Option<u128>,
    pub parent_uuid: Option<u128>,
    pub created_at: Option<Timestamp>,
    pub updated_at: Option<Timestamp>,
    pub description: String,
    pub completed: Option<bool>,
    pub completed_at: Option<Timestamp>,
}

/// The filters of the todo list; a filter left unset is not sent.
#[derive(Clone, Copy, Debug)]
pub struct TodoParameter {
    pub completed: Option<bool>,
    pub completed_later_than: Option<Timestamp>,
    pub completed_earlier_than: Option<Timestamp>,
}

impl Todo {
    /// The record as it is sent on creation: everything but the read-only
    /// list of sub-todos.
    pub open spec fn sent(self) -> Todo {
        Todo { sub_todos: None, ..self }
    }

    /// The record as it is sent on update: the identifier and the two
    /// server-assigned timestamps are left out as well.
    pub open spec fn sent_on_update(self) -> Todo {
        Todo { uuid: None, created_at: None, updated_at: None, sub_todos: None, ..self }
    }

    /// The payload of a creation.
    pub fn create_payload(&self) -> (r: Todo)
        ensures
            r == self.sent(),
    {
        Todo {
            uuid: self.uuid,
            created_at: self.created_at,
            updated_at: self.updated_at,
            description: self.description.clone(),
            notice: copy_text_opt(&self.notice),
            pin: self.pin,
            completed: self.completed,
            completed_at: self.completed_at,
            repeat_type: self.repeat_type,
            remind_time: self.remind_time,
            estimated_pomo_count: self.estimated_pomo_count,
            costed_pomo_count: self.costed_pomo_count,
            sub_todos: None,
        }
    }

    /// The payload of an update, which never holds the identifier or the
    /// server-assigned timestamps.
    pub fn update_payload(&self) -> (r: Todo)
        ensures
            r == self.sent_on_update(),
            r.uuid is None,
            r.created_at is None,
            r.updated_at is None,
    {
        Todo {
            uuid: None,
            created_at: None,
            updated_at: None,
            description: self.description.clone(),
            notice: copy_text_opt(&self.notice),
            pin: self.pin,
            completed: self.completed,
            completed_at: self.completed_at,
            repeat_type: self.repeat_type,
            remind_time: self.remind_time,
            estimated_pomo_count: self.estimated_pomo_count,
            costed_pomo_count: self.costed_pomo_count,
            sub_todos: None,
        }
    }
}

impl Default for Todo {
    fn default() -> (r: Todo)
        ensures
            r.uuid is None,
            r.created_at is None,
            r.updated_at is None,
            r.description@ == "New Todo Item via Rust client"@,
            r.notice is None,
            r.pin is None,
            r.completed is None,
            r.completed_at is None,
            r.repeat_type is None,
            r.remind_time is None,
            r.estimated_pomo_count is None,
            r.costed_pomo_count is None,
            r.sub_todos is None,
    {
        Todo {
            uuid: None,
            created_at: None,
            updated_at: None,
            description: String::from_str("New Todo Item via Rust client"),
            notice: None,
            pin: None,
            completed: None,
            completed_at: None,
            repeat_type: None,
            remind_time: None,
            estimated_pomo_count: None,
            costed_pomo_count: None,
            sub_todos: None,
        }
    }
}

impl SubTodo {
    /// The record as it is sent on update: without the identifier and the two
    /// server-assigned timestamps.
    pub open spec fn sent_on_update(self) -> SubTodo {
        SubTodo { uuid: None, created_at: None, updated_at: None, ..self }
    }

    /// The payload of a creation: the record itself.
    pub fn create_payload(&self) -> (r: SubTodo)
        ensures
            r == *self,
    {
        SubTodo {
            uuid: self.uuid,
            parent_uuid: self.parent_uuid,
            created_at: self.created_at,
            updated_at: self.updated_at,
            description: self.description.clone(),
            completed: self.completed,
            completed_at: self.completed_at,
        }
    }

    /// The payload of an update, which never holds the identifier or the
    /// server-assigned timestamps.
    pub fn update_payload(&self) -> (r: SubTodo)
        ensures
            r == self.sent_on_update(),
            r.uuid is None,
            r.created_at is None,
            r.updated_at is None,
    {
        SubTodo {
            uuid: None,
            parent_uuid: self.parent_uuid,
            created_at: None,
            updated_at: None,
            description: self.description.clone(),
            completed: self.completed,
            completed_at: self.completed_at,
        }
    }
}

impl Default for SubTodo {
    fn default() -> (r: SubTodo)
        ensures
            r.uuid is None,
            r.parent_uuid is None,
            r.created_at is None,
            r.updated_at is None,
            r.description@ == "New SubTodo Item via Rust client"@,
            r.completed is None,
            r.completed_at is None,
    {
        SubTodo {
            uuid: None,
            parent_uuid: None,
            created_at: None,
            updated_at: None,
            description: String::from_str("New SubTodo Item via Rust client"),
            completed: None,
            completed_at: None,
        }
    }
}

/// The text of an optional timestamp filter.
pub open spec fn timestamp_text_opt(t: Option<Timestamp>) -> Option<Seq<char>> {
    match t {
        Some(t) => Some(t.text()),
        None => None,
    }
}

/// The text of an optional flag filter.
pub open spec fn bool_text_opt(b: Option<bool>) -> Option<Seq<char>> {
    match b {
        Some(b) => Some(bool_text(b)),
        None => None,
    }
}

/// One `key=value` pair for a filter that is set, nothing for one that is not.
/// `key` ends with `=`.
pub open spec fn param_if_set(key: Seq<char>, value: Option<Seq<char>>) -> Seq<Seq<char>> {
    match value {
        Some(v) => seq![key + v],
        None => Seq::empty(),
    }
}

/// The pairs joined by `&`.
pub open spec fn join_params(ps: Seq<Seq<char>>) -> Seq<char>
    decreases ps.len(),
{
    if ps.len() == 0 {
        Seq::empty()
    } else if ps.len() == 1 {
        ps[0]
    } else {
        join_params(ps.drop_last()) + "&"@ + ps.last()
    }
}

/// Whether `s` begins with `p`.
pub open spec fn starts_with(s: Seq<char>, p: Seq<char>) -> bool {
    p.len() <= s.len() && s.subrange(0, p.len() as int) == p
}

impl TodoParameter {
    /// The query pairs of the filters that are set, in a fixed order.
    pub open spec fn params(self) -> Seq<Seq<char>> {
        param_if_set("completed="@, bool_text_opt(self.completed)) + param_if_set(
            "completed_later_than="@,
            timestamp_text_opt(self.completed_later_than),
        ) + param_if_set("completed_earlier_than="@, timestamp_text_opt(self.completed_earlier_than))
    }

    /// The filters given.
    pub open spec fn new_spec(
        completed: Option<bool>,
        completed_later_than: Option<Timestamp>,
        completed_earlier_than: Option<Timestamp>,
    ) -> TodoParameter {
        TodoParameter { completed, completed_later_than, completed_earlier_than }
    }

    /// The filters given.
    pub fn new(
        completed: Option<bool>,
        completed_later_than: Option<Timestamp>,
        completed_earlier_than: Option<Timestamp>,
    ) -> (r: TodoParameter)
        ensures
            r == TodoParameter::new_spec(completed, completed_later_than, completed_earlier_than),
    {
        TodoParameter { completed, completed_later_than, completed_earlier_than }
    }

    /// The query string of the filters that are set (without a leading `?`).
    pub fn to_query(&self) -> (r: String)
        ensures
            r@ == join_params(self.params()),
    {
        let mut q = String::new();
        let ghost mut ps: Seq<Seq<char>> = Seq::empty();
        let mut empty = true;
        if let Some(c) = self.completed {
            append_param(&mut q, empty, "completed=", bool_str(c), Ghost(ps));
            proof {
                ps = ps.push("completed="@ + bool_text(c));
            }
            empty = false;
        }
        assert(ps =~= param_if_set("completed="@, bool_text_opt(self.completed)));
        let ghost ps1 = ps;
        if let Some(t) = self.completed_later_than {
            let v = t.to_rfc3339();
            append_param(&mut q, empty, "completed_later_than=", v.as_str(), Ghost(ps));
            proof {
                ps = ps.push("completed_later_than="@ + t.text());
            }
            empty = false;
        }
        assert(ps =~= ps1 + param_if_set(
            "completed_later_than="@,
            timestamp_text_opt(self.completed_later_than),
        ));
        let ghost ps2 = ps;
        if let Some(t) = self.completed_earlier_than {
            let v = t.to_rfc3339();
            append_param(&mut q, empty, "completed_earlier_than=", v.as_str(), Ghost(ps));
            proof {
                ps = ps.push("completed_earlier_than="@ + t.text());
            }
        }
        assert(ps =~= ps2 + param_if_set(
            "completed_earlier_than="@,
            timestamp_text_opt(self.completed_earlier_than),
        ));
        assert(ps =~= self.params());
        q
    }
}

impl Default for TodoParameter {
    fn default() -> (r: TodoParameter)
        ensures
            r.completed == Some(false),
            r.completed_later_than is None,
            r.completed_earlier_than is None,
    {
        TodoParameter { completed: Some(false), completed_later_than: None, completed_earlier_than: None }
    }
}

/// Adds the pair `key` + `value` to the query `q` that joins the pairs `ps`.
fn append_param(q: &mut String, empty: bool, key: &str, value: &str, Ghost(ps): Ghost<Seq<Seq<char>>>)
    requires
        old(q)@ == join_params(ps),
        empty == (ps.len() == 0),
    ensures
        final(q)@ == join_params(ps.push(key@ + value@)),
{
    let ghost x = key@ + value@;
    assert(ps.push(x).drop_last() =~= ps);
    if !empty {
        q.append("&");
    }
    q.append(key);
    q.append(value);
    assert(final(q)@ =~= join_params(ps.push(x)));
}

/// A filter left unset is not sent: no pair of the query names it.
pub proof fn lemma_unset_filters_not_sent(p: TodoParameter)
    ensures
        p.completed is None ==> forall|i: int|
            0 <= i < p.params().len() ==> !starts_with(#[trigger] p.params()[i], "completed="@),
        p.completed_later_than is None ==> forall|i: int|
            0 <= i < p.params().len() ==> !starts_with(
                #[trigger] p.params()[i],
                "completed_later_than="@,
            ),
        p.completed_earlier_than is None ==> forall|i: int|
            0 <= i < p.params().len() ==> !starts_with(
                #[trigger] p.params()[i],
                "completed_earlier_than="@,
            ),
{
    reveal_strlit("completed=");
    reveal_strlit("completed_later_than=");
    reveal_strlit("completed_earlier_than=");
    let c = "completed="@;
    let l = "completed_later_than="@;
    let e = "completed_earlier_than="@;
    assert(c.len() == 10 && l.len() == 21 && e.len() == 23);
    assert(c[9] == '=' && l[9] == '_' && e[9] == '_' && l[10] == 'l' && e[10] == 'e');
    assert forall|i: int| 0 <= i < p.params().len() implies {
        let s = #[trigger] p.params()[i];
        &&& starts_with(s, c) ==> p.completed is Some
        &&& starts_with(s, l) ==> p.completed_later_than is Some
        &&& starts_with(s, e) ==> p.completed_earlier_than is Some
    } by {
        let s = p.params()[i];
        let a = param_if_set(c, bool_text_opt(p.completed));
        let b = param_if_set(l, timestamp_text_opt(p.completed_later_than));
        let d = param_if_set(e, timestamp_text_opt(p.completed_earlier_than));
        assert(p.params() == a + b + d);
        if i < a.len() {
            assert(s == c + bool_text_opt(p.completed)->0);
            assert(s[9] == c[9]);
            if starts_with(s, l) {
                assert(s.subrange(0, l.len() as int)[9] == l[9]);
            }
            if starts_with(s, e) {
                assert(s.subrange(0, e.len() as int)[9] == e[9]);
            }
        } else if i < a.len() + b.len() {
            assert(s == b[i - a.len()]);
            assert(s == l + timestamp_text_opt(p.completed_later_than)->0);
            assert(s[9] == l[9] && s[10] == l[10]);
            if starts_with(s, c) {
                assert(s.subrange(0, c.len() as int)[9] == c[9]);
            }
            if starts_with(s, e) {
                assert(s.subrange(0, e.len() as int)[10] == e[10]);
            }
        } else {
            assert(s == d[i - a.len() - b.len()]);
            assert(s == e + timestamp_text_opt(p.completed_earlier_than)->0);
            assert(s[9] == e[9] && s[10] == e[10]);
            if starts_with(s, c) {
                assert(s.subrange(0, c.len() as int)[9] == c[9]);
            }
            if starts_with(s, l) {
                assert(s.subrange(0, l.len() as int)[10] == l[10]);
            }
        }
    }
}

/// Whatever a todo or sub-todo holds, its update payload holds neither its
/// identifier nor its two server-assigned timestamps, and keeps every field
/// that the client may change.
pub proof fn lemma_update_payload_strips_server_fields(t: Todo, s: SubTodo)
    ensures
        t.sent_on_update().uuid is None,
        t.sent_on_update().created_at is None,
        t.sent_on_update().updated_at is None,
        t.sent_on_update().description == t.description,
        t.sent_on_update().notice == t.notice,
        t.sent_on_update().pin == t.pin,
        t.sent_on_update().completed == t.completed,
        t.sent_on_update().completed_at == t.completed_at,
        t.sent_on_update().repeat_type == t.repeat_type,
        t.sent_on_update().remind_time == t.remind_time,
        t.sent_on_update().estimated_pomo_count == t.estimated_pomo_count,
        t.sent_on_update().costed_pomo_count == t.costed_pomo_count,
        s.sent_on_update().uuid is None,
        s.sent_on_update().created_at is None,
        s.sent_on_update().updated_at is None,
        s.sent_on_update().parent_uuid == s.parent_uuid,
        s.sent_on_update().description == s.description,
        s.sent_on_update().completed == s.completed,
        s.sent_on_update().completed_at == s.completed_at,
{
}

} // verus!
