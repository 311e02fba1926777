//! The authenticated session and the request of every operation of the API.
use vstd::prelude::*;
use vstd::string::StringExecFns;
use crate::account::Account;
use crate::pomo::Pomo;
use crate::request::{method_of, success_status, ApiError, Method, Operation, Payload, Request};
use crate::text::{bool_str, bool_text, json_string, json_string_of, uuid_text, uuid_text_of};
use crate::timestamp::Timestamp;
use crate::todo::{join_params, SubTodo, Todo, TodoParameter};

verus! {

/// The address of the account.
pub open spec fn account_url() -> Seq<char> {
    "https://api.pomotodo.com/1/account"@
}

/// `/` and the identifier, or nothing.
pub open spec fn id_segment(id: Option<u128>) -> Seq<char> {
    match id {
        Some(i) => "/"@ + uuid_text_of(i),
        None => Seq::empty(),
    }
}

/// The address of the pomos, or of one pomo.
pub open spec fn pomos_url(id: Option<u128>) -> Seq<char> {
    "https://api.pomotodo.com/1/pomos"@ + id_segment(id)
}

/// The address of the todos, or of one todo.
pub open spec fn todos_url(id: Option<u128>) -> Seq<char> {
    "https://api.pomotodo.com/1/todos"@ + id_segment(id)
}

/// The address of the sub-todos of `parent`, or of one of them.
pub open spec fn sub_todos_url(parent: u128, id: Option<u128>) -> Seq<char> {
    todos_url(Some(parent)) + "/sub_todos"@ + id_segment(id)
}

/// The address of the pomo list, with both flags always in the query.
pub open spec fn pomo_list_url(id: Option<u128>, manual: bool, abandoned: bool) -> Seq<char> {
    pomos_url(id) + "?manual="@ + bool_text(manual) + "&abandoned="@ + bool_text(abandoned)
}

/// The address of the todo list; the query holds only the filters that are set,
/// and is left out with its `?` when none is.
pub open spec fn todo_list_url(id: Option<u128>, p: TodoParameter) -> Seq<char> {
    let q = join_params(p.params());
    if q.len() == 0 {
        todos_url(id)
    } else {
        todos_url(id) + "?"@ + q
    }
}

/// The body of a pomo update: the description alone.
pub open spec fn pomo_patch_body(description: Seq<char>) -> Seq<char> {
    "{\"description\":"@ + json_string_of(description) + "}"@
}

/// The value of the `Authorization` header for `token`.
pub open spec fn authorization_of(token: Seq<char>) -> Seq<char> {
    "token "@ + token
}

/// Whether `r` is the request of `op` on `url` with body `payload`, authorised by `token`.
pub open spec fn is_request(
    r: Request,
    op: Operation,
    url: Seq<char>,
    token: Seq<char>,
    payload: Payload,
) -> bool {
    &&& r.method == method_of(op)
    &&& r.url@ == url
    &&& r.authorization@ == authorization_of(token)
    &&& r.payload == payload
    &&& r.expected_status == success_status(op)
}

fn authorization(token: &str) -> (r: String)
    ensures
        r@ == authorization_of(token@),
{
    let mut a = String::from_str("token ");
    a.append(token);
    a
}

fn append_id(url: &mut String, id: Option<u128>)
    ensures
        final(url)@ == old(url)@ + id_segment(id),
{
    match id {
        Some(i) => {
            let t = uuid_text(i);
            url.append("/");
            url.append(t.as_str());
        },
        None => {},
    }
}

fn pomos_address(id: Option<u128>) -> (r: String)
    ensures
        r@ == pomos_url(id),
{
    let mut u = String::from_str("https://api.pomotodo.com/1/pomos");
    append_id(&mut u, id);
    u
}

fn todos_address(id: Option<u128>) -> (r: String)
    ensures
        r@ == todos_url(id),
{
    let mut u = String::from_str("https://api.pomotodo.com/1/todos");
    append_id(&mut u, id);
    u
}

fn sub_todos_address(parent: u128, id: Option<u128>) -> (r: String)
    ensures
        r@ == sub_todos_url(parent, id),
{
    let mut u = todos_address(Some(parent));
    u.append("/sub_todos");
    append_id(&mut u, id);
    u
}

/// An authenticated session: the token and the account fetched with it.
#[derive(Clone, Debug)]
pub struct Session {
    token: String,
    account: Option<Account>,
}

impl Session {
    /// The token that authorises every request.
    pub closed spec fn spec_token(self) -> Seq<char> {
        self.token@
    }

    /// The account snapshot taken when the session was opened.
    pub closed spec fn spec_account(self) -> Option<Account> {
        self.account
    }

    /// The request that checks `token` and fetches the account: the first step
    /// of opening a session.
    pub fn account_request(token: &str) -> (r: Request)
        ensures
            is_request(r, Operation::Fetch, account_url(), token@, Payload::Empty),
    {
        Request::new(
            Operation::Fetch,
            String::from_str("https://api.pomotodo.com/1/account"),
            authorization(token),
            Payload::Empty,
        )
    }

    /// The session of `token`, once the account request was answered with
    /// `account`.
    pub fn with_token(token: &str, account: Account) -> (r: Session)
        ensures
            r.spec_token() == token@,
            r.spec_account() == Some(account),
    {
        Session { token: String::from_str(token), account: Some(account) }
    }

    /// The account snapshot taken when the session was opened; no request is made.
    pub fn get_account(&self) -> (r: Option<Account>)
        ensures
            r == self.spec_account(),
    {
        match &self.account {
            Some(a) => Some(a.copy()),
            None => None,
        }
    }

    fn request(&self, op: Operation, url: String, payload: Payload) -> (r: Request)
        ensures
            is_request(r, op, url@, self.spec_token(), payload),
    {
        Request::new(op, url, authorization(self.token.as_str()), payload)
    }

    /// Lists the pomos, or fetches one, with the `manual` and `abandoned` flags.
    pub fn get_pomo(&self, uuid: Option<u128>, manual: bool, abandoned: bool) -> (r: Request)
        ensures
            is_request(
                r,
                Operation::Fetch,
                pomo_list_url(uuid, manual, abandoned),
                self.spec_token(),
                Payload::Empty,
            ),
    {
        let mut url = pomos_address(uuid);
        url.append("?manual=");
        url.append(bool_str(manual));
        url.append("&abandoned=");
        url.append(bool_str(abandoned));
        self.request(Operation::Fetch, url, Payload::Empty)
    }

    /// Creates a pomo.
    pub fn create_pomo(&self, pomo: &Pomo) -> (r: Request)
        ensures
            is_request(r, Operation::Create, pomos_url(None), self.spec_token(), Payload::Pomo(*pomo)),
    {
        self.request(Operation::Create, pomos_address(None), Payload::Pomo(pomo.create_payload()))
    }

    /// Changes the description of a pomo, the one field that can change.
    pub fn update_pomo(&self, uuid: u128, description: &str) -> (r: Request)
        ensures
            r.payload matches Payload::Json(b) && b@ == pomo_patch_body(description@),
            is_request(r, Operation::Update, pomos_url(Some(uuid)), self.spec_token(), r.payload),
    {
        let mut body = String::from_str("{\"description\":");
        let d = json_string(description);
        body.append(d.as_str());
        body.append("}");
        self.request(Operation::Update, pomos_address(Some(uuid)), Payload::Json(body))
    }

    /// Deletes a pomo.
    pub fn delete_pomo(&self, uuid: u128) -> (r: Request)
        ensures
            is_request(r, Operation::Delete, pomos_url(Some(uuid)), self.spec_token(), Payload::Empty),
    {
        self.request(Operation::Delete, pomos_address(Some(uuid)), Payload::Empty)
    }

    /// Lists the todos, or fetches one, with the filters that are given.
    pub fn get_todo(
        &self,
        uuid: Option<u128>,
        completed: Option<bool>,
        completed_later_than: Option<Timestamp>,
        completed_earlier_than: Option<Timestamp>,
    ) -> (r: Request)
        ensures
            is_request(
                r,
                Operation::Fetch,
                todo_list_url(
                    uuid,
                    TodoParameter::new_spec(completed, completed_later_than, completed_earlier_than),
                ),
                self.spec_token(),
                Payload::Empty,
            ),
    {
        let p = TodoParameter::new(completed, completed_later_than, completed_earlier_than);
        let q = p.to_query();
        let mut url = todos_address(uuid);
        if !q.as_str().is_empty() {
            url.append("?");
            url.append(q.as_str());
        }
        self.request(Operation::Fetch, url, Payload::Empty)
    }

    /// Creates a todo; the read-only list of sub-todos is not sent.
    pub fn create_todo(&self, todo: &Todo) -> (r: Request)
        ensures
            is_request(r, Operation::Create, todos_url(None), self.spec_token(), Payload::Todo(todo.sent())),
    {
        self.request(Operation::Create, todos_address(None), Payload::Todo(todo.create_payload()))
    }

    /// Updates a todo, addressed by its identifier; the payload never holds the
    /// identifier or the server-assigned timestamps. A todo without an
    /// identifier is refused before any request is made.
    pub fn update_todo(&self, todo: &Todo) -> (r: Result<Request, ApiError>)
        ensures
            todo.uuid is None ==> r matches Err(ApiError::Validation),
            todo.uuid matches Some(id) ==> r matches Ok(q) && is_request(
                q,
                Operation::Update,
                todos_url(Some(id)),
                self.spec_token(),
                Payload::Todo(todo.sent_on_update()),
            ),
    {
        match todo.uuid {
            None => Err(ApiError::Validation),
            Some(id) => Ok(
                self.request(Operation::Update, todos_address(Some(id)), Payload::Todo(todo.update_payload())),
            ),
        }
    }

    /// Deletes a todo.
    pub fn delete_todo(&self, uuid: u128) -> (r: Request)
        ensures
            is_request(r, Operation::Delete, todos_url(Some(uuid)), self.spec_token(), Payload::Empty),
    {
        self.request(Operation::Delete, todos_address(Some(uuid)), Payload::Empty)
    }

    /// Lists the sub-todos of a todo.
    pub fn get_subtodo(&self, parent_id: u128) -> (r: Request)
        ensures
            is_request(r, Operation::Fetch, sub_todos_url(parent_id, None), self.spec_token(), Payload::Empty),
    {
        self.request(Operation::Fetch, sub_todos_address(parent_id, None), Payload::Empty)
    }

    /// Creates a sub-todo under a todo.
    pub fn create_subtodo(&self, parent_id: u128, sub_todo: &SubTodo) -> (r: Request)
        ensures
            is_request(
                r,
                Operation::Create,
                sub_todos_url(parent_id, None),
                self.spec_token(),
                Payload::SubTodo(*sub_todo),
            ),
    {
        self.request(
            Operation::Create,
            sub_todos_address(parent_id, None),
            Payload::SubTodo(sub_todo.create_payload()),
        )
    }

    /// Updates a sub-todo, addressed by its parent and its own identifier; the
    /// payload never holds the identifier or the server-assigned timestamps. A
    /// sub-todo without an identifier is refused before any request is made.
    pub fn update_subtodo(&self, parent_id: u128, sub_todo: &SubTodo) -> (r: Result<Request, ApiError>)
        ensures
            sub_todo.uuid is None ==> r matches Err(ApiError::Validation),
            sub_todo.uuid matches Some(id) ==> r matches Ok(q) && is_request(
                q,
                Operation::Update,
                sub_todos_url(parent_id, Some(id)),
                self.spec_token(),
                Payload::SubTodo(sub_todo.sent_on_update()),
            ),
    {
        match sub_todo.uuid {
            None => Err(ApiError::Validation),
            Some(id) => Ok(
                self.request(
                    Operation::Update,
                    sub_todos_address(parent_id, Some(id)),
                    Payload::SubTodo(sub_todo.update_payload()),
                ),
            ),
        }
    }

    /// Deletes a sub-todo.
    pub fn delete_subtodo(&self, parent_id: u128, uuid: u128) -> (r: Request)
        ensures
            is_request(
                r,
                Operation::Delete,
                sub_todos_url(parent_id, Some(uuid)),
                self.spec_token(),
                Payload::Empty,
            ),
    {
        self.request(Operation::Delete, sub_todos_address(parent_id, Some(uuid)), Payload::Empty)
    }
}

} // verus!
