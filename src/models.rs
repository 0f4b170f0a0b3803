use vstd::prelude::*;
use vstd::utf8::encode_utf8;

verus! {

/// Longest title, in UTF-8 bytes, that a create request may carry.
pub const MAX_TITLE_LEN: usize = 200;

/// A todo item as the store holds it.
#[derive(Debug)]
pub struct Todo {
    pub id: String,
    pub title: String,
    pub completed: bool,
    pub created_at: i64,
}

impl Clone for Todo {
    fn clone(&self) -> (r: Self)
        ensures
            r == *self,
    {
        Todo {
            id: self.id.clone(),
            title: self.title.clone(),
            completed: self.completed,
            created_at: self.created_at,
        }
    }
}

/// Relies on `uuid::Uuid::new_v4` and its `Display`: a random version-4 id,
/// written as 36 hyphenated hex digits.
#[verifier::external_body]
fn fresh_id() -> (r: String)
    ensures
        r@.len() == 36,
{
    uuid::Uuid::new_v4().to_string()
}

/// Relies on `chrono::Utc::now` and `DateTime::timestamp`: the current time in
/// whole seconds since the Unix epoch. Only the clock decides the value.
#[verifier::external_body]
pub(crate) fn now_seconds() -> (r: i64) {
    chrono::Utc::now().timestamp()
}

impl Todo {
    /// A new, not yet completed todo with a fresh id and the current time.
    pub fn new(title: String) -> (r: Todo)
        ensures
            r.title == title,
            !r.completed,
            r.id@.len() == 36,
    {
        let id = fresh_id();
        let created_at = now_seconds();
        Todo::with_identity(id, title, created_at)
    }

    /// A new, not yet completed todo with the given id and creation time.
    pub fn with_identity(id: String, title: String, created_at: i64) -> (r: Todo)
        ensures
            r.id == id,
            r.title == title,
            !r.completed,
            r.created_at == created_at,
    {
        Todo { id, title, completed: false, created_at }
    }
}

/// The body of a create request.
#[derive(Debug)]
pub struct CreateTodoRequest {
    pub title: String,
}

/// The body of an update request: each field that is present replaces the
/// stored one.
#[derive(Debug)]
pub struct UpdateTodoRequest {
    pub title: Option<String>,
    pub completed: Option<bool>,
}

/// The characters that Unicode gives the White_Space property.
pub open spec fn is_white_space(c: char) -> bool {
    ('\u{9}' <= c && c <= '\u{d}') || c == ' ' || c == '\u{85}' || c == '\u{a0}'
        || c == '\u{1680}' || ('\u{2000}' <= c && c <= '\u{200a}') || c == '\u{2028}'
        || c == '\u{2029}' || c == '\u{202f}' || c == '\u{205f}' || c == '\u{3000}'
}

/// A text that trimming leaves empty: every character is white space.
pub open spec fn is_blank(s: Seq<char>) -> bool {
    forall|i: int| 0 <= i < s.len() ==> is_white_space(#[trigger] s[i])
}

/// The length of a text in UTF-8 bytes.
pub open spec fn utf8_len(s: Seq<char>) -> nat {
    encode_utf8(s).len()
}

/// A title that a create request may carry.
pub open spec fn title_is_valid(title: &String) -> bool {
    !is_blank(title@) && utf8_len(title@) <= MAX_TITLE_LEN
}

/// The message with which a create request with this title is refused.
pub open spec fn title_error(title: &String) -> Seq<char> {
    if is_blank(title@) {
        "Title cannot be empty"@
    } else {
        "Title too long"@
    }
}

/// Relies on `char::is_whitespace`, documented as the Unicode White_Space
/// property.
#[verifier::external_body]
fn char_is_whitespace(c: char) -> (r: bool)
    ensures
        r == is_white_space(c),
{
    c.is_whitespace()
}

/// Whether every character of `s` is white space.
pub fn blank(s: &str) -> (r: bool)
    ensures
        r == is_blank(s@),
{
    let n = s.unicode_len();
    let mut i: usize = 0;
    while i < n
        invariant
            n == s@.len(),
            i <= n,
            forall|j: int| 0 <= j < i ==> is_white_space(#[trigger] s@[j]),
        decreases n - i,
    {
        if !char_is_whitespace(s.get_char(i)) {
            return false;
        }
        i = i + 1;
    }
    true
}

impl CreateTodoRequest {
    /// Accepts a title that is not blank and at most `MAX_TITLE_LEN` bytes long.
    pub fn validate(&self) -> (r: Result<(), String>)
        ensures
            r is Ok <==> title_is_valid(&self.title),
            r matches Err(msg) ==> msg@ == title_error(&self.title),
    {
        if blank(self.title.as_str()) {
            return Err("Title cannot be empty".to_string());
        }
        if self.title.as_str().as_bytes().len() > MAX_TITLE_LEN {
            return Err("Title too long".to_string());
        }
        Ok(())
    }
}

/// The reply to a list request: every todo and how many there are.
#[derive(Debug)]
pub struct TodoResponse {
    pub data: Vec<Todo>,
    pub count: usize,
}

impl TodoResponse {
    pub fn new(todos: Vec<Todo>) -> (r: TodoResponse)
        ensures
            r.data@ == todos@,
            r.count == todos@.len(),
    {
        let count = todos.len();
        TodoResponse { data: todos, count }
    }
}

/// The reply to a delete request that removed a todo.
#[derive(Debug)]
pub struct DeleteResponse {
    pub message: String,
    pub id: String,
}

} // verus!
