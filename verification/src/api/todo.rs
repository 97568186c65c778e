//! The todo endpoints: what each answers, and what it asks of the database
//! in between. The database calls themselves are made by the caller, which
//! hands each outcome back here.

use crate::models::todo::{is_response_of, text_or_default, text_or_empty, TodoModel, TodoModelResponse};
use crate::schemas::{CreateTodoSchema, FilterOptions, UpdateTodoSchema};
use crate::timestamp::Timestamp;
use vstd::prelude::*;

verus! {

/// The `status` word of a JSON answer.
#[derive(Clone, Copy, Debug, PartialEq, Eq, Structural)]
pub enum Status {
    Success,
    Fail,
    Error,
}

impl Status {
    /// The word as it stands in the JSON answer.
    pub fn as_str(&self) -> (s: &'static str)
        ensures
            s@ == status_word(*self),
    {
        match self {
            Status::Success => "success",
            Status::Fail => "fail",
            Status::Error => "error",
        }
    }
}

/// The word of each status.
pub open spec fn status_word(s: Status) -> Seq<char> {
    match s {
        Status::Success => "success"@,
        Status::Fail => "fail"@,
        Status::Error => "error"@,
    }
}

/// The body of an answer.
#[derive(Debug)]
pub enum ResponseBody {
    /// No body at all.
    NoContent,
    /// `{"status": .., "message": ..}`
    Message { status: Status, message: String },
    /// `{"status": "success", "message": "insert success", "data": ..}`
    Inserted { data: String },
    /// `{"status": "success", "data": {"todo": ..}}`
    Todo { todo: TodoModelResponse },
    /// `{"status": "success", "results": .., "todos": [..]}`
    TodoList { results: usize, todos: Vec<TodoModelResponse> },
}

/// An HTTP answer: its status code and its body.
#[derive(Debug)]
pub struct ApiResponse {
    pub code: u16,
    pub body: ResponseBody,
}

/// How a database call failed.
#[derive(Debug)]
pub struct DbError {
    /// The call found no row (sqlx's `RowNotFound`).
    pub row_not_found: bool,
    /// The error written with `{:?}`.
    pub debug: String,
    /// The error written with `{}`.
    pub display: String,
}

/// What a statement that changes rows reported.
#[derive(Debug)]
pub struct ExecSummary {
    pub rows_affected: u64,
    /// The report written with `{:?}`.
    pub debug: String,
}

/// `r` is a message answer with this code, status and text.
pub open spec fn is_message(r: ApiResponse, code: u16, status: Status, text: Seq<char>) -> bool {
    &&& r.code == code
    &&& r.body matches ResponseBody::Message { status: s, message } && s == status && message@ == text
}

/// `r` is a 200 answer that carries the response form of `t`.
pub open spec fn is_todo_answer(r: ApiResponse, t: TodoModel) -> bool {
    &&& r.code == 200
    &&& r.body matches ResponseBody::Todo { todo } && is_response_of(t, todo)
}

/// The text that says no todo has this id.
pub open spec fn missing_todo_text(id: Seq<char>) -> Seq<char> {
    "todo with ID: "@ + id + " not found"@
}

/// The text that says no todo has this id, as the delete endpoint writes it.
pub open spec fn missing_todo_text_capitalized(id: Seq<char>) -> Seq<char> {
    "Todo with ID: "@ + id + " not found"@
}

/// The text of an internal error whose display form is `e`.
pub open spec fn internal_error_text(e: Seq<char>) -> Seq<char> {
    "Internal server error: "@ + e
}

/// The text of the health check.
pub open spec fn health_text() -> Seq<char> {
    "Rust, SQLX, MySQL, Actix Web todo is Good🏃\u{200d}♂\u{fe0f}"@
}

fn message(code: u16, status: Status, text: String) -> (r: ApiResponse)
    ensures
        is_message(r, code, status, text@),
{
    ApiResponse { code, body: ResponseBody::Message { status, message: text } }
}

fn missing_todo_message(todo_id: &str) -> (m: String)
    ensures
        m@ == missing_todo_text(todo_id@),
{
    let mut m = String::from_str("todo with ID: ");
    m.append(todo_id);
    m.append(" not found");
    m
}

fn internal_error_message(e: &DbError) -> (m: String)
    ensures
        m@ == internal_error_text(e.display@),
{
    let mut m = String::from_str("Internal server error: ");
    m.append(e.display.as_str());
    m
}

/// The health check: the service is up.
pub fn health_checker_handler() -> (r: ApiResponse)
    ensures
        is_message(r, 200, Status::Success, health_text()),
{
    message(200, Status::Success, String::from_str("Rust, SQLX, MySQL, Actix Web todo is Good🏃\u{200d}♂\u{fe0f}"))
}

/// The response form of a stored record: NULL text columns become empty.
pub fn filter_db_record(todo: &TodoModel) -> (r: TodoModelResponse)
    ensures
        is_response_of(*todo, r),
{
    TodoModelResponse {
        id: todo.id,
        title: text_or_default(&todo.title),
        contents: text_or_default(&todo.contents),
        created_at: todo.created_at,
        updated_at: todo.updated_at,
        completed_at: todo.completed_at,
        is_completed: text_or_default(&todo.is_completed),
        is_deleted: text_or_default(&todo.is_deleted),
    }
}

/// The page size of a list request: 10 unless given.
pub open spec fn page_limit(opts: FilterOptions) -> usize {
    match opts.limit {
        Some(l) => l,
        None => 10,
    }
}

/// The page number of a list request: the first unless given.
pub open spec fn page_number(opts: FilterOptions) -> usize {
    match opts.page {
        Some(p) => p,
        None => 1,
    }
}

/// How many rows come before page `page` of size `limit`.
pub open spec fn offset_of_page(page: int, limit: int) -> int {
    (page - 1) * limit
}

/// How many rows come before the requested page.
pub open spec fn page_offset(opts: FilterOptions) -> int {
    offset_of_page(page_number(opts) as int, page_limit(opts) as int)
}

/// The `LIMIT` and `OFFSET` bound into the list query, each cut to 32 bits
/// as the query's `as i32` casts cut them.
#[derive(Clone, Copy, Debug, PartialEq, Eq, Structural)]
pub struct PageWindow {
    pub limit: i32,
    pub offset: i32,
}

/// The window of rows a list request asks for.
pub fn page_window(opts: &FilterOptions) -> (w: PageWindow)
    requires
        page_number(*opts) >= 1,
        page_offset(*opts) <= usize::MAX,
    ensures
        w.limit == page_limit(*opts) as i32,
        w.offset == (page_offset(*opts) as usize) as i32,
{
    let limit: usize = match opts.limit {
        Some(l) => l,
        None => 10,
    };
    let page: usize = match opts.page {
        Some(p) => p,
        None => 1,
    };
    let offset: usize = (page - 1) * limit;
    PageWindow { limit: limit as i32, offset: offset as i32 }
}

/// What `page_window` binds: the limit is the given one, or 10 where none is
/// given; the offset is (page - 1) times that same limit, the page being the
/// given one or 1; both cut to 32 bits. In particular page 2 of the default
/// size starts at row 10.
pub proof fn lemma_page_window_binds(opts: FilterOptions, w: PageWindow)
    requires
        w.limit == page_limit(opts) as i32,
        w.offset == (page_offset(opts) as usize) as i32,
    ensures
        w.limit == (match opts.limit {
            Some(l) => l,
            None => 10usize,
        }) as i32,
        w.offset == ((((match opts.page {
            Some(p) => p as int,
            None => 1int,
        }) - 1) * (match opts.limit {
            Some(l) => l as int,
            None => 10int,
        })) as usize) as i32,
        opts.limit is None ==> w.limit == 10,
        opts.limit is None && opts.page == Some(2usize) ==> w.offset == 10,
{
}

/// Consecutive pages meet: the next page starts where this one ends.
pub proof fn lemma_next_page_follows(page: usize, limit: usize)
    requires
        page >= 1,
        page < usize::MAX,
    ensures
        page_offset(FilterOptions { page: Some((page + 1) as usize), limit: Some(limit) })
            == page_offset(FilterOptions { page: Some(page), limit: Some(limit) }) + limit,
{
    assert(page * limit == (page - 1) * limit + limit) by (nonlinear_arith);
}

/// The rows that `LIMIT limit OFFSET offset` keeps of `rows`, the whole
/// ordered result of the list query (`ORDER BY id DESC`).
pub open spec fn window_rows<A>(rows: Seq<A>, limit: int, offset: int) -> Seq<A> {
    let n = rows.len() as int;
    let start = if offset < n { offset } else { n };
    let end = if offset + limit < n { offset + limit } else { n };
    rows.subrange(start, end)
}

/// The rows a list request for page `page` of size `limit` returns.
pub open spec fn page_rows<A>(rows: Seq<A>, page: int, limit: usize) -> Seq<A> {
    window_rows(rows, limit as int, offset_of_page(page, limit as int))
}

/// The rows of pages 1 to `k`, one page after another.
pub open spec fn first_pages<A>(rows: Seq<A>, limit: usize, k: nat) -> Seq<A>
    decreases k,
{
    if k == 0 {
        Seq::empty()
    } else {
        first_pages(rows, limit, (k - 1) as nat) + page_rows(rows, k as int, limit)
    }
}

/// Pages 1 to `k` are the first `k * limit` rows (all of them, if fewer).
proof fn lemma_first_pages_prefix<A>(rows: Seq<A>, limit: usize, k: nat)
    ensures
        first_pages(rows, limit, k) == rows.take(
            if k * limit < rows.len() { k * limit } else { rows.len() as int },
        ),
    decreases k,
{
    if k == 0 {
        assert(first_pages(rows, limit, k) =~= rows.take(0));
    } else {
        let j = (k - 1) as nat;
        lemma_first_pages_prefix(rows, limit, j);
        assert(j * limit + limit == k * limit) by (nonlinear_arith)
            requires
                j + 1 == k,
        ;
        assert(j * limit >= 0) by (nonlinear_arith);
        let n = rows.len() as int;
        let a = if j * limit < n { j * limit } else { n };
        let b = if k * limit < n { k * limit } else { n };
        assert(offset_of_page(k as int, limit as int) == j * limit);
        assert(page_rows(rows, k as int, limit) == rows.subrange(a, b));
        assert(rows.take(a) + rows.subrange(a, b) =~= rows.take(b));
    }
}

/// Paging through the list with a fixed page size returns every row once, in
/// order: pages 1 to ⌈n / limit⌉ put together are all `n` rows of the
/// ordered result, and the page after them is empty.
pub proof fn lemma_pages_cover_rows<A>(rows: Seq<A>, limit: usize)
    requires
        limit >= 1,
    ensures
        ({
            let last = (rows.len() + limit - 1) / (limit as int);
            &&& first_pages(rows, limit, last as nat) == rows
            &&& page_rows(rows, last + 1, limit).len() == 0
        }),
{
    let n = rows.len() as int;
    let l = limit as int;
    let last = (n + l - 1) / l;
    vstd::arithmetic::div_mod::lemma_fundamental_div_mod(n + l - 1, l);
    let r = (n + l - 1) % l;
    assert(0 <= r < l) by {
        vstd::arithmetic::div_mod::lemma_mod_pos_bound(n + l - 1, l);
    }
    assert(last >= 0) by {
        vstd::arithmetic::div_mod::lemma_div_pos_is_pos(n + l - 1, l);
    }
    assert(l * last >= n);
    assert(last <= n) by {
        if last > n {
            assert(l * last >= l * (n + 1)) by (nonlinear_arith)
                requires
                    l >= 1,
                    last >= n + 1,
            ;
            assert(l * (n + 1) >= n + l) by (nonlinear_arith)
                requires
                    l >= 1,
                    n >= 0,
            ;
        }
    }
    assert(last * l == l * last) by (nonlinear_arith);
    lemma_first_pages_prefix(rows, limit, last as nat);
    assert(rows.take(n) =~= rows);
    assert(offset_of_page(last + 1, l) == last * l);
}

/// The answer to a list request, given the rows the query returned.
pub fn todo_list_response(todos: Vec<TodoModel>) -> (r: ApiResponse)
    ensures
        r.code == 200,
        r.body matches ResponseBody::TodoList { results, todos: out } && {
            &&& results == todos.len()
            &&& out.len() == todos.len()
            &&& forall|i: int| 0 <= i < todos.len() ==> is_response_of(#[trigger] todos[i], out[i])
        },
{
    let mut out: Vec<TodoModelResponse> = Vec::new();
    let n = todos.len();
    for i in 0..n
        invariant
            n == todos.len(),
            out.len() == i,
            forall|j: int| 0 <= j < i ==> is_response_of(#[trigger] todos[j], out[j]),
    {
        out.push(filter_db_record(&todos[i]));
    }
    let results = out.len();
    ApiResponse { code: 200, body: ResponseBody::TodoList { results, todos: out } }
}

/// The row a create request inserts.
#[derive(Debug)]
pub struct NewTodo {
    pub title: String,
    pub contents: String,
    pub created_at: Timestamp,
    pub updated_at: Timestamp,
    pub is_completed: String,
    pub is_deleted: String,
}

/// The given instant, or `now`.
pub open spec fn instant_or(o: Option<Timestamp>, now: Timestamp) -> Timestamp {
    match o {
        Some(t) => t,
        None => now,
    }
}

/// The given text, or `"N"`.
pub open spec fn flag_or_no(o: Option<String>) -> Seq<char> {
    match o {
        Some(s) => s@,
        None => "N"@,
    }
}

fn flag_or_no_exec(o: &Option<String>) -> (s: String)
    ensures
        s@ == flag_or_no(*o),
{
    match o {
        Some(s) => s.clone(),
        None => String::from_str("N"),
    }
}

/// The row to insert for a create request made at `now`: text left out is
/// empty, instants left out are `now`, flags left out are `"N"`.
pub fn create_todo_params(body: &CreateTodoSchema, now: Timestamp) -> (row: NewTodo)
    ensures
        row.title@ == text_or_empty(body.title),
        row.contents@ == text_or_empty(body.contents),
        row.created_at == instant_or(body.created_at, now),
        row.updated_at == instant_or(body.updated_at, now),
        row.is_completed@ == flag_or_no(body.is_completed),
        row.is_deleted@ == flag_or_no(body.is_deleted),
{
    NewTodo {
        title: text_or_default(&body.title),
        contents: text_or_default(&body.contents),
        created_at: match body.created_at {
            Some(t) => t,
            None => now,
        },
        updated_at: match body.updated_at {
            Some(t) => t,
            None => now,
        },
        is_completed: flag_or_no_exec(&body.is_completed),
        is_deleted: flag_or_no_exec(&body.is_deleted),
    }
}

/// What a create request inserts: each column the body gives, verbatim
/// (an empty text or an `"N"` included); where it gives none, empty text,
/// `now`, or `"N"`.
pub proof fn lemma_create_inserts_given_columns(body: CreateTodoSchema, now: Timestamp, row: NewTodo)
    requires
        row.title@ == text_or_empty(body.title),
        row.contents@ == text_or_empty(body.contents),
        row.created_at == instant_or(body.created_at, now),
        row.updated_at == instant_or(body.updated_at, now),
        row.is_completed@ == flag_or_no(body.is_completed),
        row.is_deleted@ == flag_or_no(body.is_deleted),
    ensures
        match body.title {
            Some(s) => row.title@ == s@,
            None => row.title@.len() == 0,
        },
        match body.contents {
            Some(s) => row.contents@ == s@,
            None => row.contents@.len() == 0,
        },
        match body.created_at {
            Some(t) => row.created_at == t,
            None => row.created_at == now,
        },
        match body.updated_at {
            Some(t) => row.updated_at == t,
            None => row.updated_at == now,
        },
        match body.is_completed {
            Some(s) => row.is_completed@ == s@,
            None => row.is_completed@ == "N"@,
        },
        match body.is_deleted {
            Some(s) => row.is_deleted@ == s@,
            None => row.is_deleted@ == "N"@,
        },
{
}

/// The answer to a create request, given how the insert went.
pub fn create_todo_response(result: Result<ExecSummary, DbError>) -> (r: ApiResponse)
    ensures
        match result {
            Ok(s) => r.code == 200 && (r.body matches ResponseBody::Inserted { data } && data@ == s.debug@),
            Err(e) => is_message(r, 500, Status::Error, e.debug@),
        },
{
    match result {
        Ok(s) => ApiResponse { code: 200, body: ResponseBody::Inserted { data: s.debug } },
        Err(e) => message(500, Status::Error, e.debug),
    }
}

/// The answer to a lookup of the todo `todo_id`, given what the query found.
pub fn get_todo_response(todo_id: &str, found: Result<TodoModel, DbError>) -> (r: ApiResponse)
    ensures
        match found {
            Ok(t) => is_todo_answer(r, t),
            Err(e) => if e.row_not_found {
                is_message(r, 404, Status::Fail, missing_todo_text(todo_id@))
            } else {
                is_message(r, 500, Status::Error, e.debug@)
            },
        },
{
    match found {
        Ok(t) => {
            let todo = filter_db_record(&t);
            ApiResponse { code: 200, body: ResponseBody::Todo { todo } }
        },
        Err(e) => {
            if e.row_not_found {
                message(404, Status::Fail, missing_todo_message(todo_id))
            } else {
                message(500, Status::Error, e.debug)
            }
        },
    }
}

/// What a request does next: write to the database, or answer.
#[derive(Debug)]
pub enum Step<W> {
    Write(W),
    Respond(ApiResponse),
}

/// The `UPDATE` an edit request makes.
#[derive(Debug)]
pub struct TodoUpdate {
    pub title: String,
    pub contents: String,
    pub updated_at: Timestamp,
    pub is_completed: String,
    pub is_deleted: String,
    pub id: String,
}

/// The text an edit writes to a column: the given one, else the stored one.
pub open spec fn edited_text(given: Option<String>, stored: Option<String>) -> Seq<char> {
    match given {
        Some(s) => s@,
        None => text_or_empty(stored),
    }
}

/// Each column of `t` that `body` leaves out has a stored value to keep.
pub open spec fn edit_is_complete(body: UpdateTodoSchema, t: TodoModel) -> bool {
    &&& (body.title is Some || t.title is Some)
    &&& (body.contents is Some || t.contents is Some)
    &&& (body.is_completed is Some || t.is_completed is Some)
    &&& (body.is_deleted is Some || t.is_deleted is Some)
}

fn edited_column(given: &Option<String>, stored: &Option<String>) -> (s: String)
    requires
        given is Some || stored is Some,
    ensures
        s@ == edited_text(*given, *stored),
{
    match given {
        Some(s) => s.clone(),
        None => match stored {
            Some(s) => s.clone(),
            None => String::new(),
        },
    }
}

/// What an edit request for `todo_id` made at `now` does once the lookup of
/// the stored todo is back: on a find, write the body's columns over the
/// stored ones and stamp `updated_at`; else answer 404 or 500.
pub fn edit_todo_after_lookup(
    todo_id: &str,
    body: &UpdateTodoSchema,
    now: Timestamp,
    found: Result<TodoModel, DbError>,
) -> (step: Step<TodoUpdate>)
    requires
        found matches Ok(t) ==> edit_is_complete(*body, t),
    ensures
        match found {
            Ok(t) => step matches Step::Write(u) && {
                &&& u.title@ == edited_text(body.title, t.title)
                &&& u.contents@ == edited_text(body.contents, t.contents)
                &&& u.updated_at == now
                &&& u.is_completed@ == edited_text(body.is_completed, t.is_completed)
                &&& u.is_deleted@ == edited_text(body.is_deleted, t.is_deleted)
                &&& u.id@ == todo_id@
            },
            Err(e) => step matches Step::Respond(r) && if e.row_not_found {
                is_message(r, 404, Status::Fail, missing_todo_text(todo_id@))
            } else {
                is_message(r, 500, Status::Error, e.debug@)
            },
        },
{
    match found {
        Ok(t) => Step::Write(
            TodoUpdate {
                title: edited_column(&body.title, &t.title),
                contents: edited_column(&body.contents, &t.contents),
                updated_at: now,
                is_completed: edited_column(&body.is_completed, &t.is_completed),
                is_deleted: edited_column(&body.is_deleted, &t.is_deleted),
                id: String::from_str(todo_id),
            },
        ),
        Err(e) => Step::Respond(lookup_failure(todo_id, e)),
    }
}

/// What an edit writes: each column the body gives, verbatim (an empty text
/// included), whatever is stored; each column it leaves out, the stored text;
/// `updated_at` is the time of the request, and the row is the requested one.
pub proof fn lemma_edit_writes_given_columns(
    body: UpdateTodoSchema,
    t: TodoModel,
    now: Timestamp,
    todo_id: Seq<char>,
    u: TodoUpdate,
)
    requires
        u.title@ == edited_text(body.title, t.title),
        u.contents@ == edited_text(body.contents, t.contents),
        u.updated_at == now,
        u.is_completed@ == edited_text(body.is_completed, t.is_completed),
        u.is_deleted@ == edited_text(body.is_deleted, t.is_deleted),
        u.id@ == todo_id,
    ensures
        match body.title {
            Some(s) => u.title@ == s@,
            None => t.title matches Some(old) ==> u.title@ == old@,
        },
        match body.contents {
            Some(s) => u.contents@ == s@,
            None => t.contents matches Some(old) ==> u.contents@ == old@,
        },
        match body.is_completed {
            Some(s) => u.is_completed@ == s@,
            None => t.is_completed matches Some(old) ==> u.is_completed@ == old@,
        },
        match body.is_deleted {
            Some(s) => u.is_deleted@ == s@,
            None => t.is_deleted matches Some(old) ==> u.is_deleted@ == old@,
        },
        u.updated_at == now,
        u.id@ == todo_id,
{
}

fn lookup_failure(todo_id: &str, e: DbError) -> (r: ApiResponse)
    ensures
        if e.row_not_found {
            is_message(r, 404, Status::Fail, missing_todo_text(todo_id@))
        } else {
            is_message(r, 500, Status::Error, e.debug@)
        },
{
    if e.row_not_found {
        message(404, Status::Fail, missing_todo_message(todo_id))
    } else {
        message(500, Status::Error, e.debug)
    }
}

/// What an edit or a toggle of `todo_id` does once its `UPDATE` is back:
/// `None` to go on and read the row again, or the answer to give now.
pub fn after_update(todo_id: &str, result: Result<ExecSummary, DbError>) -> (r: Option<ApiResponse>)
    ensures
        match result {
            Ok(s) => if s.rows_affected == 0 {
                r matches Some(a) && is_message(a, 404, Status::Fail, missing_todo_text(todo_id@))
            } else {
                r is None
            },
            Err(e) => r matches Some(a) && is_message(a, 500, Status::Error, internal_error_text(e.display@)),
        },
{
    match result {
        Ok(s) => {
            if s.rows_affected == 0 {
                Some(message(404, Status::Fail, missing_todo_message(todo_id)))
            } else {
                None
            }
        },
        Err(e) => Some(message(500, Status::Error, internal_error_message(&e))),
    }
}

/// The answer to an edit or a toggle, given the row read after its `UPDATE`.
pub fn after_reload(found: Result<TodoModel, DbError>) -> (r: ApiResponse)
    ensures
        match found {
            Ok(t) => is_todo_answer(r, t),
            Err(e) => is_message(r, 500, Status::Error, e.debug@),
        },
{
    match found {
        Ok(t) => {
            let todo = filter_db_record(&t);
            ApiResponse { code: 200, body: ResponseBody::Todo { todo } }
        },
        Err(e) => message(500, Status::Error, e.debug),
    }
}

/// The flag a toggle writes: `"N"` where the stored flag is `"Y"`, else `"Y"`.
pub open spec fn toggled_flag(current: Option<Seq<char>>) -> Seq<char> {
    if current == Some("Y"@) {
        "N"@
    } else {
        "Y"@
    }
}

/// The flag a toggle writes over `current`.
pub fn toggle_flag(current: &Option<String>) -> (flag: String)
    ensures
        flag@ == toggled_flag(crate::models::todo::datetime_tz_format::opt_view(*current)),
{
    let yes = String::from_str("Y");
    match current {
        Some(s) => {
            if *s == yes {
                String::from_str("N")
            } else {
                yes
            }
        },
        None => yes,
    }
}

/// The `UPDATE` a toggle makes.
#[derive(Debug)]
pub struct CompletionUpdate {
    pub updated_at: Timestamp,
    pub is_completed: String,
    pub completed_at: Option<Timestamp>,
    pub id: String,
}

/// What a toggle of `todo_id` made at `now` does once the lookup is back:
/// on a find, flip the completion flag, set `completed_at` to `now` exactly
/// when the todo becomes complete, and stamp `updated_at`; else answer 404
/// or 500.
pub fn toggle_complete_after_lookup(
    todo_id: &str,
    now: Timestamp,
    found: Result<TodoModel, DbError>,
) -> (step: Step<CompletionUpdate>)
    ensures
        match found {
            Ok(t) => step matches Step::Write(u) && {
                let flag = toggled_flag(crate::models::todo::datetime_tz_format::opt_view(t.is_completed));
                &&& u.is_completed@ == flag
                &&& u.completed_at == (if flag == "Y"@ { Some(now) } else { None::<Timestamp> })
                &&& u.updated_at == now
                &&& u.id@ == todo_id@
            },
            Err(e) => step matches Step::Respond(r) && if e.row_not_found {
                is_message(r, 404, Status::Fail, missing_todo_text(todo_id@))
            } else {
                is_message(r, 500, Status::Error, e.debug@)
            },
        },
{
    match found {
        Ok(t) => {
            let flag = toggle_flag(&t.is_completed);
            let yes = String::from_str("Y");
            let completed_at = if flag == yes {
                Some(now)
            } else {
                None
            };
            Step::Write(
                CompletionUpdate {
                    updated_at: now,
                    is_completed: flag,
                    completed_at,
                    id: String::from_str(todo_id),
                },
            )
        },
        Err(e) => Step::Respond(lookup_failure(todo_id, e)),
    }
}

/// The answer to a delete of `todo_id`, given how the `DELETE` went.
pub fn delete_todo_response(todo_id: &str, result: Result<ExecSummary, DbError>) -> (r: ApiResponse)
    ensures
        match result {
            Ok(s) => if s.rows_affected == 0 {
                is_message(r, 404, Status::Fail, missing_todo_text_capitalized(todo_id@))
            } else {
                r.code == 204 && r.body is NoContent
            },
            Err(e) => is_message(r, 500, Status::Error, internal_error_text(e.display@)),
        },
{
    match result {
        Ok(s) => {
            if s.rows_affected == 0 {
                let mut m = String::from_str("Todo with ID: ");
                m.append(todo_id);
                m.append(" not found");
                message(404, Status::Fail, m)
            } else {
                ApiResponse { code: 204, body: ResponseBody::NoContent }
            }
        },
        Err(e) => message(500, Status::Error, internal_error_message(&e)),
    }
}

/// A toggle always writes `"Y"` or `"N"`, and two toggles in a row bring a
/// completed todo back to `"Y"` and any other back to `"N"`: a toggle undoes
/// the toggle before it.
pub proof fn lemma_toggle_twice(current: Option<Seq<char>>)
    ensures
        toggled_flag(current) == "Y"@ || toggled_flag(current) == "N"@,
        toggled_flag(Some(toggled_flag(current))) == (if current == Some("Y"@) { "Y"@ } else { "N"@ }),
        current == Some("Y"@) || current == Some("N"@) ==> toggled_flag(Some(toggled_flag(current))) == current->0,
{
    reveal_strlit("Y");
    reveal_strlit("N");
    assert("Y"@[0] != "N"@[0]);
}

/// What a toggle writes over a stored todo: a todo stored as completed
/// (`"Y"`) is reopened (`"N"`, no completion time); any other todo, one with no
/// flag included, is completed (`"Y"`, completed at the time of the request).
/// The completion time is set exactly when the written flag is `"Y"`.
pub proof fn lemma_toggle_writes(t: TodoModel, now: Timestamp, todo_id: Seq<char>, u: CompletionUpdate)
    requires
        u.is_completed@ == toggled_flag(crate::models::todo::datetime_tz_format::opt_view(t.is_completed)),
        u.completed_at == (if u.is_completed@ == "Y"@ { Some(now) } else { None::<Timestamp> }),
        u.updated_at == now,
        u.id@ == todo_id,
    ensures
        match t.is_completed {
            Some(s) => if s@ == "Y"@ {
                u.is_completed@ == "N"@ && u.completed_at is None
            } else {
                u.is_completed@ == "Y"@ && u.completed_at == Some(now)
            },
            None => u.is_completed@ == "Y"@ && u.completed_at == Some(now),
        },
        u.completed_at is Some <==> u.is_completed@ == "Y"@,
        u.updated_at == now,
{
    reveal_strlit("Y");
    reveal_strlit("N");
    assert("Y"@[0] != "N"@[0]);
}

/// A message answer has the code, status and text it was made with.
pub proof fn lemma_message_parts(r: ApiResponse, code: u16, status: Status, text: Seq<char>)
    requires
        is_message(r, code, status, text),
    ensures
        r.code == code,
        r.body is Message,
        r.body->Message_status == status,
        r.body->Message_message@ == text,
{
}

/// A found todo is answered with 200 and its own response form.
pub proof fn lemma_todo_answer_parts(r: ApiResponse, t: TodoModel)
    requires
        is_todo_answer(r, t),
    ensures
        r.code == 200,
        r.body is Todo,
        r.body->todo.id == t.id,
        r.body->todo.completed_at == t.completed_at,
        is_response_of(t, r.body->todo),
{
}

/// The three status words are `"success"`, `"fail"` and `"error"`, and no two
/// statuses share a word.
pub proof fn lemma_status_words(a: Status, b: Status)
    ensures
        status_word(Status::Success) == "success"@,
        status_word(Status::Fail) == "fail"@,
        status_word(Status::Error) == "error"@,
        status_word(a) == status_word(b) ==> a == b,
{
    reveal_strlit("success");
    reveal_strlit("fail");
    reveal_strlit("error");
    assert("success"@[0] != "fail"@[0]);
    assert("success"@[0] != "error"@[0]);
    assert("fail"@[0] != "error"@[0]);
}

/// A not-found message names the requested id: the id stands whole between
/// `"todo with ID: "` and `" not found"`, so two ids never share a message.
/// The same holds of the delete endpoint's capitalized message, and an
/// internal error message carries the whole error text after its prefix.
pub proof fn lemma_messages_carry_their_subject(a: Seq<char>, b: Seq<char>)
    ensures
        missing_todo_text(a).len() == a.len() + 24,
        missing_todo_text(a).subrange(0, 14) == "todo with ID: "@,
        missing_todo_text(a).subrange(14, 14 + a.len() as int) == a,
        missing_todo_text(a) == missing_todo_text(b) ==> a == b,
        missing_todo_text_capitalized(a).subrange(14, 14 + a.len() as int) == a,
        missing_todo_text_capitalized(a) == missing_todo_text_capitalized(b) ==> a == b,
        internal_error_text(a).subrange(23, 23 + a.len() as int) == a,
        internal_error_text(a) == internal_error_text(b) ==> a == b,
{
    reveal_strlit("todo with ID: ");
    reveal_strlit("Todo with ID: ");
    reveal_strlit(" not found");
    reveal_strlit("Internal server error: ");
    let m = missing_todo_text(a);
    assert(m.subrange(0, 14) =~= "todo with ID: "@);
    assert(m.subrange(14, 14 + a.len() as int) =~= a);
    assert(missing_todo_text(b).subrange(14, 14 + b.len() as int) =~= b);
    assert(missing_todo_text_capitalized(a).subrange(14, 14 + a.len() as int) =~= a);
    assert(missing_todo_text_capitalized(b).subrange(14, 14 + b.len() as int) =~= b);
    assert(internal_error_text(a).subrange(23, 23 + a.len() as int) =~= a);
    assert(internal_error_text(b).subrange(23, 23 + b.len() as int) =~= b);
}

} // verus!
