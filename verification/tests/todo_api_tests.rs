use todo_api::api::todo::{
    after_reload, after_update, create_todo_params, create_todo_response, delete_todo_response,
    edit_todo_after_lookup, filter_db_record, get_todo_response, health_checker_handler, page_window,
    todo_list_response, toggle_complete_after_lookup, toggle_flag, ApiResponse, DbError, ExecSummary,
    PageWindow, ResponseBody, Status, Step,
};
use todo_api::models::todo::TodoModel;
use todo_api::schemas::{CreateTodoSchema, FilterOptions, UpdateTodoSchema};
use todo_api::timestamp::Timestamp;

fn s(x: &str) -> String {
    x.to_string()
}

fn record(id: u64) -> TodoModel {
    TodoModel {
        id,
        title: Some(s("buy milk")),
        contents: Some(s("two bottles")),
        created_at: Some(Timestamp::new(100, 0)),
        updated_at: Some(Timestamp::new(200, 5)),
        completed_at: None,
        is_completed: Some(s("N")),
        is_deleted: Some(s("N")),
    }
}

fn bare_record(id: u64) -> TodoModel {
    TodoModel {
        id,
        title: None,
        contents: None,
        created_at: None,
        updated_at: None,
        completed_at: None,
        is_completed: None,
        is_deleted: None,
    }
}

fn db_error(not_found: bool) -> DbError {
    DbError { row_not_found: not_found, debug: s("Database(boom)"), display: s("boom") }
}

fn message_of(r: &ApiResponse) -> (Status, String) {
    match &r.body {
        ResponseBody::Message { status, message } => (*status, message.clone()),
        other => panic!("not a message: {:?}", other),
    }
}

#[test]
fn health_checker_answers_success() {
    let r = health_checker_handler();
    assert_eq!(r.code, 200);
    assert_eq!(message_of(&r), (Status::Success, s("Rust, SQLX, MySQL, Actix Web todo is Good🏃‍♂️")));
}

#[test]
fn status_words() {
    assert_eq!(Status::Success.as_str(), "success");
    assert_eq!(Status::Fail.as_str(), "fail");
    assert_eq!(Status::Error.as_str(), "error");
}

#[test]
fn filter_fills_missing_text_with_empty() {
    let r = filter_db_record(&bare_record(7));
    assert_eq!(r.id, 7);
    assert_eq!(r.title, "");
    assert_eq!(r.contents, "");
    assert_eq!(r.is_completed, "");
    assert_eq!(r.is_deleted, "");
    assert_eq!(r.created_at, None);
}

#[test]
fn filter_keeps_present_columns() {
    let r = filter_db_record(&record(3));
    assert_eq!(r.id, 3);
    assert_eq!(r.title, "buy milk");
    assert_eq!(r.contents, "two bottles");
    assert_eq!(r.created_at, Some(Timestamp::new(100, 0)));
    assert_eq!(r.updated_at, Some(Timestamp::new(200, 5)));
    assert_eq!(r.completed_at, None);
    assert_eq!(r.is_completed, "N");
}

#[test]
fn page_window_defaults() {
    let w = page_window(&FilterOptions { page: None, limit: None });
    assert_eq!(w, PageWindow { limit: 10, offset: 0 });
}

#[test]
fn page_window_third_page() {
    let w = page_window(&FilterOptions { page: Some(3), limit: Some(5) });
    assert_eq!(w, PageWindow { limit: 5, offset: 10 });
}

#[test]
fn page_window_cuts_to_32_bits() {
    let big: usize = (1usize << 32) + 7;
    let w = page_window(&FilterOptions { page: Some(1), limit: Some(big) });
    assert_eq!(w, PageWindow { limit: 7, offset: 0 });
}

#[test]
fn next_page_starts_where_this_one_ends() {
    for page in 1usize..6 {
        let a = page_window(&FilterOptions { page: Some(page), limit: Some(4) });
        let b = page_window(&FilterOptions { page: Some(page + 1), limit: Some(4) });
        assert_eq!(b.offset, a.offset + 4);
    }
}

#[test]
fn list_counts_and_converts_rows() {
    let r = todo_list_response(vec![record(2), bare_record(1)]);
    assert_eq!(r.code, 200);
    match r.body {
        ResponseBody::TodoList { results, todos } => {
            assert_eq!(results, 2);
            assert_eq!(todos[0].id, 2);
            assert_eq!(todos[0].title, "buy milk");
            assert_eq!(todos[1].id, 1);
            assert_eq!(todos[1].title, "");
        }
        other => panic!("{:?}", other),
    }
}

#[test]
fn empty_list() {
    let r = todo_list_response(vec![]);
    match r.body {
        ResponseBody::TodoList { results, todos } => {
            assert_eq!(results, 0);
            assert!(todos.is_empty());
        }
        other => panic!("{:?}", other),
    }
}

#[test]
fn create_defaults() {
    let now = Timestamp::new(1_700_000_000, 0);
    let body = CreateTodoSchema {
        title: None,
        contents: Some(s("x")),
        created_at: None,
        updated_at: Some(Timestamp::new(5, 0)),
        is_completed: None,
        is_deleted: Some(s("Y")),
    };
    let row = create_todo_params(&body, now);
    assert_eq!(row.title, "");
    assert_eq!(row.contents, "x");
    assert_eq!(row.created_at, now);
    assert_eq!(row.updated_at, Timestamp::new(5, 0));
    assert_eq!(row.is_completed, "N");
    assert_eq!(row.is_deleted, "Y");
}

#[test]
fn create_answers() {
    let ok = create_todo_response(Ok(ExecSummary { rows_affected: 1, debug: s("done") }));
    assert_eq!(ok.code, 200);
    match ok.body {
        ResponseBody::Inserted { data } => assert_eq!(data, "done"),
        other => panic!("{:?}", other),
    }
    let err = create_todo_response(Err(db_error(false)));
    assert_eq!(err.code, 500);
    assert_eq!(message_of(&err), (Status::Error, s("Database(boom)")));
}

#[test]
fn get_found() {
    let r = get_todo_response("4", Ok(record(4)));
    assert_eq!(r.code, 200);
    match r.body {
        ResponseBody::Todo { todo } => assert_eq!(todo.id, 4),
        other => panic!("{:?}", other),
    }
}

#[test]
fn get_missing() {
    let r = get_todo_response("42", Err(db_error(true)));
    assert_eq!(r.code, 404);
    assert_eq!(message_of(&r), (Status::Fail, s("todo with ID: 42 not found")));
}

#[test]
fn get_failure() {
    let r = get_todo_response("42", Err(db_error(false)));
    assert_eq!(r.code, 500);
    assert_eq!(message_of(&r), (Status::Error, s("Database(boom)")));
}

#[test]
fn edit_merges_body_over_record() {
    let body = UpdateTodoSchema { title: Some(s("new")), contents: None, is_completed: Some(s("Y")), is_deleted: None };
    let now = Timestamp::new(9, 9);
    match edit_todo_after_lookup("3", &body, now, Ok(record(3))) {
        Step::Write(u) => {
            assert_eq!(u.title, "new");
            assert_eq!(u.contents, "two bottles");
            assert_eq!(u.is_completed, "Y");
            assert_eq!(u.is_deleted, "N");
            assert_eq!(u.updated_at, now);
            assert_eq!(u.id, "3");
        }
        Step::Respond(r) => panic!("{:?}", r),
    }
}

#[test]
fn edit_missing_and_failure() {
    let body = UpdateTodoSchema { title: None, contents: None, is_completed: None, is_deleted: None };
    match edit_todo_after_lookup("8", &body, Timestamp::new(0, 0), Err(db_error(true))) {
        Step::Respond(r) => {
            assert_eq!(r.code, 404);
            assert_eq!(message_of(&r), (Status::Fail, s("todo with ID: 8 not found")));
        }
        Step::Write(u) => panic!("{:?}", u),
    }
    match edit_todo_after_lookup("8", &body, Timestamp::new(0, 0), Err(db_error(false))) {
        Step::Respond(r) => assert_eq!(r.code, 500),
        Step::Write(u) => panic!("{:?}", u),
    }
}

#[test]
fn update_outcomes() {
    assert!(after_update("5", Ok(ExecSummary { rows_affected: 1, debug: s("") })).is_none());
    let missing = after_update("5", Ok(ExecSummary { rows_affected: 0, debug: s("") })).unwrap();
    assert_eq!(missing.code, 404);
    assert_eq!(message_of(&missing), (Status::Fail, s("todo with ID: 5 not found")));
    let failed = after_update("5", Err(db_error(false))).unwrap();
    assert_eq!(failed.code, 500);
    assert_eq!(message_of(&failed), (Status::Error, s("Internal server error: boom")));
}

#[test]
fn reload_outcomes() {
    let ok = after_reload(Ok(record(6)));
    assert_eq!(ok.code, 200);
    let err = after_reload(Err(db_error(true)));
    assert_eq!(err.code, 500);
    assert_eq!(message_of(&err), (Status::Error, s("Database(boom)")));
}

#[test]
fn toggle_flag_values() {
    assert_eq!(toggle_flag(&Some(s("Y"))), "N");
    assert_eq!(toggle_flag(&Some(s("N"))), "Y");
    assert_eq!(toggle_flag(&Some(s("maybe"))), "Y");
    assert_eq!(toggle_flag(&None), "Y");
}

#[test]
fn toggle_twice_restores_flag() {
    for start in ["Y", "N"] {
        let once = toggle_flag(&Some(s(start)));
        let twice = toggle_flag(&Some(once));
        assert_eq!(twice, start);
    }
}

#[test]
fn toggle_completes_open_todo() {
    let now = Timestamp::new(77, 0);
    match toggle_complete_after_lookup("3", now, Ok(record(3))) {
        Step::Write(u) => {
            assert_eq!(u.is_completed, "Y");
            assert_eq!(u.completed_at, Some(now));
            assert_eq!(u.updated_at, now);
            assert_eq!(u.id, "3");
        }
        Step::Respond(r) => panic!("{:?}", r),
    }
}

#[test]
fn toggle_reopens_done_todo() {
    let mut t = record(3);
    t.is_completed = Some(s("Y"));
    t.completed_at = Some(Timestamp::new(1, 0));
    match toggle_complete_after_lookup("3", Timestamp::new(77, 0), Ok(t)) {
        Step::Write(u) => {
            assert_eq!(u.is_completed, "N");
            assert_eq!(u.completed_at, None);
        }
        Step::Respond(r) => panic!("{:?}", r),
    }
}

#[test]
fn toggle_missing() {
    match toggle_complete_after_lookup("9", Timestamp::new(0, 0), Err(db_error(true))) {
        Step::Respond(r) => assert_eq!(message_of(&r), (Status::Fail, s("todo with ID: 9 not found"))),
        Step::Write(u) => panic!("{:?}", u),
    }
}

#[test]
fn delete_outcomes() {
    let gone = delete_todo_response("5", Ok(ExecSummary { rows_affected: 1, debug: s("") }));
    assert_eq!(gone.code, 204);
    assert!(matches!(gone.body, ResponseBody::NoContent));
    let missing = delete_todo_response("5", Ok(ExecSummary { rows_affected: 0, debug: s("") }));
    assert_eq!(missing.code, 404);
    assert_eq!(message_of(&missing), (Status::Fail, s("Todo with ID: 5 not found")));
    let failed = delete_todo_response("5", Err(db_error(false)));
    assert_eq!(failed.code, 500);
    assert_eq!(message_of(&failed), (Status::Error, s("Internal server error: boom")));
}
