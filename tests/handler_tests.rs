use todo_service::config::Config;
use todo_service::error::{error_status, handle_rejection, AppError, Rejection};
use todo_service::handlers::{create_todo, delete_todo, get_todo_by_id, get_todos, update_todo};
use todo_service::models::{CreateTodoRequest, Todo, TodoResponse, UpdateTodoRequest};
use todo_service::store::{InMemoryStore, Store};

fn create(title: &str) -> CreateTodoRequest {
    CreateTodoRequest { title: title.to_string() }
}

fn invalid_message(r: Result<Todo, AppError>) -> String {
    match r {
        Err(AppError::InvalidInput(msg)) => msg,
        other => panic!("expected InvalidInput, got {:?}", other),
    }
}

#[test]
fn create_rejects_empty_and_blank_titles() {
    let mut store = InMemoryStore::new();
    assert_eq!(invalid_message(create_todo(create(""), &mut store)), "Title cannot be empty");
    assert_eq!(invalid_message(create_todo(create("   \t\n"), &mut store)), "Title cannot be empty");
    assert_eq!(invalid_message(create_todo(create("\u{3000}\u{a0}"), &mut store)), "Title cannot be empty");
    assert_eq!(store.count(), 0);
}

#[test]
fn create_title_length_limit() {
    let mut store = InMemoryStore::new();
    let ok = create_todo(create(&"a".repeat(200)), &mut store).unwrap();
    assert_eq!(ok.title.len(), 200);
    assert_eq!(invalid_message(create_todo(create(&"a".repeat(201)), &mut store)), "Title too long");
    assert_eq!(store.count(), 1);
}

#[test]
fn title_length_counts_bytes() {
    let ok = create(&"é".repeat(100));
    assert!(ok.validate().is_ok());
    let long = create(&"é".repeat(101));
    assert_eq!(long.validate(), Err("Title too long".to_string()));
}

#[test]
fn title_with_text_around_spaces_is_valid() {
    assert!(create("  buy milk  ").validate().is_ok());
}

#[test]
fn update_only_completed_keeps_title() {
    let mut store = InMemoryStore::new();
    let t = create_todo(create("walk the dog"), &mut store).unwrap();
    let req = UpdateTodoRequest { title: None, completed: Some(true) };
    let u = update_todo(&t.id, req, &mut store).unwrap();
    assert_eq!(u.title, "walk the dog");
    assert!(u.completed);
    assert_eq!(u.id, t.id);
    assert_eq!(u.created_at, t.created_at);
}

#[test]
fn update_only_title_keeps_completed() {
    let mut store = InMemoryStore::new();
    let t = create_todo(create("walk the dog"), &mut store).unwrap();
    update_todo(&t.id, UpdateTodoRequest { title: None, completed: Some(true) }, &mut store).unwrap();
    let req = UpdateTodoRequest { title: Some("walk the cat".to_string()), completed: None };
    let u = update_todo(&t.id, req, &mut store).unwrap();
    assert_eq!(u.title, "walk the cat");
    assert!(u.completed);
}

#[test]
fn update_missing_id_is_not_found() {
    let mut store = InMemoryStore::new();
    create_todo(create("keep me"), &mut store).unwrap();
    let req = UpdateTodoRequest { title: Some("x".to_string()), completed: Some(true) };
    assert!(matches!(update_todo("nope", req, &mut store), Err(AppError::NotFound)));
    assert_eq!(store.count(), 1);
    assert_eq!(store.get_all()[0].title, "keep me");
}

#[test]
fn delete_twice_is_ok_then_not_found() {
    let mut store = InMemoryStore::new();
    let t = create_todo(create("once"), &mut store).unwrap();
    assert!(delete_todo(&t.id, &mut store).is_ok());
    assert!(matches!(delete_todo(&t.id, &mut store), Err(AppError::NotFound)));
}

#[test]
fn list_carries_count() {
    let mut store = InMemoryStore::new();
    create_todo(create("one"), &mut store).unwrap();
    create_todo(create("two"), &mut store).unwrap();
    let r: TodoResponse = get_todos(&store);
    assert_eq!(r.count, 2);
    assert_eq!(r.data.len(), 2);
    let empty = TodoResponse::new(Vec::new());
    assert_eq!(empty.count, 0);
}

#[test]
fn buy_milk_round_trip() {
    let mut store = InMemoryStore::new();
    let created = create_todo(create("buy milk"), &mut store).unwrap();
    assert!(!created.id.is_empty());
    assert!(!created.completed);
    assert_eq!(created.title, "buy milk");

    let fetched = get_todo_by_id(&created.id, &store).unwrap();
    assert_eq!(fetched.id, created.id);
    assert_eq!(fetched.title, created.title);
    assert_eq!(fetched.completed, created.completed);
    assert_eq!(fetched.created_at, created.created_at);

    let req = UpdateTodoRequest { title: None, completed: Some(true) };
    let updated = update_todo(&created.id, req, &mut store).unwrap();
    assert!(updated.completed);
    assert_eq!(updated.title, "buy milk");

    let deleted = delete_todo(&created.id, &mut store).unwrap();
    assert_eq!(deleted.message, "Todo deleted successfully");
    assert_eq!(deleted.id, created.id);

    let gone = get_todo_by_id(&created.id, &store);
    assert!(matches!(gone, Err(AppError::NotFound)));
    let (code, message) = error_status(&Rejection::App(gone.unwrap_err()));
    assert_eq!(code, 404);
    assert_eq!(message, "Todo not found");
}

#[test]
fn error_mapping_table() {
    let cases = vec![
        (Rejection::RouteNotFound, 404u16, "Not Found"),
        (Rejection::App(AppError::NotFound), 404, "Todo not found"),
        (Rejection::App(AppError::InvalidInput("Title too long".to_string())), 400, "Title too long"),
        (Rejection::App(AppError::InternalError("disk on fire".to_string())), 500, "Internal Server Error"),
        (Rejection::MethodNotAllowed, 405, "Method Not Allowed"),
        (Rejection::Unhandled, 500, "Internal Server Error"),
    ];
    for (err, code, message) in cases {
        let r = handle_rejection(&err);
        assert_eq!(r.code, code);
        assert_eq!(r.message, message);
        assert!(r.timestamp > 1_600_000_000);
    }
}

#[test]
fn default_config() {
    let c = Config::default();
    assert_eq!(c.host, "127.0.0.1");
    assert_eq!(c.port, 3030);
    assert_eq!(c.database_url, "inmemory");
}
