use vstd::prelude::*;
use crate::error::AppError;
use crate::models::{
    title_error, title_is_valid, CreateTodoRequest, DeleteResponse, Todo, TodoResponse,
    UpdateTodoRequest,
};
use crate::store::{lists_exactly, newest_first, lookup, Store};

verus! {

/// The todo that an update request makes of `existing`: each field that the
/// request carries replaces the stored one; id and creation time stay.
pub open spec fn merged(existing: Todo, request: UpdateTodoRequest) -> Todo {
    Todo {
        id: existing.id,
        title: match request.title {
            Some(t) => t,
            None => existing.title,
        },
        completed: match request.completed {
            Some(c) => c,
            None => existing.completed,
        },
        created_at: existing.created_at,
    }
}

/// Lists every todo, the most recent first, with their number.
pub fn get_todos<S: Store>(store: &S) -> (r: TodoResponse)
    requires
        store.valid(),
    ensures
        lists_exactly(r.data@, store.todos()),
        newest_first(r.data@),
        r.count == r.data@.len(),
{
    let todos = store.get_all();
    TodoResponse::new(todos)
}

/// The todo with the given id.
pub fn get_todo_by_id<S: Store>(id: &str, store: &S) -> (r: Result<Todo, AppError>)
    requires
        store.valid(),
    ensures
        store.todos().contains_key(id@) ==> r == Ok::<Todo, AppError>(store.todos()[id@]),
        !store.todos().contains_key(id@) ==> r matches Err(AppError::NotFound),
{
    match store.get_by_id(id) {
        Some(todo) => Ok(todo),
        None => Err(AppError::NotFound),
    }
}

/// Creates a todo from a valid request, with a fresh id and the current time.
pub fn create_todo<S: Store>(request: CreateTodoRequest, store: &mut S) -> (r: Result<
    Todo,
    AppError,
>)
    requires
        old(store).valid(),
    ensures
        final(store).valid(),
        !title_is_valid(&request.title) ==> (r matches Err(AppError::InvalidInput(msg)) && msg@
            == title_error(&request.title)) && final(store).todos() == old(store).todos(),
        title_is_valid(&request.title) ==> (r matches Ok(t) && t.title == request.title
            && !t.completed && t.id@.len() == 36 && final(store).todos() == old(
            store,
        ).todos().insert(t.id@, t)),
{
    if let Err(msg) = request.validate() {
        return Err(AppError::InvalidInput(msg));
    }
    let todo = Todo::new(request.title);
    let created = store.create(todo);
    Ok(created)
}

/// Applies an update request to the todo with the given id.
pub fn update_todo<S: Store>(id: &str, request: UpdateTodoRequest, store: &mut S) -> (r: Result<
    Todo,
    AppError,
>)
    requires
        old(store).valid(),
    ensures
        final(store).valid(),
        !old(store).todos().contains_key(id@) ==> (r matches Err(AppError::NotFound))
            && final(store).todos() == old(store).todos(),
        old(store).todos().contains_key(id@) ==> r == Ok::<Todo, AppError>(
            merged(old(store).todos()[id@], request),
        ) && final(store).todos() == old(store).todos().insert(
            id@,
            merged(old(store).todos()[id@], request),
        ),
        request.title is None ==> (r matches Ok(t) ==> t.title == old(store).todos()[id@].title),
        request.completed is None ==> (r matches Ok(t) ==> t.completed == old(
            store,
        ).todos()[id@].completed),
{
    let existing = match store.get_by_id(id) {
        Some(todo) => todo,
        None => return Err(AppError::NotFound),
    };
    let title = match request.title {
        Some(t) => t,
        None => existing.title,
    };
    let completed = match request.completed {
        Some(c) => c,
        None => existing.completed,
    };
    let updated = Todo { id: existing.id, title, completed, created_at: existing.created_at };
    match store.update(id, updated) {
        Some(todo) => Ok(todo),
        None => Err(AppError::NotFound),
    }
}

/// Deletes the todo with the given id.
pub fn delete_todo<S: Store>(id: &str, store: &mut S) -> (r: Result<DeleteResponse, AppError>)
    requires
        old(store).valid(),
    ensures
        final(store).valid(),
        final(store).todos() == old(store).todos().remove(id@),
        old(store).todos().contains_key(id@) ==> (r matches Ok(resp) && resp.message@
            == "Todo deleted successfully"@ && resp.id@ == id@),
        !old(store).todos().contains_key(id@) ==> r matches Err(AppError::NotFound),
{
    if store.delete(id) {
        Ok(DeleteResponse { message: "Todo deleted successfully".to_string(), id: id.to_string() })
    } else {
        Err(AppError::NotFound)
    }
}

} // verus!
