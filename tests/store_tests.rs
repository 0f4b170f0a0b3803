use todo_service::laws::StoreOp;
use todo_service::models::Todo;
use todo_service::store::{create_store, InMemoryStore, Store};

fn todo(id: &str, title: &str, created_at: i64) -> Todo {
    Todo::with_identity(id.to_string(), title.to_string(), created_at)
}

fn run(store: &mut InMemoryStore, op: StoreOp) {
    match op {
        StoreOp::Create(t) => {
            store.create(t);
        }
        StoreOp::Update(id, t) => {
            store.update(&id, t);
        }
        StoreOp::Delete(id) => {
            store.delete(&id);
        }
    }
}

#[test]
fn count_follows_live_ids() {
    let mut store = InMemoryStore::new();
    let ops = vec![
        StoreOp::Create(todo("a", "one", 1)),
        StoreOp::Create(todo("b", "two", 2)),
        StoreOp::Create(todo("c", "three", 3)),
        StoreOp::Delete("b".to_string()),
        StoreOp::Update("a".to_string(), todo("a", "uno", 1)),
        StoreOp::Update("b".to_string(), todo("b", "dos", 2)),
        StoreOp::Create(todo("a", "again", 4)),
        StoreOp::Delete("zzz".to_string()),
        StoreOp::Create(todo("b", "back", 5)),
        StoreOp::Delete("c".to_string()),
    ];
    let expected = [1usize, 2, 3, 2, 2, 2, 2, 2, 3, 2];
    for (op, want) in ops.into_iter().zip(expected.iter()) {
        run(&mut store, op);
        assert_eq!(store.count(), *want);
    }
    assert!(store.get_by_id("c").is_none());
    assert_eq!(store.get_by_id("a").unwrap().title, "again");
    assert_eq!(store.get_by_id("b").unwrap().title, "back");
}

#[test]
fn create_then_get_returns_equal_todo() {
    let mut store = InMemoryStore::new();
    let created = store.create(todo("id-1", "write tests", 1_700_000_000));
    let found = store.get_by_id("id-1").unwrap();
    assert_eq!(found.id, created.id);
    assert_eq!(found.title, created.title);
    assert_eq!(found.completed, created.completed);
    assert_eq!(found.created_at, created.created_at);
}

#[test]
fn create_with_existing_id_overwrites() {
    let mut store = InMemoryStore::new();
    store.create(todo("x", "first", 1));
    store.create(todo("x", "second", 2));
    assert_eq!(store.count(), 1);
    assert_eq!(store.get_by_id("x").unwrap().title, "second");
}

#[test]
fn update_missing_id_changes_nothing() {
    let mut store = InMemoryStore::new();
    store.create(todo("a", "one", 1));
    assert!(store.update("b", todo("b", "two", 2)).is_none());
    assert_eq!(store.count(), 1);
    assert!(store.get_by_id("b").is_none());
    assert_eq!(store.get_by_id("a").unwrap().title, "one");
}

#[test]
fn delete_twice_reports_true_then_false() {
    let mut store = InMemoryStore::new();
    store.create(todo("a", "one", 1));
    assert!(store.delete("a"));
    assert!(!store.delete("a"));
    assert_eq!(store.count(), 0);
}

#[test]
fn get_all_is_newest_first() {
    let mut store = InMemoryStore::new();
    store.create(todo("m", "middle", 20));
    store.create(todo("o", "oldest", 10));
    store.create(todo("n", "newest", 30));
    store.create(todo("e", "early", 15));
    let all = store.get_all();
    let ids: Vec<&str> = all.iter().map(|t| t.id.as_str()).collect();
    assert_eq!(ids, vec!["n", "m", "e", "o"]);
}

#[test]
fn get_all_of_empty_store_is_empty() {
    let store = create_store("inmemory".to_string());
    assert!(store.get_all().is_empty());
    assert_eq!(store.count(), 0);
}

#[test]
fn initial_data_keeps_the_later_of_equal_ids() {
    let store = InMemoryStore::with_initial_data(vec![
        todo("a", "one", 1),
        todo("b", "two", 2),
        todo("a", "three", 3),
    ]);
    assert_eq!(store.count(), 2);
    assert_eq!(store.get_by_id("a").unwrap().title, "three");
    assert_eq!(store.get_by_id("b").unwrap().created_at, 2);
}

#[test]
fn new_todo_has_fresh_id_and_current_time() {
    let a = Todo::new("one".to_string());
    let b = Todo::new("two".to_string());
    assert_eq!(a.id.len(), 36);
    assert_ne!(a.id, b.id);
    assert!(!a.completed);
    assert_eq!(a.title, "one");
    assert!(a.created_at > 1_600_000_000);
}
