use vstd::prelude::*;
use crate::models::Todo;

verus! {

/// Every todo of `m`, each once: the length, the membership and the values
/// agree with the map.
pub open spec fn lists_exactly(s: Seq<Todo>, m: Map<Seq<char>, Todo>) -> bool {
    &&& s.len() == m.len()
    &&& forall|i: int| 0 <= i < s.len() ==> #[trigger] m.contains_key(s[i].id@) && m[s[i].id@] == s[i]
    &&& forall|k: Seq<char>| #[trigger] m.contains_key(k) ==> exists|i: int| 0 <= i < s.len() && s[i].id@ == k
}

/// Ordered by creation time, the most recent first.
pub open spec fn newest_first(s: Seq<Todo>) -> bool {
    forall|i: int, j: int| 0 <= i < j < s.len() ==> s[i].created_at >= s[j].created_at
}

/// What a lookup of `id` in `m` gives.
pub open spec fn lookup(m: Map<Seq<char>, Todo>, id: Seq<char>) -> Option<Todo> {
    if m.contains_key(id) {
        Some(m[id])
    } else {
        None
    }
}

/// A store of todos keyed by id. Its state is a finite map from id to todo;
/// each todo is stored under its own id.
pub trait Store: Sized {
    /// The todos held, by the id they were stored under.
    spec fn todos(&self) -> Map<Seq<char>, Todo>;

    /// The store's internal invariant.
    spec fn valid(&self) -> bool;

    /// Every todo, the most recently created first.
    fn get_all(&self) -> (r: Vec<Todo>)
        requires
            self.valid(),
        ensures
            lists_exactly(r@, self.todos()),
            newest_first(r@),
    ;

    /// The todo stored under `id`, if any.
    fn get_by_id(&self, id: &str) -> (r: Option<Todo>)
        requires
            self.valid(),
        ensures
            r == lookup(self.todos(), id@),
            r matches Some(t) ==> t.id@ == id@,
    ;

    /// Stores `todo` under its id, replacing any todo stored there.
    fn create(&mut self, todo: Todo) -> (r: Todo)
        requires
            old(self).valid(),
        ensures
            final(self).valid(),
            final(self).todos() == old(self).todos().insert(todo.id@, todo),
            r == todo,
    ;

    /// Replaces the todo stored under `id`, if there is one. An id is never
    /// reassigned, so the replacement carries the same id.
    fn update(&mut self, id: &str, todo: Todo) -> (r: Option<Todo>)
        requires
            old(self).valid(),
            todo.id@ == id@,
        ensures
            final(self).valid(),
            old(self).todos().contains_key(id@) ==> r == Some(todo) && final(self).todos()
                == old(self).todos().insert(id@, todo),
            !old(self).todos().contains_key(id@) ==> r is None && final(self).todos()
                == old(self).todos(),
    ;

    /// Removes the todo stored under `id`; says whether there was one.
    fn delete(&mut self, id: &str) -> (r: bool)
        requires
            old(self).valid(),
        ensures
            final(self).valid(),
            r == old(self).todos().contains_key(id@),
            final(self).todos() == old(self).todos().remove(id@),
    ;

    /// How many todos are stored.
    fn count(&self) -> (r: usize)
        requires
            self.valid(),
        ensures
            r == self.todos().len(),
    ;
}

/// Inserts `x` into `r`, which is newest first, after every todo created no
/// earlier than `x`; returns where `x` went.
fn insert_newest_first(r: &mut Vec<Todo>, x: Todo) -> (p: usize)
    requires
        newest_first(old(r)@),
    ensures
        p <= old(r)@.len(),
        final(r)@ == old(r)@.insert(p as int, x),
        newest_first(final(r)@),
{
    let mut p: usize = 0;
    while p < r.len() && r[p].created_at >= x.created_at
        invariant
            p <= r@.len(),
            forall|j: int| 0 <= j < p ==> (#[trigger] r@[j]).created_at >= x.created_at,
        decreases r@.len() - p,
    {
        p = p + 1;
    }
    let ghost before = r@;
    let ghost t = x.created_at;
    r.insert(p, x);
    assert forall|a: int, b: int| 0 <= a < b < r@.len() implies r@[a].created_at >= r@[b].created_at by {
        if b < p {
        } else if a < p && b == p {
        } else if a < p {
            assert(r@[b] == before[b - 1]);
        } else if a == p {
            assert(r@[b] == before[b - 1]);
            assert(before[p as int].created_at < t);
        } else {
            assert(r@[a] == before[a - 1]);
            assert(r@[b] == before[b - 1]);
        }
    }
    p
}

/// The map that storing each todo of `s` in turn builds from an empty store.
pub open spec fn map_of(s: Seq<Todo>) -> Map<Seq<char>, Todo>
    decreases s.len(),
{
    if s.len() == 0 {
        Map::empty()
    } else {
        map_of(s.drop_last()).insert(s.last().id@, s.last())
    }
}

/// A store held in memory: a list of todos with distinct ids.
pub struct InMemoryStore {
    entries: Vec<Todo>,
    model: Ghost<Map<Seq<char>, Todo>>,
}

impl InMemoryStore {
    /// An empty store.
    pub fn new() -> (r: InMemoryStore)
        ensures
            r.valid(),
            r.todos() == Map::<Seq<char>, Todo>::empty(),
    {
        InMemoryStore { entries: Vec::new(), model: Ghost(Map::empty()) }
    }

    /// A store that holds each of `todos` under its id; of two with one id,
    /// the later stays.
    pub fn with_initial_data(todos: Vec<Todo>) -> (r: InMemoryStore)
        ensures
            r.valid(),
            r.todos() == map_of(todos@),
    {
        let mut store = InMemoryStore::new();
        let mut i: usize = 0;
        while i < todos.len()
            invariant
                i <= todos@.len(),
                store.valid(),
                store.todos() == map_of(todos@.take(i as int)),
            decreases todos@.len() - i,
        {
            let todo = todos[i].clone();
            store.create(todo);
            assert(todos@.take(i + 1).drop_last() == todos@.take(i as int));
            i = i + 1;
        }
        assert(todos@.take(todos@.len() as int) == todos@);
        store
    }

    /// Puts `todo` in place of the entry at `i`, which has the same id.
    fn replace_at(&mut self, i: usize, todo: Todo)
        requires
            old(self).valid(),
            i < old(self).entries@.len(),
            old(self).entries@[i as int].id@ == todo.id@,
        ensures
            final(self).valid(),
            final(self).todos() == old(self).todos().insert(todo.id@, todo),
    {
        let ghost e = self.entries@;
        let ghost m = self.model@;
        let ghost k = todo.id@;
        self.entries.set(i, todo);
        self.model = Ghost(m.insert(k, todo));
        proof {
            let e2 = self.entries@;
            let m2 = self.model@;
            assert(m2.dom() =~= m.dom());
            assert forall|a: int| 0 <= a < e2.len() implies #[trigger] m2.contains_key(e2[a].id@)
                && m2[e2[a].id@] == e2[a] by {
                if a != i {
                    assert(e2[a] == e[a]);
                    assert(e[a].id@ != e[i as int].id@);
                }
            }
            assert forall|key: Seq<char>| #[trigger] m2.contains_key(key) implies exists|a: int|
                0 <= a < e2.len() && e2[a].id@ == key by {
                if key == k {
                    assert(e2[i as int].id@ == key);
                } else {
                    let a = choose|a: int| 0 <= a < e.len() && e[a].id@ == key;
                    assert(e2[a] == e[a]);
                }
            }
            assert forall|a: int, b: int| 0 <= a < b < e2.len() implies e2[a].id@ != e2[b].id@ by {
                if a != i && b != i {
                    assert(e2[a] == e[a] && e2[b] == e[b]);
                } else if a == i {
                    assert(e2[b] == e[b]);
                } else {
                    assert(e2[a] == e[a]);
                }
            }
        }
    }

    /// Adds `todo`, whose id is not stored yet, at the end.
    fn append(&mut self, todo: Todo)
        requires
            old(self).valid(),
            !old(self).todos().contains_key(todo.id@),
        ensures
            final(self).valid(),
            final(self).todos() == old(self).todos().insert(todo.id@, todo),
    {
        let ghost e = self.entries@;
        let ghost m = self.model@;
        let ghost k = todo.id@;
        self.entries.push(todo);
        self.model = Ghost(m.insert(k, todo));
        proof {
            let e2 = self.entries@;
            let m2 = self.model@;
            assert(m2.dom() == m.dom().insert(k));
            assert forall|a: int| 0 <= a < e2.len() implies #[trigger] m2.contains_key(e2[a].id@)
                && m2[e2[a].id@] == e2[a] by {
                if a < e.len() {
                    assert(e2[a] == e[a]);
                    assert(m.contains_key(e[a].id@));
                }
            }
            assert forall|key: Seq<char>| #[trigger] m2.contains_key(key) implies exists|a: int|
                0 <= a < e2.len() && e2[a].id@ == key by {
                if key == k {
                    assert(e2[e.len() as int].id@ == key);
                } else {
                    let a = choose|a: int| 0 <= a < e.len() && e[a].id@ == key;
                    assert(e2[a] == e[a]);
                }
            }
            assert forall|a: int, b: int| 0 <= a < b < e2.len() implies e2[a].id@ != e2[b].id@ by {
                assert(e2[a] == e[a]);
                if b < e.len() {
                    assert(e2[b] == e[b]);
                } else {
                    assert(m.contains_key(e[a].id@));
                }
            }
        }
    }

    /// Takes out the entry at `i`.
    fn remove_at(&mut self, i: usize)
        requires
            old(self).valid(),
            i < old(self).entries@.len(),
        ensures
            final(self).valid(),
            final(self).todos() == old(self).todos().remove(old(self).entries@[i as int].id@),
    {
        let ghost e = self.entries@;
        let ghost m = self.model@;
        let ghost k = e[i as int].id@;
        self.entries.remove(i);
        self.model = Ghost(m.remove(k));
        proof {
            let e2 = self.entries@;
            let m2 = self.model@;
            assert(m2.dom() == m.dom().remove(k));
            assert forall|a: int| 0 <= a < e2.len() implies #[trigger] m2.contains_key(e2[a].id@)
                && m2[e2[a].id@] == e2[a] by {
                if a < i {
                    assert(e2[a] == e[a]);
                    assert(e[a].id@ != e[i as int].id@);
                } else {
                    assert(e2[a] == e[a + 1]);
                    assert(e[i as int].id@ != e[a + 1].id@);
                }
            }
            assert forall|key: Seq<char>| #[trigger] m2.contains_key(key) implies exists|a: int|
                0 <= a < e2.len() && e2[a].id@ == key by {
                let a = choose|a: int| 0 <= a < e.len() && e[a].id@ == key;
                if a < i {
                    assert(e2[a] == e[a]);
                } else {
                    assert(a != i);
                    assert(e2[a - 1] == e[a]);
                }
            }
            assert forall|a: int, b: int| 0 <= a < b < e2.len() implies e2[a].id@ != e2[b].id@ by {
                let a0 = if a < i { a } else { a + 1 };
                let b0 = if b < i { b } else { b + 1 };
                assert(e2[a] == e[a0] && e2[b] == e[b0]);
            }
        }
    }

    /// The position of the todo stored under `key`, if any.
    fn position(&self, key: &String) -> (r: Option<usize>)
        requires
            self.valid(),
        ensures
            r matches Some(i) ==> i < self.entries@.len() && self.entries@[i as int].id@ == key@,
            r is None ==> !self.todos().contains_key(key@),
    {
        let mut i: usize = 0;
        while i < self.entries.len()
            invariant
                self.valid(),
                i <= self.entries@.len(),
                forall|j: int| 0 <= j < i ==> (#[trigger] self.entries@[j]).id@ != key@,
            decreases self.entries@.len() - i,
        {
            if self.entries[i].id == *key {
                return Some(i);
            }
            i = i + 1;
        }
        None
    }
}

impl Store for InMemoryStore {
    closed spec fn todos(&self) -> Map<Seq<char>, Todo> {
        self.model@
    }

    closed spec fn valid(&self) -> bool {
        let e = self.entries@;
        let m = self.model@;
        &&& m.dom().finite()
        &&& m.len() == e.len()
        &&& forall|i: int| 0 <= i < e.len() ==> #[trigger] m.contains_key(e[i].id@) && m[e[i].id@] == e[i]
        &&& forall|k: Seq<char>| #[trigger] m.contains_key(k) ==> exists|i: int| 0 <= i < e.len() && e[i].id@ == k
        &&& forall|i: int, j: int| 0 <= i < j < e.len() ==> e[i].id@ != e[j].id@
    }

    fn get_all(&self) -> (r: Vec<Todo>) {
        let mut r: Vec<Todo> = Vec::new();
        let mut i: usize = 0;
        while i < self.entries.len()
            invariant
                self.valid(),
                i <= self.entries@.len(),
                r@.len() == i,
                newest_first(r@),
                forall|j: int| 0 <= j < r@.len() ==> exists|k: int| 0 <= k < i && #[trigger] r@[j] == self.entries@[k],
                forall|k: int| 0 <= k < i ==> exists|j: int| 0 <= j < r@.len() && r@[j] == #[trigger] self.entries@[k],
            decreases self.entries@.len() - i,
        {
            let x = self.entries[i].clone();
            let ghost before = r@;
            let p = insert_newest_first(&mut r, x);
            assert forall|j: int| 0 <= j < r@.len() implies exists|k: int| 0 <= k < i + 1 && #[trigger] r@[j] == self.entries@[k] by {
                if j < p {
                    assert(r@[j] == before[j]);
                } else if j == p {
                    assert(r@[j] == self.entries@[i as int]);
                } else {
                    assert(r@[j] == before[j - 1]);
                }
            }
            assert forall|k: int| 0 <= k < i + 1 implies exists|j: int| 0 <= j < r@.len() && r@[j] == #[trigger] self.entries@[k] by {
                if k == i {
                    assert(r@[p as int] == self.entries@[k]);
                } else {
                    let j0 = choose|j: int| 0 <= j < before.len() && before[j] == self.entries@[k];
                    if j0 < p {
                        assert(r@[j0] == self.entries@[k]);
                    } else {
                        assert(r@[j0 + 1] == self.entries@[k]);
                    }
                }
            }
            i = i + 1;
        }
        proof {
            let m = self.model@;
            assert forall|j: int| 0 <= j < r@.len() implies #[trigger] m.contains_key(r@[j].id@) && m[r@[j].id@] == r@[j] by {
                let k = choose|k: int| 0 <= k < self.entries@.len() && r@[j] == self.entries@[k];
                assert(m.contains_key(self.entries@[k].id@));
            }
            assert forall|key: Seq<char>| #[trigger] m.contains_key(key) implies exists|j: int| 0 <= j < r@.len() && r@[j].id@ == key by {
                let k = choose|k: int| 0 <= k < self.entries@.len() && self.entries@[k].id@ == key;
                let j = choose|j: int| 0 <= j < r@.len() && r@[j] == #[trigger] self.entries@[k];
                assert(r@[j].id@ == key);
            }
        }
        r
    }

    fn get_by_id(&self, id: &str) -> (r: Option<Todo>) {
        let key = id.to_string();
        match self.position(&key) {
            Some(i) => Some(self.entries[i].clone()),
            None => None,
        }
    }

    fn create(&mut self, todo: Todo) -> (r: Todo) {
        let stored = todo.clone();
        match self.position(&todo.id) {
            Some(i) => self.replace_at(i, stored),
            None => self.append(stored),
        }
        todo
    }

    fn update(&mut self, id: &str, todo: Todo) -> (r: Option<Todo>) {
        let key = id.to_string();
        match self.position(&key) {
            Some(i) => {
                let stored = todo.clone();
                self.replace_at(i, stored);
                Some(todo)
            },
            None => None,
        }
    }

    fn delete(&mut self, id: &str) -> (r: bool) {
        let key = id.to_string();
        match self.position(&key) {
            Some(i) => {
                self.remove_at(i);
                true
            },
            None => false,
        }
    }

    fn count(&self) -> (r: usize) {
        self.entries.len()
    }
}

/// The store for the given backend: the only backend keeps its todos in
/// memory, and starts empty.
pub fn create_store(_database_url: String) -> (r: InMemoryStore)
    ensures
        r.valid(),
        r.todos() == Map::<Seq<char>, Todo>::empty(),
{
    InMemoryStore::new()
}

} // verus!
