use vstd::prelude::*;
use crate::models::Todo;
use crate::store::lookup;

verus! {

/// A change made to a store.
#[derive(Debug)]
pub enum StoreOp {
    Create(Todo),
    Update(String, Todo),
    Delete(String),
}

/// The todos after `op`, as the store's contracts state it.
pub open spec fn apply(m: Map<Seq<char>, Todo>, op: StoreOp) -> Map<Seq<char>, Todo> {
    match op {
        StoreOp::Create(t) => m.insert(t.id@, t),
        StoreOp::Update(id, t) => if m.contains_key(id@) {
            m.insert(id@, t)
        } else {
            m
        },
        StoreOp::Delete(id) => m.remove(id@),
    }
}

/// The todos after each of `ops` in turn, from an empty store.
pub open spec fn replay(ops: Seq<StoreOp>) -> Map<Seq<char>, Todo>
    decreases ops.len(),
{
    if ops.len() == 0 {
        Map::empty()
    } else {
        apply(replay(ops.drop_last()), ops.last())
    }
}

/// Whether `op` creates a todo with id `k`.
pub open spec fn creates(op: StoreOp, k: Seq<char>) -> bool {
    op matches StoreOp::Create(t) && t.id@ == k
}

/// Whether `op` deletes id `k`.
pub open spec fn deletes(op: StoreOp, k: Seq<char>) -> bool {
    op matches StoreOp::Delete(id) && id@ == k
}

/// Whether `k` was created by one of `ops` and not deleted after.
pub open spec fn is_live(ops: Seq<StoreOp>, k: Seq<char>) -> bool {
    exists|i: int|
        0 <= i < ops.len() && #[trigger] creates(ops[i], k) && forall|j: int|
            i < j < ops.len() ==> !#[trigger] deletes(ops[j], k)
}

/// The ids that `ops` created and did not delete after their last creation.
pub open spec fn live_ids(ops: Seq<StoreOp>) -> Set<Seq<char>> {
    Set::new(|k: Seq<char>| is_live(ops, k))
}

/// After any sequence of creates, updates and deletes, the ids held are the
/// ids created and not deleted since, so the count is their number.
pub proof fn count_is_live_ids(ops: Seq<StoreOp>)
    ensures
        replay(ops).dom() == live_ids(ops),
        replay(ops).dom().finite(),
        replay(ops).len() == live_ids(ops).len(),
    decreases ops.len(),
{
    if ops.len() == 0 {
        assert(replay(ops).dom() =~= live_ids(ops));
    } else {
        let prev = ops.drop_last();
        let n = ops.len() - 1;
        count_is_live_ids(prev);
        let pm = replay(prev);
        let op = ops[n];
        assert(ops.last() == op);
        assert(replay(ops) == apply(pm, op));
        assert forall|k: Seq<char>| replay(ops).dom().contains(k) <==> is_live(ops, k) by {
            let kept = pm.contains_key(k) && !deletes(op, k);
            assert(replay(ops).dom().contains(k) <==> (creates(op, k) || kept)) by {
                match op {
                    StoreOp::Create(t) => {},
                    StoreOp::Update(id, t) => {},
                    StoreOp::Delete(id) => {},
                }
            }
            if is_live(ops, k) {
                let i = choose|i: int|
                    0 <= i < ops.len() && #[trigger] creates(ops[i], k) && forall|j: int|
                        i < j < ops.len() ==> !#[trigger] deletes(ops[j], k);
                if i < n {
                    assert(prev[i] == ops[i]);
                    assert forall|j: int| i < j < prev.len() implies !#[trigger] deletes(prev[j], k) by {
                        assert(prev[j] == ops[j]);
                        assert(!deletes(ops[j], k));
                    }
                    assert(is_live(prev, k));
                    assert(!deletes(ops[n], k));
                }
            }
            if creates(op, k) {
                assert(creates(ops[n], k));
                assert(is_live(ops, k));
            } else if kept {
                assert(prev.len() == n);
                assert(live_ids(prev).contains(k));
                let i = choose|i: int|
                    0 <= i < prev.len() && #[trigger] creates(prev[i], k) && forall|j: int|
                        i < j < prev.len() ==> !#[trigger] deletes(prev[j], k);
                assert(prev[i] == ops[i]);
                assert(creates(ops[i], k));
                assert forall|j: int| i < j < ops.len() implies !#[trigger] deletes(ops[j], k) by {
                    if j < n {
                        assert(prev[j] == ops[j]);
                        assert(!deletes(prev[j], k));
                    }
                }
                assert(is_live(ops, k));
            }
        }
        assert(replay(ops).dom() =~= live_ids(ops));
    }
}

/// A todo just created is found under its id, equal in every field.
pub proof fn create_then_get(m: Map<Seq<char>, Todo>, todo: Todo)
    ensures
        lookup(m.insert(todo.id@, todo), todo.id@) == Some(todo),
{
}

/// Deleting an id twice: the first delete finds it, the second does not, and
/// the second changes nothing.
pub proof fn delete_twice(m: Map<Seq<char>, Todo>, id: Seq<char>)
    requires
        m.contains_key(id),
    ensures
        m.contains_key(id),
        !m.remove(id).contains_key(id),
        m.remove(id).remove(id) == m.remove(id),
{
    assert(m.remove(id).remove(id) =~= m.remove(id));
}

} // verus!
