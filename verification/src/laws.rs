//! Properties that relate several operations of the store model, stated over
//! the same spec functions the handlers' contracts use.

use vstd::prelude::*;
use crate::model::{AuthV, TodoV};
use crate::store::{
    auth_index_of, auth_with_id, created_auth, has_auth, has_todo, todo_index_of, todo_with_id,
    todos_with_creator, StoreV,
};

verus! {

/// An account created under a well-formed store is found again by the id the
/// store assigned to it, carrying the `name` and `email` it was created with.
pub proof fn created_auth_is_found(s: StoreV, b: AuthV)
    requires
        s.wf(),
        s.next_auth_id < i32::MAX as int,
    ensures
        ({
            let a = created_auth(s, b);
            let s2 = StoreV {
                auths: s.auths.push(a),
                next_auth_id: s.next_auth_id + 1,
                ..s
            };
            &&& a.id == s.next_auth_id
            &&& a.name == b.name && a.email == b.email
            &&& auth_with_id(s2, a.id) == Some(a)
        }),
{
    let a = created_auth(s, b);
    let s2 = StoreV { auths: s.auths.push(a), next_auth_id: s.next_auth_id + 1, ..s };
    let n = s.auths.len() as int;
    assert(s2.auths[n] == a);
    assert(has_auth(s2.auths, a.id));
    let k = auth_index_of(s2.auths, a.id);
    assert(0 <= k < s2.auths.len() && s2.auths[k].id == a.id);
    if k < n {
        assert(s2.auths[k] == s.auths[k]);
        assert(s.auths[k].id < s.next_auth_id);
        assert(false);
    }
    assert(s2.auths[k] == a);
}

/// A deleted todo is gone: after removing the row with an id, no row with
/// that id is found, so a fetch of it takes the failure path.
pub proof fn deleted_todo_is_gone(s: StoreV, id: int)
    requires
        s.wf(),
        has_todo(s.todos, id),
    ensures
        todo_with_id(
            StoreV { todos: s.todos.remove(todo_index_of(s.todos, id)), ..s },
            id,
        ) is None,
{
    let i = todo_index_of(s.todos, id);
    assert(0 <= i < s.todos.len() && s.todos[i].id == id);
    let t2 = s.todos.remove(i);
    let s2 = StoreV { todos: t2, ..s };
    if has_todo(t2, id) {
        let k = choose|k: int| 0 <= k < t2.len() && (#[trigger] t2[k]).id == id;
        let ok: int = if k < i {
            k
        } else {
            k + 1
        };
        assert(t2[k] == s.todos[ok]);
        assert(s.todos[ok].id != s.todos[i].id);
        assert(false);
    }
}

/// The rows listed for an owner are exactly the rows whose `creator` is that
/// owner: every listed row is a stored row of the owner, and every stored row
/// of the owner is listed.
pub proof fn owner_rows_are_exact(todos: Seq<TodoV>, creator: int, t: TodoV)
    ensures
        todos_with_creator(todos, creator).contains(t) <==> todos.contains(t) && t.creator
            == creator,
    decreases todos.len(),
{
    if todos.len() == 0 {
    } else {
        let prefix = todos.drop_last();
        let last = todos.last();
        owner_rows_are_exact(prefix, creator, t);
        let filtered = todos_with_creator(todos, creator);
        let rest = todos_with_creator(prefix, creator);
        if filtered.contains(t) {
            let k = choose|k: int| 0 <= k < filtered.len() && filtered[k] == t;
            if last.creator == creator && k == filtered.len() - 1 {
                assert(t == last);
                assert(todos[todos.len() - 1] == t);
                assert(todos.contains(t));
            } else {
                assert(rest[k] == t);
                assert(rest.contains(t));
                let j = choose|j: int| 0 <= j < prefix.len() && prefix[j] == t;
                assert(todos[j] == t);
                assert(todos.contains(t));
            }
        }
        if todos.contains(t) && t.creator == creator {
            let j = choose|j: int| 0 <= j < todos.len() && todos[j] == t;
            if j < todos.len() - 1 {
                assert(prefix[j] == t);
                assert(prefix.contains(t));
                assert(rest.contains(t));
                let k = choose|k: int| 0 <= k < rest.len() && rest[k] == t;
                if last.creator == creator {
                    assert(filtered[k] == t);
                } else {
                    assert(filtered[k] == t);
                }
                assert(filtered.contains(t));
            } else {
                assert(t == last);
                assert(filtered[filtered.len() - 1] == t);
                assert(filtered.contains(t));
            }
        }
    }
}

} // verus!
