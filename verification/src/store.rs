//! The in-process model of the relational store: account and todo rows in
//! insertion order, with store-assigned ids. Each method performs what one of
//! the service's parameterized statements does: select all rows, select the
//! first row matching a key, insert a row under the next free id, update or
//! delete the row with a given id.

use vstd::prelude::*;
use crate::model::{Auth, AuthV, Todo, TodoV};

verus! {

/// The mathematical image of the store: row sequences and the next free ids.
pub ghost struct StoreV {
    pub auths: Seq<AuthV>,
    pub todos: Seq<TodoV>,
    pub next_auth_id: int,
    pub next_todo_id: int,
}

/// There is a row with this id.
pub open spec fn has_auth(auths: Seq<AuthV>, id: int) -> bool {
    exists|i: int| 0 <= i < auths.len() && (#[trigger] auths[i]).id == id
}

/// The position of the row with this id (meaningful only when `has_auth`).
pub open spec fn auth_index_of(auths: Seq<AuthV>, id: int) -> int {
    choose|i: int| 0 <= i < auths.len() && (#[trigger] auths[i]).id == id
}

/// The account row selected by id, if any.
pub open spec fn auth_with_id(s: StoreV, id: int) -> Option<AuthV> {
    if has_auth(s.auths, id) {
        Some(s.auths[auth_index_of(s.auths, id)])
    } else {
        None
    }
}

/// The first account row, in store order, whose `email` equals the key;
/// what selecting one row by email yields when emails are not unique.
pub open spec fn first_auth_with_email(auths: Seq<AuthV>, email: Seq<char>) -> Option<AuthV>
    decreases auths.len(),
{
    if auths.len() == 0 {
        None
    } else if auths[0].email == email {
        Some(auths[0])
    } else {
        first_auth_with_email(auths.drop_first(), email)
    }
}

/// There is a todo row with this id.
pub open spec fn has_todo(todos: Seq<TodoV>, id: int) -> bool {
    exists|i: int| 0 <= i < todos.len() && (#[trigger] todos[i]).id == id
}

/// The position of the todo row with this id (meaningful only when `has_todo`).
pub open spec fn todo_index_of(todos: Seq<TodoV>, id: int) -> int {
    choose|i: int| 0 <= i < todos.len() && (#[trigger] todos[i]).id == id
}

/// The todo row selected by id, if any.
pub open spec fn todo_with_id(s: StoreV, id: int) -> Option<TodoV> {
    if has_todo(s.todos, id) {
        Some(s.todos[todo_index_of(s.todos, id)])
    } else {
        None
    }
}

/// The todo rows whose `creator` equals the key, in store order.
pub open spec fn todos_with_creator(todos: Seq<TodoV>, creator: int) -> Seq<TodoV>
    decreases todos.len(),
{
    if todos.len() == 0 {
        Seq::empty()
    } else {
        let rest = todos_with_creator(todos.drop_last(), creator);
        if todos.last().creator == creator {
            rest.push(todos.last())
        } else {
            rest
        }
    }
}

/// The account row an insert under this store state creates: the submitted
/// columns under the next free account id.
pub open spec fn created_auth(s: StoreV, b: AuthV) -> AuthV {
    AuthV {
        name: b.name,
        email: b.email,
        password1: b.password1,
        password2: b.password2,
        id: s.next_auth_id,
    }
}

/// The todo row an insert under this store state creates.
pub open spec fn created_todo(s: StoreV, title: Seq<char>, content: Seq<char>, creator: int) -> TodoV {
    TodoV { title, content, creator, id: s.next_todo_id }
}

impl StoreV {
    /// Account rows have positive ids below the next free one, no two rows
    /// share an id, and the next free id still fits the id column.
    pub open spec fn auths_wf(self) -> bool {
        &&& forall|i: int|
            0 <= i < self.auths.len() ==> 0 < (#[trigger] self.auths[i]).id < self.next_auth_id
        &&& forall|i: int, j: int|
            0 <= i < self.auths.len() && 0 <= j < self.auths.len() && i != j ==> (
            #[trigger] self.auths[i]).id != (#[trigger] self.auths[j]).id
        &&& 0 < self.next_auth_id <= i32::MAX as int
    }

    /// The same shape of well-formedness for the todo rows.
    pub open spec fn todos_wf(self) -> bool {
        &&& forall|i: int|
            0 <= i < self.todos.len() ==> 0 < (#[trigger] self.todos[i]).id < self.next_todo_id
        &&& forall|i: int, j: int|
            0 <= i < self.todos.len() && 0 <= j < self.todos.len() && i != j ==> (
            #[trigger] self.todos[i]).id != (#[trigger] self.todos[j]).id
        &&& 0 < self.next_todo_id <= i32::MAX as int
    }

    pub open spec fn wf(self) -> bool {
        self.auths_wf() && self.todos_wf()
    }
}

/// The store itself: all rows of both tables, in insertion order.
#[derive(Debug)]
pub struct Store {
    pub auths: Vec<Auth>,
    pub todos: Vec<Todo>,
    pub next_auth_id: i32,
    pub next_todo_id: i32,
}

impl View for Store {
    type V = StoreV;

    open spec fn view(&self) -> StoreV {
        StoreV {
            auths: self.auths@.map_values(|a: Auth| a@),
            todos: self.todos@.map_values(|t: Todo| t@),
            next_auth_id: self.next_auth_id as int,
            next_todo_id: self.next_todo_id as int,
        }
    }
}

impl Store {
    /// An empty store; ids start at 1 as a serial column does.
    pub fn new() -> (s: Store)
        ensures
            s@.wf(),
            s@.auths.len() == 0,
            s@.todos.len() == 0,
            s@.next_auth_id == 1,
            s@.next_todo_id == 1,
    {
        let s = Store { auths: Vec::new(), todos: Vec::new(), next_auth_id: 1, next_todo_id: 1 };
        proof {
            assert(s@.auths =~= Seq::<AuthV>::empty());
            assert(s@.todos =~= Seq::<TodoV>::empty());
        }
        s
    }

    /// Where the row with this account id sits, if it is present.
    fn find_auth_index(&self, id: i32) -> (r: Option<usize>)
        requires
            self@.wf(),
        ensures
            match r {
                Some(i) => has_auth(self@.auths, id as int) && i as int == auth_index_of(
                    self@.auths,
                    id as int,
                ) && i < self@.auths.len(),
                None => !has_auth(self@.auths, id as int),
            },
    {
        let n = self.auths.len();
        let mut i: usize = 0;
        while i < n
            invariant
                self@.wf(),
                n == self.auths@.len(),
                i <= n,
                forall|j: int| 0 <= j < i ==> (#[trigger] self@.auths[j]).id != id as int,
            decreases n - i,
        {
            if self.auths[i].id == id {
                proof {
                    assert(self@.auths[i as int].id == id as int);
                    let k = auth_index_of(self@.auths, id as int);
                    assert(0 <= k < self@.auths.len() && self@.auths[k].id == id as int);
                    assert(k == i as int);
                }
                return Some(i);
            }
            i += 1;
        }
        None
    }

    /// Where the row with this todo id sits, if it is present.
    fn find_todo_index(&self, id: i32) -> (r: Option<usize>)
        requires
            self@.wf(),
        ensures
            match r {
                Some(i) => has_todo(self@.todos, id as int) && i as int == todo_index_of(
                    self@.todos,
                    id as int,
                ) && i < self@.todos.len(),
                None => !has_todo(self@.todos, id as int),
            },
    {
        let n = self.todos.len();
        let mut i: usize = 0;
        while i < n
            invariant
                self@.wf(),
                n == self.todos@.len(),
                i <= n,
                forall|j: int| 0 <= j < i ==> (#[trigger] self@.todos[j]).id != id as int,
            decreases n - i,
        {
            if self.todos[i].id == id {
                proof {
                    assert(self@.todos[i as int].id == id as int);
                    let k = todo_index_of(self@.todos, id as int);
                    assert(0 <= k < self@.todos.len() && self@.todos[k].id == id as int);
                    assert(k == i as int);
                }
                return Some(i);
            }
            i += 1;
        }
        None
    }

    /// Every account row, in store order.
    pub fn select_auths(&self) -> (r: Vec<Auth>)
        ensures
            r@.map_values(|a: Auth| a@) == self@.auths,
    {
        let n = self.auths.len();
        let mut r: Vec<Auth> = Vec::new();
        let mut i: usize = 0;
        while i < n
            invariant
                n == self.auths@.len(),
                i <= n,
                r@.map_values(|a: Auth| a@) == self@.auths.take(i as int),
            decreases n - i,
        {
            let a = self.auths[i].clone();
            let ghost ag = a;
            let ghost r0 = r@;
            r.push(a);
            proof {
                assert(r@ == r0.push(ag));
                assert(r0.map_values(|a: Auth| a@).len() == r0.len());
                assert(self@.auths.take(i as int).len() == i as int);
                assert forall|j: int| 0 <= j < r@.len() implies r@.map_values(|a: Auth| a@)[j]
                    == #[trigger] self@.auths.take(i as int + 1)[j] by {
                    if j < i as int {
                        assert(r0.push(ag)[j] == r0[j]);
                        assert(r0.map_values(|a: Auth| a@)[j] == self@.auths.take(i as int)[j]);
                    } else {
                        assert(r0.push(ag)[j] == ag);
                    }
                }
                assert(r@.map_values(|a: Auth| a@) =~= self@.auths.take(i as int + 1));
            }
            i += 1;
        }
        proof {
            assert(self@.auths.take(n as int) =~= self@.auths);
        }
        r
    }

    /// The account row with this id, if any: one select by primary key.
    pub fn select_auth_by_id(&self, id: i32) -> (r: Option<Auth>)
        requires
            self@.wf(),
        ensures
            match auth_with_id(self@, id as int) {
                Some(av) => r matches Some(a) && a@ == av,
                None => r is None,
            },
    {
        match self.find_auth_index(id) {
            Some(i) => Some(self.auths[i].clone()),
            None => None,
        }
    }

    /// The first account row with this email, if any: what selecting a single
    /// row by a non-unique key yields.
    pub fn select_auth_by_email(&self, email: &String) -> (r: Option<Auth>)
        ensures
            match first_auth_with_email(self@.auths, email@) {
                Some(av) => r matches Some(a) && a@ == av,
                None => r is None,
            },
    {
        let n = self.auths.len();
        let mut i: usize = 0;
        while i < n
            invariant
                n == self.auths@.len(),
                i <= n,
                forall|j: int| 0 <= j < i ==> (#[trigger] self@.auths[j]).email != email@,
            decreases n - i,
        {
            if self.auths[i].email == *email {
                proof {
                    lemma_first_email_skip(self@.auths, email@, i as int);
                }
                return Some(self.auths[i].clone());
            }
            i += 1;
        }
        proof {
            lemma_first_email_skip(self@.auths, email@, n as int);
        }
        None
    }

    /// Inserts an account row under the next free id and returns the row as
    /// persisted; fails only when the id column is exhausted.
    pub fn insert_auth(
        &mut self,
        name: &String,
        email: &String,
        password1: &String,
        password2: &String,
    ) -> (r: Option<Auth>)
        requires
            old(self)@.wf(),
        ensures
            final(self)@.wf(),
            old(self)@.next_auth_id < i32::MAX as int ==> {
                &&& r matches Some(a)
                &&& a@ == (AuthV {
                    name: name@,
                    email: email@,
                    password1: password1@,
                    password2: password2@,
                    id: old(self)@.next_auth_id,
                })
                &&& final(self)@ == (StoreV {
                    auths: old(self)@.auths.push(a@),
                    next_auth_id: old(self)@.next_auth_id + 1,
                    ..old(self)@
                })
            },
            old(self)@.next_auth_id == i32::MAX as int ==> r is None && *final(self) == *old(self),
    {
        if self.next_auth_id < i32::MAX {
            let a = Auth {
                name: name.clone(),
                email: email.clone(),
                password1: password1.clone(),
                password2: password2.clone(),
                id: self.next_auth_id,
            };
            let ret = a.clone();
            self.auths.push(a);
            self.next_auth_id = self.next_auth_id + 1;
            proof {
                assert(self@.auths =~= old(self)@.auths.push(ret@));
                assert(self@ == (StoreV {
                    auths: old(self)@.auths.push(ret@),
                    next_auth_id: old(self)@.next_auth_id + 1,
                    ..old(self)@
                }));
                assert forall|i: int, j: int|
                    0 <= i < self@.auths.len() && 0 <= j < self@.auths.len() && i != j implies (
                #[trigger] self@.auths[i]).id != (#[trigger] self@.auths[j]).id by {
                    let olds = old(self)@.auths;
                    if i < olds.len() && j < olds.len() {
                        assert(olds[i].id != olds[j].id);
                    } else if i < olds.len() {
                        assert(olds[i].id < old(self)@.next_auth_id);
                    } else {
                        assert(olds[j].id < old(self)@.next_auth_id);
                    }
                }
            }
            Some(ret)
        } else {
            None
        }
    }

    /// Updates every mutable column of the account row with this id and
    /// returns its new `name` and `email`; fails when no row has the id.
    pub fn update_auth_row(
        &mut self,
        id: i32,
        name: &String,
        email: &String,
        password1: &String,
        password2: &String,
    ) -> (r: Option<(String, String)>)
        requires
            old(self)@.wf(),
        ensures
            final(self)@.wf(),
            has_auth(old(self)@.auths, id as int) ==> {
                &&& r matches Some(ne)
                &&& ne.0@ == name@ && ne.1@ == email@
                &&& final(self)@ == (StoreV {
                    auths: old(self)@.auths.update(
                        auth_index_of(old(self)@.auths, id as int),
                        AuthV {
                            name: name@,
                            email: email@,
                            password1: password1@,
                            password2: password2@,
                            id: id as int,
                        },
                    ),
                    ..old(self)@
                })
            },
            !has_auth(old(self)@.auths, id as int) ==> r is None && *final(self) == *old(self),
    {
        match self.find_auth_index(id) {
            Some(i) => {
                self.auths[i] = Auth {
                    name: name.clone(),
                    email: email.clone(),
                    password1: password1.clone(),
                    password2: password2.clone(),
                    id,
                };
                proof {
                    let olds = old(self)@.auths;
                    let k = auth_index_of(olds, id as int);
                    assert(self@.auths =~= olds.update(
                        k,
                        AuthV {
                            name: name@,
                            email: email@,
                            password1: password1@,
                            password2: password2@,
                            id: id as int,
                        },
                    ));
                    assert forall|x: int|
                        0 <= x < self@.auths.len() implies (#[trigger] self@.auths[x]).id
                        == olds[x].id by {}
                }
                Some((name.clone(), email.clone()))
            },
            None => None,
        }
    }

    /// Deletes the account row with this id and returns its `name` and
    /// `email`; fails when no row has the id.
    pub fn delete_auth_row(&mut self, id: i32) -> (r: Option<(String, String)>)
        requires
            old(self)@.wf(),
        ensures
            final(self)@.wf(),
            has_auth(old(self)@.auths, id as int) ==> {
                &&& r matches Some(ne)
                &&& ne.0@ == old(self)@.auths[auth_index_of(old(self)@.auths, id as int)].name
                &&& ne.1@ == old(self)@.auths[auth_index_of(old(self)@.auths, id as int)].email
                &&& final(self)@ == (StoreV {
                    auths: old(self)@.auths.remove(auth_index_of(old(self)@.auths, id as int)),
                    ..old(self)@
                })
            },
            !has_auth(old(self)@.auths, id as int) ==> r is None && *final(self) == *old(self),
    {
        match self.find_auth_index(id) {
            Some(i) => {
                let a = self.auths.remove(i);
                proof {
                    let olds = old(self)@.auths;
                    let k = auth_index_of(olds, id as int);
                    assert(self@.auths =~= olds.remove(k));
                    assert forall|x: int|
                        0 <= x < self@.auths.len() implies 0 < (#[trigger] self@.auths[x]).id
                        < self@.next_auth_id && (x < k ==> self@.auths[x] == olds[x]) && (x >= k
                        ==> self@.auths[x] == olds[x + 1]) by {}
                    assert forall|x: int, y: int|
                        0 <= x < self@.auths.len() && 0 <= y < self@.auths.len() && x != y implies (
                    #[trigger] self@.auths[x]).id != (#[trigger] self@.auths[y]).id by {
                        let ox: int = if x < k {
                            x
                        } else {
                            x + 1
                        };
                        let oy: int = if y < k {
                            y
                        } else {
                            y + 1
                        };
                        assert(olds[ox].id != olds[oy].id);
                    }
                }
                Some((a.name, a.email))
            },
            None => None,
        }
    }

    /// Every todo row, in store order.
    pub fn select_todos(&self) -> (r: Vec<Todo>)
        ensures
            r@.map_values(|t: Todo| t@) == self@.todos,
    {
        let n = self.todos.len();
        let mut r: Vec<Todo> = Vec::new();
        let mut i: usize = 0;
        while i < n
            invariant
                n == self.todos@.len(),
                i <= n,
                r@.map_values(|t: Todo| t@) == self@.todos.take(i as int),
            decreases n - i,
        {
            let t = self.todos[i].clone();
            let ghost tg = t;
            let ghost r0 = r@;
            r.push(t);
            proof {
                assert(r@ == r0.push(tg));
                assert(r0.map_values(|t: Todo| t@).len() == r0.len());
                assert(self@.todos.take(i as int).len() == i as int);
                assert forall|j: int| 0 <= j < r@.len() implies r@.map_values(|t: Todo| t@)[j]
                    == #[trigger] self@.todos.take(i as int + 1)[j] by {
                    if j < i as int {
                        assert(r0.push(tg)[j] == r0[j]);
                        assert(r0.map_values(|t: Todo| t@)[j] == self@.todos.take(i as int)[j]);
                    } else {
                        assert(r0.push(tg)[j] == tg);
                    }
                }
                assert(r@.map_values(|t: Todo| t@) =~= self@.todos.take(i as int + 1));
            }
            i += 1;
        }
        proof {
            assert(self@.todos.take(n as int) =~= self@.todos);
        }
        r
    }

    /// The todo rows owned by this creator, in store order.
    pub fn select_todos_by_creator(&self, creator: i32) -> (r: Vec<Todo>)
        ensures
            r@.map_values(|t: Todo| t@) == todos_with_creator(self@.todos, creator as int),
    {
        let n = self.todos.len();
        let mut r: Vec<Todo> = Vec::new();
        let mut i: usize = 0;
        while i < n
            invariant
                n == self.todos@.len(),
                i <= n,
                r@.map_values(|t: Todo| t@) == todos_with_creator(
                    self@.todos.take(i as int),
                    creator as int,
                ),
            decreases n - i,
        {
            proof {
                assert(self@.todos.take(i as int + 1).drop_last() =~= self@.todos.take(i as int));
                assert(self@.todos.take(i as int + 1).last() == self@.todos[i as int]);
            }
            if self.todos[i].creator == creator {
                r.push(self.todos[i].clone());
                proof {
                    assert(r@.map_values(|t: Todo| t@) =~= todos_with_creator(
                        self@.todos.take(i as int),
                        creator as int,
                    ).push(self@.todos[i as int]));
                }
            }
            i += 1;
        }
        proof {
            assert(self@.todos.take(n as int) =~= self@.todos);
        }
        r
    }

    /// The todo row with this id, if any: one select by primary key.
    pub fn select_todo_by_id(&self, id: i32) -> (r: Option<Todo>)
        requires
            self@.wf(),
        ensures
            match todo_with_id(self@, id as int) {
                Some(tv) => r matches Some(t) && t@ == tv,
                None => r is None,
            },
    {
        match self.find_todo_index(id) {
            Some(i) => Some(self.todos[i].clone()),
            None => None,
        }
    }

    /// Inserts a todo row under the next free id for this creator and returns
    /// the row as persisted; fails only when the id column is exhausted.
    pub fn insert_todo(&mut self, title: &String, content: &String, creator: i32) -> (r: Option<
        Todo,
    >)
        requires
            old(self)@.wf(),
        ensures
            final(self)@.wf(),
            old(self)@.next_todo_id < i32::MAX as int ==> {
                &&& r matches Some(t)
                &&& t@ == (TodoV {
                    title: title@,
                    content: content@,
                    creator: creator as int,
                    id: old(self)@.next_todo_id,
                })
                &&& final(self)@ == (StoreV {
                    todos: old(self)@.todos.push(t@),
                    next_todo_id: old(self)@.next_todo_id + 1,
                    ..old(self)@
                })
            },
            old(self)@.next_todo_id == i32::MAX as int ==> r is None && *final(self) == *old(self),
    {
        if self.next_todo_id < i32::MAX {
            let t = Todo {
                title: title.clone(),
                content: content.clone(),
                creator,
                id: self.next_todo_id,
            };
            let ret = t.clone();
            self.todos.push(t);
            self.next_todo_id = self.next_todo_id + 1;
            proof {
                assert(self@.todos =~= old(self)@.todos.push(ret@));
                assert(self@ == (StoreV {
                    todos: old(self)@.todos.push(ret@),
                    next_todo_id: old(self)@.next_todo_id + 1,
                    ..old(self)@
                }));
                assert forall|i: int, j: int|
                    0 <= i < self@.todos.len() && 0 <= j < self@.todos.len() && i != j implies (
                #[trigger] self@.todos[i]).id != (#[trigger] self@.todos[j]).id by {
                    let olds = old(self)@.todos;
                    if i < olds.len() && j < olds.len() {
                        assert(olds[i].id != olds[j].id);
                    } else if i < olds.len() {
                        assert(olds[i].id < old(self)@.next_todo_id);
                    } else {
                        assert(olds[j].id < old(self)@.next_todo_id);
                    }
                }
            }
            Some(ret)
        } else {
            None
        }
    }

    /// Updates `title` and `content` of the todo row with this id, keeping
    /// its creator, and returns the new `title` and `content`; fails when no
    /// row has the id.
    pub fn update_todo_row(&mut self, id: i32, title: &String, content: &String) -> (r: Option<
        (String, String),
    >)
        requires
            old(self)@.wf(),
        ensures
            final(self)@.wf(),
            has_todo(old(self)@.todos, id as int) ==> {
                &&& r matches Some(tc)
                &&& tc.0@ == title@ && tc.1@ == content@
                &&& final(self)@ == (StoreV {
                    todos: old(self)@.todos.update(
                        todo_index_of(old(self)@.todos, id as int),
                        TodoV {
                            title: title@,
                            content: content@,
                            creator: old(self)@.todos[todo_index_of(
                                old(self)@.todos,
                                id as int,
                            )].creator,
                            id: id as int,
                        },
                    ),
                    ..old(self)@
                })
            },
            !has_todo(old(self)@.todos, id as int) ==> r is None && *final(self) == *old(self),
    {
        match self.find_todo_index(id) {
            Some(i) => {
                let creator = self.todos[i].creator;
                self.todos[i] = Todo { title: title.clone(), content: content.clone(), creator, id };
                proof {
                    let olds = old(self)@.todos;
                    let k = todo_index_of(olds, id as int);
                    assert(self@.todos =~= olds.update(
                        k,
                        TodoV {
                            title: title@,
                            content: content@,
                            creator: olds[k].creator,
                            id: id as int,
                        },
                    ));
                    assert forall|x: int|
                        0 <= x < self@.todos.len() implies (#[trigger] self@.todos[x]).id
                        == olds[x].id by {}
                }
                Some((title.clone(), content.clone()))
            },
            None => None,
        }
    }

    /// Deletes the todo row with this id and returns the full deleted row;
    /// fails when no row has the id.
    pub fn delete_todo_row(&mut self, id: i32) -> (r: Option<Todo>)
        requires
            old(self)@.wf(),
        ensures
            final(self)@.wf(),
            has_todo(old(self)@.todos, id as int) ==> {
                &&& r matches Some(t)
                &&& t@ == old(self)@.todos[todo_index_of(old(self)@.todos, id as int)]
                &&& final(self)@ == (StoreV {
                    todos: old(self)@.todos.remove(todo_index_of(old(self)@.todos, id as int)),
                    ..old(self)@
                })
            },
            !has_todo(old(self)@.todos, id as int) ==> r is None && *final(self) == *old(self),
    {
        match self.find_todo_index(id) {
            Some(i) => {
                let t = self.todos.remove(i);
                proof {
                    let olds = old(self)@.todos;
                    let k = todo_index_of(olds, id as int);
                    assert(self@.todos =~= olds.remove(k));
                    assert forall|x: int|
                        0 <= x < self@.todos.len() implies 0 < (#[trigger] self@.todos[x]).id
                        < self@.next_todo_id && (x < k ==> self@.todos[x] == olds[x]) && (x >= k
                        ==> self@.todos[x] == olds[x + 1]) by {}
                    assert forall|x: int, y: int|
                        0 <= x < self@.todos.len() && 0 <= y < self@.todos.len() && x != y implies (
                    #[trigger] self@.todos[x]).id != (#[trigger] self@.todos[y]).id by {
                        let ox: int = if x < k {
                            x
                        } else {
                            x + 1
                        };
                        let oy: int = if y < k {
                            y
                        } else {
                            y + 1
                        };
                        assert(olds[ox].id != olds[oy].id);
                    }
                }
                Some(t)
            },
            None => None,
        }
    }
}

/// If no row before position `i` has the email, the first match in the whole
/// sequence is the first match at or after `i`.
proof fn lemma_first_email_skip(auths: Seq<AuthV>, email: Seq<char>, i: int)
    requires
        0 <= i <= auths.len(),
        forall|j: int| 0 <= j < i ==> (#[trigger] auths[j]).email != email,
    ensures
        first_auth_with_email(auths, email) == first_auth_with_email(auths.skip(i), email),
    decreases i,
{
    if i > 0 {
        assert(auths[0].email != email);
        lemma_first_email_skip(auths.drop_first(), email, i - 1);
        assert(auths.drop_first().skip(i - 1) =~= auths.skip(i));
    } else {
        assert(auths.skip(0) =~= auths);
    }
}

} // verus!
