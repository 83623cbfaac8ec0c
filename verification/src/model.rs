//! The data shapes of the service: account rows, todo rows, the transient
//! title/content shape of todo writes, and the login request body.

use vstd::prelude::*;

verus! {

/// A stored account row. `id` is assigned by the store; `name` is the one
/// validated field; the password fields are stored and compared as plain text.
#[derive(Debug, PartialEq, Eq)]
pub struct Auth {
    pub name: String,
    pub email: String,
    pub password1: String,
    pub password2: String,
    pub id: i32,
}

/// The mathematical image of an account row.
pub ghost struct AuthV {
    pub name: Seq<char>,
    pub email: Seq<char>,
    pub password1: Seq<char>,
    pub password2: Seq<char>,
    pub id: int,
}

impl View for Auth {
    type V = AuthV;

    open spec fn view(&self) -> AuthV {
        AuthV {
            name: self.name@,
            email: self.email@,
            password1: self.password1@,
            password2: self.password2@,
            id: self.id as int,
        }
    }
}

impl Clone for Auth {
    fn clone(&self) -> (r: Self)
        ensures
            r == *self,
    {
        Auth {
            name: self.name.clone(),
            email: self.email.clone(),
            password1: self.password1.clone(),
            password2: self.password2.clone(),
            id: self.id,
        }
    }
}

/// A stored todo row. `id` is assigned by the store; `creator` is the id of
/// the owning account (its existence is not checked at this layer); `title`
/// is the one validated field.
#[derive(Debug, PartialEq, Eq)]
pub struct Todo {
    pub title: String,
    pub content: String,
    pub creator: i32,
    pub id: i32,
}

/// The mathematical image of a todo row.
pub ghost struct TodoV {
    pub title: Seq<char>,
    pub content: Seq<char>,
    pub creator: int,
    pub id: int,
}

impl View for Todo {
    type V = TodoV;

    open spec fn view(&self) -> TodoV {
        TodoV {
            title: self.title@,
            content: self.content@,
            creator: self.creator as int,
            id: self.id as int,
        }
    }
}

impl Clone for Todo {
    fn clone(&self) -> (r: Self)
        ensures
            r == *self,
    {
        Todo {
            title: self.title.clone(),
            content: self.content.clone(),
            creator: self.creator,
            id: self.id,
        }
    }
}

/// The transient shape of a todo write request: the columns a caller may set.
#[derive(Debug, PartialEq, Eq)]
pub struct CreateUpdateTodo {
    pub title: String,
    pub content: String,
}

/// A login request body: the credential pair submitted by a client.
#[derive(Debug, PartialEq, Eq)]
pub struct Login {
    pub email: String,
    pub password: String,
}

} // verus!
