use todo_actix::auth_api::{add_auth, delete_auth, get_auth, get_auths, login, update_auth};
use todo_actix::model::{Auth, CreateUpdateTodo, Login};
use todo_actix::response::{Body, ContentType, Response};
use todo_actix::store::Store;
use todo_actix::todo_api::{
    create_todo, delete_todo, get_auth_todos, get_todo, get_todos, update_todo,
};
use todo_actix::validate::{validate_auth, validate_todo};

fn auth_body(name: &str, email: &str, p1: &str, p2: &str) -> Auth {
    Auth {
        name: name.to_string(),
        email: email.to_string(),
        password1: p1.to_string(),
        password2: p2.to_string(),
        id: 0,
    }
}

fn todo_body(title: &str, content: &str) -> CreateUpdateTodo {
    CreateUpdateTodo { title: title.to_string(), content: content.to_string() }
}

fn created_id(r: &Response) -> i32 {
    match &r.body {
        Body::OneAuth(a) => a.id,
        other => panic!("expected an account row, got {:?}", other),
    }
}

#[test]
fn create_assigns_id_and_get_finds_it() {
    let mut s = Store::new();
    let r = add_auth(&mut s, &auth_body("Ana", "a@x.com", "p", "p"));
    assert_eq!(r.status, 200);
    assert_eq!(r.content_type, ContentType::Json);
    let id = created_id(&r);
    assert_eq!(id, 1);

    let r2 = get_auth(&s, id);
    assert_eq!(r2.status, 200);
    match r2.body {
        Body::OneAuth(a) => {
            assert_eq!(a.name, "Ana");
            assert_eq!(a.email, "a@x.com");
            assert_eq!(a.id, id);
        }
        other => panic!("expected an account row, got {:?}", other),
    }
}

#[test]
fn empty_name_is_rejected_without_a_write() {
    let mut s = Store::new();
    let r = add_auth(&mut s, &auth_body("", "a@x.com", "p", "p"));
    assert_eq!(r.status, 200);
    assert_eq!(r.content_type, ContentType::Text);
    assert_eq!(r.body, Body::Message("Auth name is requied!".to_string()));

    let all = get_auths(&s);
    assert_eq!(all.body, Body::Auths(Vec::new()));
}

#[test]
fn empty_name_on_update_is_rejected_without_a_write() {
    let mut s = Store::new();
    add_auth(&mut s, &auth_body("Ana", "a@x.com", "p", "p"));
    let r = update_auth(&mut s, 1, &auth_body("", "b@x.com", "q", "q"));
    assert_eq!(r.status, 200);
    assert_eq!(r.body, Body::Message("Auth name is requied!".to_string()));

    let r2 = get_auth(&s, 1);
    match r2.body {
        Body::OneAuth(a) => assert_eq!(a.email, "a@x.com"),
        other => panic!("expected an account row, got {:?}", other),
    }
}

#[test]
fn empty_title_is_rejected_without_a_write() {
    let mut s = Store::new();
    let r = create_todo(&mut s, 1, &todo_body("", "x"));
    assert_eq!(r.status, 200);
    assert_eq!(r.content_type, ContentType::Text);
    assert_eq!(r.body, Body::Message("Todo title is requied!".to_string()));

    let all = get_todos(&s);
    assert_eq!(all.body, Body::Todos(Vec::new()));
}

#[test]
fn login_with_correct_pair_returns_the_account() {
    let mut s = Store::new();
    add_auth(&mut s, &auth_body("Ana", "a@x.com", "secret", "secret"));
    let r = login(
        &s,
        &Login { email: "a@x.com".to_string(), password: "secret".to_string() },
    );
    assert_eq!(r.status, 200);
    match r.body {
        Body::OneAuth(a) => {
            assert_eq!(a.email, "a@x.com");
            assert_eq!(a.name, "Ana");
        }
        other => panic!("expected an account row, got {:?}", other),
    }
}

#[test]
fn login_with_wrong_password_is_a_bare_401() {
    let mut s = Store::new();
    add_auth(&mut s, &auth_body("Ana", "a@x.com", "secret", "secret"));
    let r = login(
        &s,
        &Login { email: "a@x.com".to_string(), password: "wrong".to_string() },
    );
    assert_eq!(
        r,
        Response { status: 401, content_type: ContentType::NoBody, body: Body::Empty }
    );
}

#[test]
fn login_with_unknown_email_is_a_bare_401() {
    let mut s = Store::new();
    add_auth(&mut s, &auth_body("Ana", "a@x.com", "secret", "secret"));
    let r = login(
        &s,
        &Login { email: "b@x.com".to_string(), password: "secret".to_string() },
    );
    assert_eq!(
        r,
        Response { status: 401, content_type: ContentType::NoBody, body: Body::Empty }
    );
}

#[test]
fn login_uses_the_first_account_with_the_email() {
    let mut s = Store::new();
    add_auth(&mut s, &auth_body("First", "dup@x.com", "one", "one"));
    add_auth(&mut s, &auth_body("Second", "dup@x.com", "two", "two"));
    // The second account's password does not log in: the first row decides.
    let r = login(
        &s,
        &Login { email: "dup@x.com".to_string(), password: "two".to_string() },
    );
    assert_eq!(r.status, 401);
    let r2 = login(
        &s,
        &Login { email: "dup@x.com".to_string(), password: "one".to_string() },
    );
    assert_eq!(r2.status, 200);
    match r2.body {
        Body::OneAuth(a) => assert_eq!(a.name, "First"),
        other => panic!("expected an account row, got {:?}", other),
    }
}

#[test]
fn deleted_todo_cannot_be_fetched() {
    let mut s = Store::new();
    add_auth(&mut s, &auth_body("Ana", "a@x.com", "p", "p"));
    create_todo(&mut s, 1, &todo_body("first", "c1"));
    create_todo(&mut s, 1, &todo_body("second", "c2"));

    let r = delete_todo(&mut s, 1);
    assert_eq!(r.status, 200);
    match r.body {
        Body::OneTodo(t) => {
            assert_eq!(t.title, "first");
            assert_eq!(t.content, "c1");
            assert_eq!(t.creator, 1);
            assert_eq!(t.id, 1);
        }
        other => panic!("expected a todo row, got {:?}", other),
    }

    let r2 = get_todo(&s, 1);
    assert_eq!(r2.status, 500);
    assert_eq!(r2.body, Body::Message("Failed to get todo".to_string()));

    // The other row is untouched.
    let r3 = get_todo(&s, 2);
    assert_eq!(r3.status, 200);
}

#[test]
fn deleting_an_absent_todo_is_a_store_failure() {
    let mut s = Store::new();
    let r = delete_todo(&mut s, 7);
    assert_eq!(r.status, 500);
    assert_eq!(r.body, Body::Message("Failed to delete todo".to_string()));
}

#[test]
fn owner_listing_is_exactly_the_owned_rows_in_order() {
    let mut s = Store::new();
    add_auth(&mut s, &auth_body("Ana", "a@x.com", "p", "p"));
    add_auth(&mut s, &auth_body("Bob", "b@x.com", "p", "p"));
    create_todo(&mut s, 1, &todo_body("a-one", ""));
    create_todo(&mut s, 2, &todo_body("b-one", ""));
    create_todo(&mut s, 1, &todo_body("a-two", ""));

    let r = get_auth_todos(&s, 1);
    assert_eq!(r.status, 200);
    match r.body {
        Body::Todos(v) => {
            let titles: Vec<&str> = v.iter().map(|t| t.title.as_str()).collect();
            assert_eq!(titles, vec!["a-one", "a-two"]);
            assert!(v.iter().all(|t| t.creator == 1));
        }
        other => panic!("expected todo rows, got {:?}", other),
    }

    let r2 = get_auth_todos(&s, 3);
    assert_eq!(r2.body, Body::Todos(Vec::new()));
}

#[test]
fn full_scenario_create_account_todo_and_rejected_update() {
    let mut s = Store::new();
    let r = add_auth(&mut s, &auth_body("Ana", "a@x.com", "p", "p"));
    assert_eq!(r.status, 200);
    let id = created_id(&r);
    match &r.body {
        Body::OneAuth(a) => {
            assert_eq!(a.name, "Ana");
            assert_eq!(a.email, "a@x.com");
        }
        other => panic!("expected an account row, got {:?}", other),
    }

    let r2 = create_todo(&mut s, id, &todo_body("Buy milk", ""));
    assert_eq!(r2.status, 200);
    assert_eq!(
        r2.body,
        Body::TitleContentCreator("Buy milk".to_string(), "".to_string(), id)
    );

    let todo_id = 1;
    let r3 = update_todo(&mut s, todo_id, &todo_body("", "x"));
    assert_eq!(r3.status, 200);
    assert_eq!(r3.body, Body::Message("Todo title is requied!".to_string()));

    let r4 = get_todo(&s, todo_id);
    assert_eq!(r4.status, 200);
    match r4.body {
        Body::OneTodo(t) => assert_eq!(t.title, "Buy milk"),
        other => panic!("expected a todo row, got {:?}", other),
    }
}

#[test]
fn update_auth_overwrites_and_returns_name_email() {
    let mut s = Store::new();
    add_auth(&mut s, &auth_body("Ana", "a@x.com", "p", "p"));
    let r = update_auth(&mut s, 1, &auth_body("Anna", "new@x.com", "q", "q"));
    assert_eq!(r.status, 200);
    assert_eq!(
        r.body,
        Body::NameEmail("Anna".to_string(), "new@x.com".to_string())
    );

    let r2 = get_auth(&s, 1);
    match r2.body {
        Body::OneAuth(a) => {
            assert_eq!(a.name, "Anna");
            assert_eq!(a.email, "new@x.com");
            assert_eq!(a.password1, "q");
        }
        other => panic!("expected an account row, got {:?}", other),
    }
}

#[test]
fn update_of_an_absent_auth_is_a_store_failure() {
    let mut s = Store::new();
    let r = update_auth(&mut s, 9, &auth_body("Ana", "a@x.com", "p", "p"));
    assert_eq!(r.status, 500);
    assert_eq!(r.body, Body::Message("Failed to update auth".to_string()));
}

#[test]
fn delete_auth_returns_name_email_and_removes_the_row() {
    let mut s = Store::new();
    add_auth(&mut s, &auth_body("Ana", "a@x.com", "p", "p"));
    let r = delete_auth(&mut s, 1);
    assert_eq!(r.status, 200);
    assert_eq!(
        r.body,
        Body::NameEmail("Ana".to_string(), "a@x.com".to_string())
    );

    let r2 = get_auth(&s, 1);
    assert_eq!(r2.status, 500);
    assert_eq!(r2.body, Body::Message("Failed to get auth".to_string()));
}

#[test]
fn delete_of_an_absent_auth_is_a_store_failure() {
    let mut s = Store::new();
    let r = delete_auth(&mut s, 1);
    assert_eq!(r.status, 500);
    assert_eq!(r.body, Body::Message("Failed to delete auth".to_string()));
}

#[test]
fn todo_listing_returns_every_row() {
    let mut s = Store::new();
    create_todo(&mut s, 1, &todo_body("one", ""));
    let all = get_todos(&s);
    match all.body {
        Body::Todos(v) => {
            assert_eq!(v.len(), 1);
            assert_eq!(v[0].title, "one");
        }
        other => panic!("expected todo rows, got {:?}", other),
    }
}

#[test]
fn fetch_of_an_absent_auth_is_a_store_failure() {
    let s = Store::new();
    let r = get_auth(&s, 1);
    assert_eq!(r.status, 500);
    assert_eq!(r.body, Body::Message("Failed to get auth".to_string()));
}

#[test]
fn exhausted_id_column_fails_the_insert() {
    let mut s = Store {
        auths: Vec::new(),
        todos: Vec::new(),
        next_auth_id: i32::MAX,
        next_todo_id: i32::MAX,
    };
    let r = add_auth(&mut s, &auth_body("Ana", "a@x.com", "p", "p"));
    assert_eq!(r.status, 500);
    assert_eq!(r.body, Body::Message("Failed to create auth".to_string()));

    let r2 = create_todo(&mut s, 1, &todo_body("t", ""));
    assert_eq!(r2.status, 500);
    assert_eq!(r2.body, Body::Message("Failed to create todo".to_string()));
}

#[test]
fn update_todo_keeps_the_creator() {
    let mut s = Store::new();
    create_todo(&mut s, 42, &todo_body("old", "c"));
    let r = update_todo(&mut s, 1, &todo_body("new", "d"));
    assert_eq!(r.status, 200);
    assert_eq!(r.body, Body::TitleContent("new".to_string(), "d".to_string()));
    match get_todo(&s, 1).body {
        Body::OneTodo(t) => {
            assert_eq!(t.creator, 42);
            assert_eq!(t.title, "new");
            assert_eq!(t.content, "d");
        }
        other => panic!("expected a todo row, got {:?}", other),
    }
}

#[test]
fn validation_reports_the_field_and_message() {
    let a = validate_auth(&auth_body("", "e", "p", "p"));
    assert_eq!(a.len(), 1);
    assert_eq!(a[0].field, "name");
    assert_eq!(a[0].message, "auth name required");
    assert!(validate_auth(&auth_body("x", "e", "p", "p")).is_empty());

    let t = validate_todo(&todo_body("", "c"));
    assert_eq!(t.len(), 1);
    assert_eq!(t[0].field, "title");
    assert_eq!(t[0].message, "todo title required");
    assert!(validate_todo(&todo_body("x", "c")).is_empty());
}

#[test]
fn listing_returns_all_rows_in_insertion_order() {
    let mut s = Store::new();
    add_auth(&mut s, &auth_body("Ana", "a@x.com", "p", "p"));
    add_auth(&mut s, &auth_body("Bob", "b@x.com", "p", "p"));
    let r = get_auths(&s);
    assert_eq!(r.status, 200);
    match r.body {
        Body::Auths(v) => {
            assert_eq!(v.len(), 2);
            assert_eq!(v[0].name, "Ana");
            assert_eq!(v[1].name, "Bob");
            assert_eq!(v[0].id, 1);
            assert_eq!(v[1].id, 2);
        }
        other => panic!("expected account rows, got {:?}", other),
    }
}
