use signup_service::users::users as render_users;
use signup_service::{
    u64_to_string, validate, Config, CustomError, Pool, PoolError, SignUp, Storage, StorageError,
    User,
};

#[test]
fn validate_accepts_well_formed_emails() {
    assert!(validate(&SignUp { email: "a@b.com".to_string() }).is_ok());
    assert!(validate(&SignUp { email: "user.name+tag@example.co.uk".to_string() }).is_ok());
}

#[test]
fn validate_rejects_strings_without_an_at_domain_structure() {
    assert!(validate(&SignUp { email: "not-an-email".to_string() }).is_err());
    assert!(validate(&SignUp { email: "".to_string() }).is_err());
    assert!(validate(&SignUp { email: "a@".to_string() }).is_err());
    assert!(validate(&SignUp { email: "@b.com".to_string() }).is_err());
}

#[test]
fn u64_to_string_renders_decimal() {
    assert_eq!(u64_to_string(0), "0");
    assert_eq!(u64_to_string(7), "7");
    assert_eq!(u64_to_string(42), "42");
    assert_eq!(u64_to_string(1234567890), "1234567890");
    assert_eq!(u64_to_string(u64::MAX), "18446744073709551615");
}

#[test]
fn renderer_produces_the_exact_document_for_one_user() {
    let page = render_users(vec![User { id: 7, email: "a@b.com".to_string() }]);
    let expected = "<!DOCTYPE html><html><head><title>Users Table</title></head><body>\
        <table><thead><tr><th>ID</th><th>Email</th></tr></thead><tbody>\
        <tr><td><strong>7</strong></td><td>a@b.com</td></tr>\
        </tbody></table>\
        <form action=\"sign_up\" method=\"POST\">\
        <label for=\"user_email\">Email:</label>\
        <input id=\"user_email\" name=\"email\" type=\"email\" required=\"true\"/>\
        <button>Submit</button></form></body></html>";
    assert_eq!(page, expected);
}

#[test]
fn renderer_emits_one_row_per_user_in_the_order_supplied() {
    let page = render_users(vec![
        User { id: 1, email: "a@b.com".to_string() },
        User { id: 2, email: "c@d.org".to_string() },
        User { id: 3, email: "e@f.net".to_string() },
    ]);
    // one <tr> for the header and one per user
    assert_eq!(page.matches("<tr>").count(), 4);
    let first = page.find("<td>a@b.com</td>").unwrap();
    let second = page.find("<td>c@d.org</td>").unwrap();
    let third = page.find("<td>e@f.net</td>").unwrap();
    assert!(first < second && second < third);
}

#[test]
fn pool_never_lends_beyond_its_capacity() {
    let mut pool = Pool::new(2);
    let c1 = match pool.acquire() {
        Ok(c) => c,
        Err(_) => panic!("first acquire must succeed"),
    };
    let c2 = match pool.acquire() {
        Ok(c) => c,
        Err(_) => panic!("second acquire must succeed"),
    };
    match pool.acquire() {
        Ok(_) => panic!("third acquire must fail"),
        Err(e) => assert_eq!(e.message, "connection pool exhausted"),
    }
    pool.release(c1);
    assert_eq!(pool.available(), 1);
    match pool.acquire() {
        Ok(c) => pool.release(c),
        Err(_) => panic!("a released connection can be lent again"),
    }
    pool.release(c2);
    assert_eq!(pool.available(), 2);
    assert_eq!(pool.capacity(), 2);
}

#[test]
fn storage_assigns_increasing_ids_and_refuses_duplicates() {
    let mut pool = Pool::new(1);
    let mut storage = Storage::new();
    let conn = match pool.acquire() {
        Ok(c) => c,
        Err(_) => panic!("pool had capacity"),
    };
    assert!(storage.create_user(&conn, "a@b.com", "aaaa").is_ok());
    assert!(storage.create_user(&conn, "c@d.org", "aaaa").is_ok());
    match storage.create_user(&conn, "a@b.com", "aaaa") {
        Ok(()) => panic!("duplicate email must be refused"),
        Err(e) => assert_eq!(e.message, "duplicate email"),
    }
    let listed = storage.get_users(&conn);
    assert_eq!(listed.len(), 2);
    assert_eq!(listed[0].id, 1);
    assert_eq!(listed[0].email, "a@b.com");
    assert_eq!(listed[1].id, 2);
    assert_eq!(listed[1].email, "c@d.org");
    pool.release(conn);
}

#[test]
fn error_messages_name_their_kind() {
    let setup = CustomError::FaultySetup("bad uri".to_string());
    assert_eq!(setup.message(), "Setup Error: bad uri");
    let db = CustomError::Database("boom".to_string());
    assert_eq!(db.message(), "Database Error: boom");
}

#[test]
fn responder_maps_both_kinds_to_422() {
    let setup = CustomError::FaultySetup("bad uri".to_string()).into_response();
    assert_eq!(setup.status, 422);
    assert_eq!(setup.body, "status=422, message=bad uri");
    assert!(setup.location.is_none());
    let db = CustomError::Database("boom".to_string()).into_response();
    assert_eq!(db.status, 422);
    assert_eq!(db.body, "status=422, message=boom");
}

#[test]
fn lower_level_failures_convert_losslessly() {
    let from_pool = CustomError::from(PoolError { message: "timed out".to_string() });
    match from_pool {
        CustomError::Database(m) => assert_eq!(m, "timed out"),
        CustomError::FaultySetup(_) => panic!("a pool failure is a database failure"),
    }
    let from_storage = CustomError::from(StorageError { message: "constraint".to_string() });
    match from_storage {
        CustomError::Database(m) => assert_eq!(m, "constraint"),
        CustomError::FaultySetup(_) => panic!("a query failure is a database failure"),
    }
}

#[test]
fn config_keeps_the_connection_string() {
    let config = Config::new("postgres://localhost/app".to_string());
    assert_eq!(config.database_url, "postgres://localhost/app");
}
