use signup_service::handlers::{handle_get_users, handle_sign_up};
use signup_service::{Pool, SignUp, Storage};

fn sign_up(email: &str) -> SignUp {
    SignUp { email: email.to_string() }
}

#[test]
fn get_with_empty_storage_renders_empty_table_and_form() {
    let mut pool = Pool::new(4);
    let storage = Storage::new();
    let reply = handle_get_users(&mut pool, &storage);
    assert_eq!(reply.status, 200);
    assert!(reply.body.contains("<tbody></tbody>"));
    assert!(reply.body.contains("<form action=\"sign_up\" method=\"POST\">"));
    assert!(reply.body.contains("name=\"email\""));
    assert!(reply.body.contains("type=\"email\""));
    assert!(reply.location.is_none());
    assert_eq!(pool.available(), 4);
}

#[test]
fn signup_with_invalid_email_answers_400_and_stores_nothing() {
    let mut pool = Pool::new(2);
    let mut storage = Storage::new();
    let reply = handle_sign_up(&mut pool, &mut storage, sign_up("not-an-email"));
    assert_eq!(reply.status, 400);
    assert_eq!(reply.body, "Bad request");
    assert!(reply.location.is_none());
    assert_eq!(pool.available(), 2);
    let conn = match pool.acquire() {
        Ok(c) => c,
        Err(_) => panic!("pool had capacity"),
    };
    assert!(storage.get_users(&conn).is_empty());
    pool.release(conn);
}

#[test]
fn signup_with_valid_email_redirects_to_root() {
    let mut pool = Pool::new(2);
    let mut storage = Storage::new();
    let reply = handle_sign_up(&mut pool, &mut storage, sign_up("a@b.com"));
    assert_eq!(reply.status, 303);
    assert_eq!(reply.location.as_deref(), Some("/"));
    assert_eq!(reply.body, "");
    assert_eq!(pool.available(), 2);
}

#[test]
fn duplicate_signup_answers_422_with_the_storage_reason() {
    let mut pool = Pool::new(2);
    let mut storage = Storage::new();
    let first = handle_sign_up(&mut pool, &mut storage, sign_up("a@b.com"));
    assert_eq!(first.status, 303);
    let second = handle_sign_up(&mut pool, &mut storage, sign_up("a@b.com"));
    assert_eq!(second.status, 422);
    assert_eq!(second.body, "status=422, message=duplicate email");
    assert!(second.location.is_none());
    assert_eq!(pool.available(), 2);
}

#[test]
fn exhausted_pool_answers_422_on_both_routes() {
    let mut pool = Pool::new(1);
    let mut storage = Storage::new();
    let held = match pool.acquire() {
        Ok(c) => c,
        Err(_) => panic!("pool had capacity"),
    };
    let get_reply = handle_get_users(&mut pool, &storage);
    assert_eq!(get_reply.status, 422);
    assert_eq!(get_reply.body, "status=422, message=connection pool exhausted");
    let post_reply = handle_sign_up(&mut pool, &mut storage, sign_up("a@b.com"));
    assert_eq!(post_reply.status, 422);
    assert_eq!(post_reply.body, "status=422, message=connection pool exhausted");
    pool.release(held);
    assert_eq!(pool.available(), 1);
}

#[test]
fn signed_up_users_are_listed_in_order_with_their_ids() {
    let mut pool = Pool::new(2);
    let mut storage = Storage::new();
    handle_sign_up(&mut pool, &mut storage, sign_up("a@b.com"));
    handle_sign_up(&mut pool, &mut storage, sign_up("c@d.org"));
    let reply = handle_get_users(&mut pool, &storage);
    assert_eq!(reply.status, 200);
    let rows = "<tr><td><strong>1</strong></td><td>a@b.com</td></tr>\
                <tr><td><strong>2</strong></td><td>c@d.org</td></tr>";
    assert!(reply.body.contains(rows));
    assert_eq!(pool.available(), 2);
}

#[test]
fn pool_availability_is_restored_after_each_request() {
    let mut pool = Pool::new(3);
    let mut storage = Storage::new();
    assert_eq!(pool.available(), 3);
    handle_get_users(&mut pool, &storage);
    assert_eq!(pool.available(), 3);
    handle_sign_up(&mut pool, &mut storage, sign_up("a@b.com"));
    assert_eq!(pool.available(), 3);
    handle_sign_up(&mut pool, &mut storage, sign_up("not-an-email"));
    assert_eq!(pool.available(), 3);
    handle_sign_up(&mut pool, &mut storage, sign_up("a@b.com"));
    assert_eq!(pool.available(), 3);
}
