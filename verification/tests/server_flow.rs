use todo_session::http::{split_target, HttpRequest, HttpResponse, Method};
use todo_session::server::handle_request;
use todo_session::session::SessionStore;

fn req(method: Method, path: &str, query: &str, cookie: Option<&str>, body: &str) -> HttpRequest {
    HttpRequest {
        method,
        path: path.to_string(),
        query: query.to_string(),
        cookie: cookie.map(|c| c.to_string()),
        body: body.to_string(),
    }
}

fn get(path: &str, cookie: Option<&str>) -> HttpRequest {
    req(Method::Get, path, "", cookie, "")
}

fn count_li(resp: &HttpResponse) -> usize {
    resp.body.matches("<li>").count()
}

#[test]
fn welcome_links_to_challenge_and_todo() {
    let mut store = SessionStore::new();
    let resp = handle_request(&mut store, &get("/", None));
    assert_eq!(resp.status, 200);
    assert!(resp.body.contains("/challenge/Rustacean"));
    assert!(resp.body.contains("/todo"));
}

#[test]
fn head_is_served_like_get() {
    let mut store = SessionStore::new();
    let resp = handle_request(&mut store, &req(Method::Head, "/", "", None, ""));
    assert_eq!(resp.status, 200);
}

#[test]
fn challenge_greets_the_name_with_the_default_message() {
    let mut store = SessionStore::new();
    let resp = handle_request(&mut store, &get("/challenge/Rustacean", None));
    assert_eq!(resp.status, 200);
    assert!(resp.body.contains("Rustacean"));
    assert!(resp.body.contains("Izzy Mandelbaum can lift more weight than you."));
}

#[test]
fn challenge_answers_a_count_with_count_plus_one() {
    let mut store = SessionStore::new();
    let resp = handle_request(
        &mut store,
        &req(Method::Get, "/challenge/Rustacean", "count=5", None, ""),
    );
    assert_eq!(resp.status, 200);
    assert!(resp.body.contains("Rustacean"));
    assert!(resp.body.contains("6"));
    assert!(resp.body.contains("<strong>6 kgs</strong>"));
}

#[test]
fn challenge_treats_an_unreadable_count_as_absent() {
    let mut store = SessionStore::new();
    let resp = handle_request(
        &mut store,
        &req(Method::Get, "/challenge/Rustacean", "count=heavy", None, ""),
    );
    assert_eq!(resp.status, 200);
    assert!(resp.body.contains("Izzy Mandelbaum can lift more weight than you."));
}

#[test]
fn empty_todo_list_renders_no_items_and_one_add_shows_up() {
    let mut store = SessionStore::new();
    let first = handle_request(&mut store, &get("/todo", None));
    assert_eq!(first.status, 200);
    assert_eq!(count_li(&first), 0);
    assert!(!first.body.contains("<ul>"));
    let cookie = first.set_cookie.clone().expect("a fresh session sets a cookie");

    let add = handle_request(
        &mut store,
        &req(Method::Post, "/todo", "", Some(&cookie), "item=Buy milk"),
    );
    assert_eq!(add.status, 303);
    assert_eq!(add.location.as_deref(), Some("/todo"));

    let second = handle_request(&mut store, &get("/todo", Some(&cookie)));
    assert_eq!(second.status, 200);
    assert_eq!(count_li(&second), 1);
    assert!(second.body.contains("<li>Buy milk</li>"));
}

#[test]
fn items_accumulate_in_submission_order() {
    let mut store = SessionStore::new();
    let first = handle_request(&mut store, &get("/todo", None));
    let cookie = first.set_cookie.clone().unwrap();
    for body in ["item=one", "item=", "nothing", "item=two"] {
        handle_request(&mut store, &req(Method::Post, "/todo", "", Some(&cookie), body));
    }
    let view = handle_request(&mut store, &get("/todo", Some(&cookie)));
    assert_eq!(count_li(&view), 2);
    let one = view.body.find("<li>one</li>").unwrap();
    let two = view.body.find("<li>two</li>").unwrap();
    assert!(one < two);
}

#[test]
fn unrecognized_cookie_starts_a_fresh_session() {
    let mut store = SessionStore::new();
    let first = handle_request(&mut store, &get("/todo", None));
    let cookie = first.set_cookie.clone().unwrap();
    handle_request(&mut store, &req(Method::Post, "/todo", "", Some(&cookie), "item=mine"));

    let stranger = handle_request(&mut store, &get("/todo", Some("garbage")));
    assert_eq!(stranger.status, 200);
    assert_eq!(count_li(&stranger), 0);

    let numeric_stranger = handle_request(&mut store, &get("/todo", Some("999")));
    assert_eq!(numeric_stranger.status, 200);
    assert_eq!(count_li(&numeric_stranger), 0);
}

#[test]
fn reset_clears_the_list_and_changes_the_identifier() {
    let mut store = SessionStore::new();
    let first = handle_request(&mut store, &get("/todo", None));
    let cookie = first.set_cookie.clone().unwrap();
    handle_request(&mut store, &req(Method::Post, "/todo", "", Some(&cookie), "item=gone"));

    let reset = handle_request(&mut store, &req(Method::Post, "/todo/reset", "", Some(&cookie), ""));
    assert_eq!(reset.status, 303);
    assert_eq!(reset.location.as_deref(), Some("/todo"));
    assert!(reset.clear_cookie);
    assert_eq!(reset.set_cookie, None);

    let after = handle_request(&mut store, &get("/todo", Some(&cookie)));
    assert_eq!(after.status, 200);
    assert_eq!(count_li(&after), 0);
    let new_cookie = after.set_cookie.clone().unwrap();
    assert_ne!(new_cookie, cookie);
}

#[test]
fn distinct_sessions_do_not_cross_contaminate() {
    let mut store = SessionStore::new();
    let a = handle_request(&mut store, &get("/todo", None)).set_cookie.unwrap();
    let b = handle_request(&mut store, &get("/todo", None)).set_cookie.unwrap();
    assert_ne!(a, b);

    handle_request(&mut store, &req(Method::Post, "/todo", "", Some(&a), "item=apples"));
    handle_request(&mut store, &req(Method::Post, "/todo", "", Some(&b), "item=bread"));
    handle_request(&mut store, &req(Method::Post, "/todo", "", Some(&a), "item=cheese"));

    let view_a = handle_request(&mut store, &get("/todo", Some(&a)));
    assert_eq!(count_li(&view_a), 2);
    assert!(view_a.body.contains("<li>apples</li>"));
    assert!(view_a.body.contains("<li>cheese</li>"));
    assert!(!view_a.body.contains("bread"));

    let view_b = handle_request(&mut store, &get("/todo", Some(&b)));
    assert_eq!(count_li(&view_b), 1);
    assert!(view_b.body.contains("<li>bread</li>"));
    assert!(!view_b.body.contains("apples"));
}

#[test]
fn session_continuity_through_the_returned_cookie() {
    let mut store = SessionStore::new();
    let first = handle_request(&mut store, &get("/todo", None));
    let cookie = first.set_cookie.clone().unwrap();
    let add = handle_request(
        &mut store,
        &req(Method::Post, "/todo", "", Some(&cookie), "item=remembered"),
    );
    assert_eq!(add.set_cookie.as_deref(), Some(cookie.as_str()));
    let view = handle_request(&mut store, &get("/todo", Some(&cookie)));
    assert!(view.body.contains("<li>remembered</li>"));
}

#[test]
fn undefined_paths_and_verbs_get_a_client_error() {
    let mut store = SessionStore::new();
    let resp = handle_request(&mut store, &get("/nonexistent", None));
    assert_eq!(resp.status, 404);
    assert_eq!(resp.set_cookie, None);

    let resp = handle_request(&mut store, &req(Method::Post, "/", "", None, ""));
    assert_eq!(resp.status, 404);

    let resp = handle_request(&mut store, &req(Method::Other, "/todo", "", None, ""));
    assert_eq!(resp.status, 404);

    let resp = handle_request(&mut store, &req(Method::Get, "/todo/reset", "", None, ""));
    assert_eq!(resp.status, 404);
}

#[test]
fn malformed_body_still_redirects_without_adding() {
    let mut store = SessionStore::new();
    let first = handle_request(&mut store, &get("/todo", None));
    let cookie = first.set_cookie.clone().unwrap();
    let add = handle_request(
        &mut store,
        &req(Method::Post, "/todo", "", Some(&cookie), "no form data here"),
    );
    assert_eq!(add.status, 303);
    assert_eq!(add.location.as_deref(), Some("/todo"));
    let view = handle_request(&mut store, &get("/todo", Some(&cookie)));
    assert_eq!(count_li(&view), 0);
}

#[test]
fn challenge_count_boundary_values() {
    let mut store = SessionStore::new();
    let resp = handle_request(
        &mut store,
        &req(Method::Get, "/challenge/Izzy", "count=255", None, ""),
    );
    assert!(resp.body.contains("<strong>256 kgs</strong>"));

    let resp = handle_request(
        &mut store,
        &req(Method::Get, "/challenge/Izzy", "count=256", None, ""),
    );
    assert!(resp.body.contains("Izzy Mandelbaum can lift more weight than you."));
}

#[test]
fn a_full_target_splits_and_serves() {
    let (path, query) = split_target("/challenge/Rustacean?count=5");
    let mut store = SessionStore::new();
    let resp = handle_request(&mut store, &req(Method::Get, &path, &query, None, ""));
    assert_eq!(resp.status, 200);
    assert!(resp.body.contains("<strong>6 kgs</strong>"));
}
