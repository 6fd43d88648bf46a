use fluent_http::connection::Connection;
use fluent_http::request::{Body, Method};

fn url_of(conn: &Connection<()>) -> String {
    conn.request(Method::Get).into_wire().0.url
}

#[test]
fn new_accepts_a_valid_url_and_round_trips_its_parts() {
    let conn: Connection<()> = Connection::new("http://localhost:3000", ()).unwrap();
    assert_eq!(url_of(&conn), "http://localhost:3000/");
}

#[test]
fn new_keeps_path_and_query_of_the_base_url() {
    let conn: Connection<()> = Connection::new("https://example.com/base/path?a=1", ()).unwrap();
    assert_eq!(url_of(&conn), "https://example.com/base/path?a=1");
}

#[test]
fn new_normalizes_scheme_and_host_case() {
    let conn: Connection<()> = Connection::new("HTTP://LocalHost:8080/Mixed", ()).unwrap();
    assert_eq!(url_of(&conn), "http://localhost:8080/Mixed");
}

#[test]
fn new_rejects_a_malformed_url() {
    let e = Connection::new("not a url", ()).unwrap_err();
    assert_eq!(e.description(), "Could not parse URL");
}

#[test]
fn new_rejects_a_url_without_a_host() {
    let e = Connection::new("mailto:someone@example.com", ()).unwrap_err();
    assert_eq!(e.description(), "Could not parse URL");
}

#[test]
fn with_path_replaces_the_path() {
    let conn: Connection<()> = Connection::new("http://localhost:3000", ()).unwrap();
    let wire = conn.request(Method::Get).with_path("/foo").into_wire().0;
    assert_eq!(wire.url, "http://localhost:3000/foo");
}

#[test]
fn with_path_overwrites_instead_of_appending() {
    let conn: Connection<()> = Connection::new("http://localhost:3000", ()).unwrap();
    let twice = conn.request(Method::Get).with_path("/p1").with_path("/p2").into_wire().0;
    let once = conn.request(Method::Get).with_path("/p2").into_wire().0;
    assert_eq!(twice.url, once.url);
    assert_eq!(twice.url, "http://localhost:3000/p2");
}

#[test]
fn with_path_supplies_a_missing_leading_slash() {
    let conn: Connection<()> = Connection::new("http://localhost:3000", ()).unwrap();
    let wire = conn.request(Method::Get).with_path("src/lib.rs").into_wire().0;
    assert_eq!(wire.url, "http://localhost:3000/src/lib.rs");
}

#[test]
fn with_query_appends_pairs_in_order_and_keeps_duplicates() {
    let conn: Connection<()> = Connection::new("http://localhost:3000", ()).unwrap();
    let wire = conn
        .request(Method::Get)
        .with_query(&[("x", "1"), ("x", "2"), ("y", "3")])
        .into_wire()
        .0;
    assert_eq!(wire.url, "http://localhost:3000/?x=1&x=2&y=3");
}

#[test]
fn with_query_keeps_preexisting_query_parameters() {
    let conn: Connection<()> = Connection::new("http://localhost:3000/p?a=1", ()).unwrap();
    let wire = conn.request(Method::Get).with_query(&[("b", "2")]).into_wire().0;
    assert_eq!(wire.url, "http://localhost:3000/p?a=1&b=2");
}

#[test]
fn with_query_percent_encodes_through_the_url_collaborator() {
    let conn: Connection<()> = Connection::new("http://localhost:3000", ()).unwrap();
    let wire = conn.request(Method::Get).with_query(&[("a b", "c&d")]).into_wire().0;
    assert_eq!(wire.url, "http://localhost:3000/?a+b=c%26d");
}

#[test]
fn scenario_get_with_path_and_query() {
    let conn: Connection<()> = Connection::new("http://localhost:3000", ()).unwrap();
    let wire = conn
        .request(Method::Get)
        .with_path("/foo/bar")
        .with_query(&[("yes", "no")])
        .into_wire()
        .0;
    assert_eq!(wire.url, "http://localhost:3000/foo/bar?yes=no");
    assert_eq!(wire.method, Method::Get);
}

#[test]
fn with_headers_replaces_the_default_headers() {
    let conn: Connection<()> = Connection::new("http://localhost:3000", ()).unwrap();
    let conn = conn
        .with_headers(vec![("Accept".to_string(), "text/plain".to_string())])
        .with_headers(vec![("X-Token".to_string(), "t".to_string())]);
    let wire = conn.request(Method::Get).into_wire().0;
    let headers = wire.headers.unwrap();
    assert_eq!(headers, vec![("X-Token".to_string(), "t".to_string())]);
}

#[test]
fn requests_carry_a_copy_of_the_default_headers() {
    let conn: Connection<()> = Connection::new("http://localhost:3000", ()).unwrap();
    let conn = conn.with_headers(vec![("Accept".to_string(), "text/plain".to_string())]);
    let w1 = conn.request(Method::Get).into_wire().0;
    let w2 = conn.request(Method::Post).into_wire().0;
    assert_eq!(w1.headers, w2.headers);
    assert_eq!(w1.headers.unwrap(), vec![("Accept".to_string(), "text/plain".to_string())]);
}

#[test]
fn with_body_keeps_borrowed_and_owned_bytes() {
    let conn: Connection<()> = Connection::new("http://localhost:3000", ()).unwrap();
    let data = [1u8, 2, 3];
    let borrowed = conn
        .request(Method::Post)
        .with_body(Body::Borrowed(&data))
        .into_wire()
        .0;
    assert_eq!(borrowed.body.unwrap().bytes(), &[1, 2, 3]);
    let owned = conn
        .request(Method::Post)
        .with_body(Body::Owned(vec![9, 8]))
        .into_wire()
        .0;
    assert_eq!(owned.body.unwrap().bytes(), &[9, 8]);
}

#[test]
fn a_url_without_explicit_port_serializes_without_one() {
    let conn: Connection<()> = Connection::new("http://example.com/x", ()).unwrap();
    assert_eq!(url_of(&conn), "http://example.com/x");
}

#[test]
fn default_scheme_port_is_left_out() {
    let conn: Connection<()> = Connection::new("http://example.com:80/x", ()).unwrap();
    assert_eq!(url_of(&conn), "http://example.com/x");
}
