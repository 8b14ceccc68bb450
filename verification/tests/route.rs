use http_server::route::{file_name, route_of, status_line, str_eq, Route};

#[test]
fn route_known_lines() {
    assert_eq!(route_of("GET / HTTP/1.1"), Route::Root);
    assert_eq!(route_of("GET /sleep HTTP/1.1"), Route::Sleep);
}

#[test]
fn route_unknown_lines_are_not_found() {
    assert_eq!(route_of("POST / HTTP/1.1"), Route::NotFound);
    assert_eq!(route_of("GET /missing HTTP/1.1"), Route::NotFound);
    assert_eq!(route_of(""), Route::NotFound);
    assert_eq!(route_of("GET / HTTP/1.0"), Route::NotFound);
    assert_eq!(route_of("GET / HTTP/1.1 "), Route::NotFound);
}

#[test]
fn responses_follow_the_route() {
    assert_eq!(status_line(Route::Root), "HTTP/1.1 200 OK");
    assert_eq!(status_line(Route::Sleep), "HTTP/1.1 200 OK");
    assert_eq!(status_line(Route::NotFound), "HTTP/1.1 404 NOT FOUND");
    assert_eq!(file_name(Route::Root), "templates/hello.html");
    assert_eq!(file_name(Route::Sleep), "templates/hello.html");
    assert_eq!(file_name(Route::NotFound), "templates/404.html");
}

#[test]
fn str_eq_compares_contents() {
    assert!(str_eq("", ""));
    assert!(str_eq("abc", "abc"));
    assert!(!str_eq("abc", "abd"));
    assert!(!str_eq("abc", "abcd"));
    assert!(!str_eq("abc", ""));
}
