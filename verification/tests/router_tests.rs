use router::{
    Pattern, PatternCompileError, Request, Response, RouteTable, Router, StatusHandler, NOT_FOUND,
};

fn dispatch_status(r: &Router<StatusHandler>, path: &str) -> u16 {
    let req = Request::new(path.to_string());
    let mut res = Response::new();
    r.dispatch(&req, &mut res);
    res.status()
}

#[test]
fn order_sensitivity() {
    // Both patterns match "/x"; whichever is registered first fires.
    let first_then_second = Router::<StatusHandler>::new();
    first_then_second.add("^/x$", StatusHandler::new(211)).unwrap();
    first_then_second.add("^/x.*$", StatusHandler::new(212)).unwrap();
    assert_eq!(dispatch_status(&first_then_second, "/x"), 211);

    let second_then_first = Router::<StatusHandler>::new();
    second_then_first.add("^/x.*$", StatusHandler::new(212)).unwrap();
    second_then_first.add("^/x$", StatusHandler::new(211)).unwrap();
    assert_eq!(dispatch_status(&second_then_first, "/x"), 212);
}

#[test]
fn first_match_wins() {
    let r = Router::<StatusHandler>::new();
    r.add("^/a$", StatusHandler::new(201)).unwrap();
    r.add("^/a.*$", StatusHandler::new(202)).unwrap();
    assert_eq!(dispatch_status(&r, "/a"), 201);
}

#[test]
fn later_entry_fires_when_earlier_does_not_match() {
    let r = Router::<StatusHandler>::new();
    r.add("^/z$", StatusHandler::new(201)).unwrap();
    r.add("^/m$", StatusHandler::new(202)).unwrap();
    r.add("^/m.*$", StatusHandler::new(203)).unwrap();
    assert_eq!(dispatch_status(&r, "/m"), 202);
}

#[test]
fn no_match_sets_404() {
    let r = Router::<StatusHandler>::new();
    r.add("^/a$", StatusHandler::new(201)).unwrap();
    assert_eq!(dispatch_status(&r, "/b"), NOT_FOUND);
}

#[test]
fn empty_table_always_404() {
    let r = Router::<StatusHandler>::new();
    assert_eq!(dispatch_status(&r, "/"), 404);
    assert_eq!(dispatch_status(&r, "/a"), 404);
    assert_eq!(dispatch_status(&r, ""), 404);
}

#[test]
fn invalid_add_is_atomic_on_table() {
    let mut t = RouteTable::<StatusHandler>::new();
    assert_eq!(t.len(), 0);
    let bad = t.add_route("(", StatusHandler::new(201));
    assert!(matches!(bad, Err(PatternCompileError)));
    assert_eq!(t.len(), 0);
    let good = t.add_route("^/ok$", StatusHandler::new(201));
    assert!(good.is_ok());
    assert_eq!(t.len(), 1);
}

#[test]
fn invalid_add_reports_error_on_router() {
    let r = Router::<StatusHandler>::new();
    assert_eq!(r.add("(", StatusHandler::new(201)), Err(PatternCompileError));
    // Nothing was registered by the failed add.
    assert_eq!(dispatch_status(&r, "/"), 404);
    assert_eq!(r.add("^/$", StatusHandler::new(201)), Ok(()));
    assert_eq!(dispatch_status(&r, "/"), 201);
}

#[test]
fn add_completed_before_dispatch_is_visible() {
    let r = Router::<StatusHandler>::new();
    r.add("^/c$", StatusHandler::new(203)).unwrap();
    assert_eq!(dispatch_status(&r, "/c"), 203);
}

#[test]
fn clone_shares_the_table() {
    let original = Router::<StatusHandler>::new();
    let cloned = original.clone();
    cloned.add("^/p$", StatusHandler::new(205)).unwrap();
    assert_eq!(dispatch_status(&original, "/p"), 205);
    original.add("^/q$", StatusHandler::new(206)).unwrap();
    assert_eq!(dispatch_status(&cloned, "/q"), 206);
}

#[test]
fn separate_routers_do_not_interfere() {
    let a = Router::<StatusHandler>::new();
    let b = Router::<StatusHandler>::new();
    a.add("^/only-a$", StatusHandler::new(201)).unwrap();
    assert_eq!(dispatch_status(&a, "/only-a"), 201);
    assert_eq!(dispatch_status(&b, "/only-a"), 404);
}

#[test]
fn pattern_compile_accepts_and_rejects() {
    assert!(Pattern::compile("^/a$").is_ok());
    assert!(Pattern::compile("(").is_err());
    assert!(Pattern::compile("foo(bar").is_err());
}

#[test]
fn pattern_matching_is_a_real_test() {
    let anchored = Pattern::compile("^/ab$").unwrap();
    assert_eq!(anchored.source(), "^/ab$");
    assert!(anchored.matches("/ab"));
    assert!(!anchored.matches("/abc"));
    assert!(!anchored.matches("/b"));
    // An unanchored pattern matches anywhere in the path.
    let unanchored = Pattern::compile("b").unwrap();
    assert!(unanchored.matches("/abc"));
    assert!(!unanchored.matches("/a"));
}

#[test]
fn find_first_match_returns_first_index() {
    let mut t = RouteTable::<StatusHandler>::new();
    t.add_route("^/a$", StatusHandler::new(201)).unwrap();
    t.add_route("^/b$", StatusHandler::new(202)).unwrap();
    t.add_route("^/b.*$", StatusHandler::new(203)).unwrap();
    assert_eq!(t.find_first_match("/a"), Some(0));
    assert_eq!(t.find_first_match("/b"), Some(1));
    assert_eq!(t.find_first_match("/bc"), Some(2));
    assert_eq!(t.find_first_match("/c"), None);
}

#[test]
fn dispatch_on_table_without_router() {
    let mut t = RouteTable::<StatusHandler>::new();
    t.add_route("^/a$", StatusHandler::new(250)).unwrap();
    let req = Request::new("/a".to_string());
    let mut res = Response::new();
    t.dispatch_on(&req, &mut res);
    assert_eq!(res.status(), 250);
}

#[test]
fn handler_overrides_previous_status() {
    let req = Request::new("/any".to_string());
    let mut res = Response::new();
    assert_eq!(res.status(), 200);
    res.set_status(500);
    let mut t = RouteTable::<StatusHandler>::new();
    t.add_route("^/any$", StatusHandler::new(204)).unwrap();
    t.dispatch_on(&req, &mut res);
    assert_eq!(res.status(), 204);
}

#[test]
fn request_exposes_its_path() {
    let req = Request::new("/some/path".to_string());
    assert_eq!(req.path(), "/some/path");
}
