use sparsha::router::{
    hash_to_path, is_static_path, normalize_path, path_to_hash, Router, RouterHost, RouterState,
};

fn screen(name: &'static str) -> &'static str {
    name
}

#[test]
fn hash_path_roundtrip_helpers() {
    assert_eq!(hash_to_path("#/settings"), "/settings");
    assert_eq!(hash_to_path(""), "/");
    assert_eq!(path_to_hash("/"), "#/");
    assert_eq!(path_to_hash("settings"), "#/settings");
}

#[test]
fn unknown_route_resolves_to_fallback() {
    let mut router = Router::new()
        .route("/", screen("home"))
        .route("/settings", screen("settings"))
        .fallback("/");

    router.go("/missing");
    assert_eq!(router.current_path(), "/");
}

#[test]
fn navigation_stack_operations_work() {
    let mut router = Router::new()
        .route("/", screen("home"))
        .route("/a", screen("a"))
        .route("/b", screen("b"))
        .fallback("/");

    router.go("/a");
    router.push("/b");
    assert_eq!(router.current_path(), "/b");
    assert!(router.back());
    assert_eq!(router.current_path(), "/a");
    assert!(router.forward());
    assert_eq!(router.current_path(), "/b");

    router.replace("/a");
    assert_eq!(router.current_path(), "/a");
}

#[test]
fn dynamic_patterns_are_ignored() {
    let mut router = Router::new()
        .route("/", screen("home"))
        .route("/todos/:id", screen("todo"))
        .fallback("/");

    router.go("/todos/1");
    assert_eq!(router.current_path(), "/");
    assert_eq!(router.route_for_path("/todos/:id"), Some(&"home"));
}

#[test]
fn normalize_path_trims_and_roots_paths() {
    assert_eq!(normalize_path("  settings/ "), "/settings");
    assert_eq!(normalize_path("/a/b///"), "/a/b");
    assert_eq!(normalize_path(""), "/");
}

#[test]
fn static_paths_have_no_parameters_or_wildcards() {
    assert!(is_static_path("/a/b"));
    assert!(!is_static_path("/todos/:id"));
    assert!(!is_static_path("/files/*"));
}

#[test]
fn hash_roundtrip_returns_normalized_path() {
    for path in ["/", "/settings", "/a/b"] {
        assert_eq!(hash_to_path(&path_to_hash(path)), path);
    }
}

#[test]
fn router_state_push_clears_forward_history() {
    let mut state = RouterState::new("/".to_owned());
    state.push("/a".to_owned());
    state.push("/b".to_owned());
    assert!(state.back());
    state.push("/c".to_owned());
    assert_eq!(state.current(), "/c");
    assert!(!state.forward());
    assert!(state.back());
    assert_eq!(state.current(), "/a");
    assert!(state.back());
    assert!(!state.back());
    assert_eq!(state.current(), "/");
}

#[test]
fn router_without_fallback_uses_first_route() {
    let mut router = Router::new().route("/home", screen("home")).route("/b", screen("b"));
    router.go("/nowhere");
    assert_eq!(router.current_path(), "/home");
    assert_eq!(router.route_for_current_path(), Some(&"home"));
}

#[test]
fn router_initialize_resolves_start_path() {
    let mut router = Router::new().route("/", screen("home")).route("/about", screen("about")).fallback("/");
    router.initialize(Some("/about"));
    assert_eq!(router.current_path(), "/about");
    assert!(!router.back());
}

#[test]
fn router_host_rebuilds_only_when_the_route_changes() {
    let router = Router::new().route("/", screen("home")).route("/about", screen("about")).fallback("/");
    let mut host = RouterHost::new(router);
    assert_eq!(host.active_path(), "/");
    assert!(host.sync(false));
    assert!(!host.sync(true));
    host.router_mut().go("/about");
    assert!(host.sync(true));
    assert_eq!(host.active_path(), "/about");
    assert_eq!(host.router().current_path(), "/about");
    assert_eq!(host.router().route_for_current_path(), Some(&"about"));
    host.router_mut().go("/missing");
    assert!(host.sync(true));
    assert_eq!(host.active_path(), "/");
}
