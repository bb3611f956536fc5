use min::{HttpRequest, HttpResponse, RouteTable, Router, Verb};

type Handler = fn(HttpRequest) -> HttpResponse;

#[test]
fn empty_router_resolves_nothing() {
    let t: RouteTable<u32> = Router::new().seal();
    assert_eq!(t.resolve(Verb::Get, "/"), None);
    assert_eq!(t.resolve(Verb::Post, "/echo"), None);
}

#[test]
fn registered_route_resolves_to_its_handler() {
    let t = Router::new().post("/x", 7u32).seal();
    assert_eq!(t.resolve(Verb::Post, "/x"), Some(&7));
}

#[test]
fn last_registration_wins() {
    let t = Router::new()
        .get("/a", 1u32)
        .post("/x", 2)
        .get("/a", 3)
        .post("/x", 4)
        .seal();
    assert_eq!(t.resolve(Verb::Post, "/x"), Some(&4));
    assert_eq!(t.resolve(Verb::Get, "/a"), Some(&3));
}

#[test]
fn unregistered_route_misses() {
    let t = Router::new().post("/x", 7u32).seal();
    assert_eq!(t.resolve(Verb::Post, "/y"), None);
    assert_eq!(t.resolve(Verb::Post, "/x/"), None);
    assert_eq!(t.resolve(Verb::Post, "/X"), None);
}

#[test]
fn verb_and_path_both_required() {
    let t = Router::new().post("/x", 7u32).seal();
    assert_eq!(t.resolve(Verb::Get, "/x"), None);
    assert_eq!(t.resolve(Verb::Post, "/x"), Some(&7));
}

#[test]
fn all_eight_verbs_register_distinctly() {
    let t = Router::new()
        .get("/r", 0u32)
        .put("/r", 1)
        .post("/r", 2)
        .delete("/r", 3)
        .patch("/r", 4)
        .options("/r", 5)
        .head("/r", 6)
        .trace("/r", 7)
        .seal();
    assert_eq!(t.resolve(Verb::Get, "/r"), Some(&0));
    assert_eq!(t.resolve(Verb::Put, "/r"), Some(&1));
    assert_eq!(t.resolve(Verb::Post, "/r"), Some(&2));
    assert_eq!(t.resolve(Verb::Delete, "/r"), Some(&3));
    assert_eq!(t.resolve(Verb::Patch, "/r"), Some(&4));
    assert_eq!(t.resolve(Verb::Options, "/r"), Some(&5));
    assert_eq!(t.resolve(Verb::Head, "/r"), Some(&6));
    assert_eq!(t.resolve(Verb::Trace, "/r"), Some(&7));
}

#[test]
fn register_matches_verb_sugar() {
    let a = Router::new().register(Verb::Get, "/p", 9u32).seal();
    let b = Router::new().get("/p", 9u32).seal();
    assert_eq!(a.resolve(Verb::Get, "/p"), Some(&9));
    assert_eq!(b.resolve(Verb::Get, "/p"), Some(&9));
}

#[test]
fn sealed_table_is_shared_and_read_only() {
    let t = std::sync::Arc::new(Router::new().get("/a", 1u32).post("/b", 2).seal());
    let other = t.clone();
    for _ in 0..16 {
        assert_eq!(t.resolve(Verb::Get, "/a"), Some(&1));
        assert_eq!(other.resolve(Verb::Post, "/b"), Some(&2));
        assert_eq!(other.resolve(Verb::Get, "/missing"), None);
    }
    assert_eq!(t.resolve(Verb::Get, "/a"), Some(&1));
}

#[test]
fn shared_handle_resolves_like_the_table() {
    let shared = Router::new().get("/a", 5u32).seal().into_shared();
    let other = shared.clone();
    assert_eq!(shared.resolve(Verb::Get, "/a"), Some(&5));
    assert_eq!(other.resolve(Verb::Get, "/a"), Some(&5));
    assert_eq!(other.resolve(Verb::Put, "/a"), None);
}

#[test]
fn empty_path_and_long_path_are_exact_keys() {
    let t = Router::new().get("", 1u32).get("/a/b/c/d", 2).seal();
    assert_eq!(t.resolve(Verb::Get, ""), Some(&1));
    assert_eq!(t.resolve(Verb::Get, "/a/b/c/d"), Some(&2));
    assert_eq!(t.resolve(Verb::Get, "/a/b/c"), None);
}

#[test]
fn handlers_can_be_functions() {
    let t = Router::new().post("/echo", min::echo as Handler).seal();
    let h = *t.resolve(Verb::Post, "/echo").unwrap();
    let resp = h(HttpRequest {
        verb: Verb::Post,
        path: String::from("/echo"),
        body: vec![1, 2, 3],
    });
    assert_eq!(resp.status, 200);
    assert_eq!(resp.body, vec![1, 2, 3]);
}
