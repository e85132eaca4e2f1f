use route_table::dispatch::{dispatch, resolve_static, Decision, StaticMount};
use route_table::router::{new_api_router, new_router, new_static_router, new_wasm_router, Method};

fn fixed(d: Decision) -> (u16, String) {
    match d {
        Decision::Fixed(resp) => (resp.status, resp.body),
        Decision::Lookup(_) => panic!("expected a fixed response"),
    }
}

fn lookup(d: Decision) -> (StaticMount, String) {
    match d {
        Decision::Fixed(_) => panic!("expected a static lookup"),
        Decision::Lookup(l) => (l.mount, l.rel),
    }
}

#[test]
fn builders_fix_the_configuration() {
    let api = new_api_router();
    assert_eq!(api.routes.len(), 3);
    assert_eq!(api.routes[0].path, "/healthz");
    assert_eq!(api.routes[0].status, 200);
    assert_eq!(api.routes[0].body, "OK");
    assert_eq!(api.routes[1].path, "/hello");
    assert_eq!(api.routes[1].status, 200);
    assert_eq!(api.routes[1].body, "Hello, World!");
    assert_eq!(api.routes[2].path, "/bad");
    assert_eq!(api.routes[2].status, 404);
    assert_eq!(api.routes[2].body, "BOOM");
    assert_eq!(new_static_router().dir, "front/dist");
    assert_eq!(new_wasm_router().dir, "front/wasm");
    let r = new_router();
    assert_eq!(r.api_prefix, "/-");
    assert_eq!(r.wasm_prefix, "/wasm");
    assert_eq!(r.root.dir, "front/dist");
    assert_eq!(r.wasm.dir, "front/wasm");
}

#[test]
fn healthz_answers_200_ok() {
    let r = new_router();
    let (status, body) = fixed(dispatch(&r, Method::Get, "/-/healthz"));
    assert_eq!(status, 200);
    assert_eq!(body, "OK");
}

#[test]
fn hello_answers_200_greeting() {
    let r = new_router();
    let (status, body) = fixed(dispatch(&r, Method::Get, "/-/hello"));
    assert_eq!(status, 200);
    assert_eq!(body, "Hello, World!");
}

#[test]
fn bad_answers_404_boom() {
    let r = new_router();
    let (status, body) = fixed(dispatch(&r, Method::Get, "/-/bad"));
    assert_eq!(status, 404);
    assert_eq!(body, "BOOM");
}

#[test]
fn unknown_api_path_answers_empty_404() {
    let r = new_router();
    let (status, body) = fixed(dispatch(&r, Method::Get, "/-/nope"));
    assert_eq!(status, 404);
    assert_eq!(body, "");
}

#[test]
fn api_prefix_alone_answers_empty_404() {
    let r = new_router();
    let (status, body) = fixed(dispatch(&r, Method::Get, "/-"));
    assert_eq!(status, 404);
    assert_eq!(body, "");
}

#[test]
fn non_get_under_api_answers_empty_404() {
    let r = new_router();
    let (status, body) = fixed(dispatch(&r, Method::Post, "/-/healthz"));
    assert_eq!(status, 404);
    assert_eq!(body, "");
}

#[test]
fn wasm_path_is_looked_up_under_the_wasm_mount() {
    let r = new_router();
    let (mount, rel) = lookup(dispatch(&r, Method::Get, "/wasm/app.wasm"));
    assert_eq!(mount, StaticMount::Wasm);
    assert_eq!(rel, "/app.wasm");
}

#[test]
fn wasm_prefix_alone_maps_to_the_mount_root() {
    let r = new_router();
    let (mount, rel) = lookup(dispatch(&r, Method::Get, "/wasm"));
    assert_eq!(mount, StaticMount::Wasm);
    assert_eq!(rel, "/");
}

#[test]
fn other_paths_fall_through_to_the_root_mount() {
    let r = new_router();
    let (mount, rel) = lookup(dispatch(&r, Method::Get, "/index.html"));
    assert_eq!(mount, StaticMount::Root);
    assert_eq!(rel, "/index.html");
}

#[test]
fn near_miss_of_the_api_prefix_is_a_static_path() {
    let r = new_router();
    let (mount, rel) = lookup(dispatch(&r, Method::Get, "/-x"));
    assert_eq!(mount, StaticMount::Root);
    assert_eq!(rel, "/-x");
    let (mount, rel) = lookup(dispatch(&r, Method::Get, "/wasmx"));
    assert_eq!(mount, StaticMount::Root);
    assert_eq!(rel, "/wasmx");
}

#[test]
fn api_mount_shadows_the_static_mounts() {
    // Even if a file named "-/healthz" existed under the static directory,
    // the decision for the health path is a fixed response, never a lookup.
    let r = new_router();
    let d = dispatch(&r, Method::Get, "/-/healthz");
    assert!(matches!(d, Decision::Fixed(_)));
}

#[test]
fn existing_file_is_served_verbatim_with_200() {
    let bytes = vec![0u8, 159, 146, 150, 10];
    let resp = resolve_static(Some(bytes.clone()));
    assert_eq!(resp.status, 200);
    assert_eq!(resp.body, bytes);
}

#[test]
fn missing_file_is_a_404() {
    let resp = resolve_static(None);
    assert_eq!(resp.status, 404);
    assert_eq!(resp.body, Vec::<u8>::new());
}

#[test]
fn repeated_requests_decide_identically() {
    let r = new_router();
    for path in ["/-/healthz", "/-/hello", "/-/bad", "/wasm/a.wasm", "/style.css"] {
        let first = dispatch(&r, Method::Get, path);
        for _ in 0..4 {
            let again = dispatch(&r, Method::Get, path);
            match (&first, &again) {
                (Decision::Fixed(a), Decision::Fixed(b)) => {
                    assert_eq!(a.status, b.status);
                    assert_eq!(a.body, b.body);
                }
                (Decision::Lookup(a), Decision::Lookup(b)) => {
                    assert_eq!(a.mount, b.mount);
                    assert_eq!(a.rel, b.rel);
                }
                _ => panic!("decision changed shape between identical requests"),
            }
        }
    }
}

#[test]
fn scenario_the_four_requests() {
    let r = new_router();
    let (status, body) = fixed(dispatch(&r, Method::Get, "/-/healthz"));
    assert_eq!((status, body.as_str()), (200, "OK"));
    let (status, body) = fixed(dispatch(&r, Method::Get, "/-/hello"));
    assert_eq!((status, body.as_str()), (200, "Hello, World!"));
    let (status, body) = fixed(dispatch(&r, Method::Get, "/-/bad"));
    assert_eq!((status, body.as_str()), (404, "BOOM"));
    let (mount, rel) = lookup(dispatch(&r, Method::Get, "/nonexistent"));
    assert_eq!(mount, StaticMount::Root);
    assert_eq!(rel, "/nonexistent");
    let resp = resolve_static(None);
    assert_eq!(resp.status, 404);
}
