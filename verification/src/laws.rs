//! The laws of the routing tree, stated and proved once and for all: the
//! fixed API routes answer as configured, the API mount shadows the static
//! mounts, unmatched paths fall through to the root mount, and dispatching
//! has no hidden state.

use vstd::prelude::*;

use crate::dispatch::{SpecDecision, SpecStaticLookup, StaticMount, spec_dispatch, spec_find_route,
    spec_strip_mount};
use crate::router::{Method, SpecResponse, SpecRouter, spec_api_routes, spec_router};

verus! {

/// The configuration invariant of a routing tree: both nest prefixes are
/// non-empty and rooted, and neither mounts a subtree of the other, so the
/// priority order never has to break a tie between them.
pub open spec fn wf_router(r: SpecRouter) -> bool {
    &&& r.api_prefix.len() > 0
    &&& r.api_prefix[0] == '/'
    &&& r.wasm_prefix.len() > 0
    &&& r.wasm_prefix[0] == '/'
    &&& spec_strip_mount(r.api_prefix, r.wasm_prefix) is None
    &&& spec_strip_mount(r.wasm_prefix, r.api_prefix) is None
}

/// Law: the fixed configuration satisfies the mount invariant.
pub proof fn lemma_router_wf()
    ensures
        wf_router(spec_router()),
{
    reveal_strlit("/-");
    reveal_strlit("/wasm");
    assert(("/wasm"@).subrange(0, 2)[1] == 'w');
    assert(("/wasm"@).subrange(0, 2) != "/-"@);
}

/// Law: a GET request for the health path is answered with status 200 and
/// body `OK`.
pub proof fn lemma_healthz(r: SpecRouter, m: Method, path: Seq<char>)
    requires
        r == spec_router(),
        m == Method::Get,
        path == "/-/healthz"@,
    ensures
        spec_dispatch(r, m, path) == (SpecDecision::Fixed(
            SpecResponse { status: 200, body: "OK"@ },
        )),
{
    reveal_strlit("/-/healthz");
    reveal_strlit("/-");
    reveal_strlit("/healthz");
    assert(path.subrange(0, 2) =~= "/-"@);
    assert(path.skip(2) =~= "/healthz"@);
    assert(spec_strip_mount("/-"@, path) == Some("/healthz"@));
    assert(spec_find_route(spec_api_routes(), Method::Get, "/healthz"@) == Some(
        spec_api_routes()[0],
    ));
}

/// Law: a GET request for the greeting path is answered with status 200 and
/// body `Hello, World!`.
pub proof fn lemma_hello(r: SpecRouter, m: Method, path: Seq<char>)
    requires
        r == spec_router(),
        m == Method::Get,
        path == "/-/hello"@,
    ensures
        spec_dispatch(r, m, path) == (SpecDecision::Fixed(
            SpecResponse { status: 200, body: "Hello, World!"@ },
        )),
{
    reveal_strlit("/-/hello");
    reveal_strlit("/-");
    reveal_strlit("/healthz");
    reveal_strlit("/hello");
    assert(path.subrange(0, 2) =~= "/-"@);
    assert(path.skip(2) =~= "/hello"@);
    assert(spec_strip_mount("/-"@, path) == Some("/hello"@));
    reveal_with_fuel(spec_find_route, 3);
    assert(spec_api_routes().skip(1)[0] == spec_api_routes()[1]);
    assert(spec_find_route(spec_api_routes(), Method::Get, "/hello"@) == Some(
        spec_api_routes()[1],
    ));
}

/// Law: a GET request for the deliberately failing path is answered with
/// status 404 and body `BOOM`.
pub proof fn lemma_bad(r: SpecRouter, m: Method, path: Seq<char>)
    requires
        r == spec_router(),
        m == Method::Get,
        path == "/-/bad"@,
    ensures
        spec_dispatch(r, m, path) == (SpecDecision::Fixed(
            SpecResponse { status: 404, body: "BOOM"@ },
        )),
{
    reveal_strlit("/-/bad");
    reveal_strlit("/-");
    reveal_strlit("/healthz");
    reveal_strlit("/hello");
    reveal_strlit("/bad");
    assert(path.subrange(0, 2) =~= "/-"@);
    assert(path.skip(2) =~= "/bad"@);
    assert(spec_strip_mount("/-"@, path) == Some("/bad"@));
    reveal_with_fuel(spec_find_route, 4);
    assert(spec_api_routes().skip(1)[0] == spec_api_routes()[1]);
    assert(spec_api_routes().skip(1).skip(1)[0] == spec_api_routes()[2]);
    assert(spec_find_route(spec_api_routes(), Method::Get, "/bad"@) == Some(spec_api_routes()[2]));
}

/// Law: a path under the API prefix is always answered by the API mount with
/// a fixed response; it is never resolved against a static mount, whatever
/// files exist on disk.
pub proof fn lemma_api_mount_priority(r: SpecRouter, m: Method, path: Seq<char>)
    requires
        spec_strip_mount(r.api_prefix, path) is Some,
    ensures
        spec_dispatch(r, m, path) is Fixed,
{
}

/// Law: in the fixed configuration the health path lies under the API
/// prefix, so no request for it, with any method, reaches a static mount.
pub proof fn lemma_healthz_never_static(r: SpecRouter, m: Method, path: Seq<char>)
    requires
        r == spec_router(),
        path == "/-/healthz"@,
    ensures
        spec_dispatch(r, m, path) is Fixed,
{
    reveal_strlit("/-/healthz");
    reveal_strlit("/-");
    assert(path.subrange(0, 2) =~= "/-"@);
    assert(spec_strip_mount("/-"@, path) is Some);
    lemma_api_mount_priority(r, m, path);
}

/// Both prefixes match the same path: then the shorter prefix mounts a
/// subtree of the longer one.
proof fn lemma_strip_ordered(p: Seq<char>, q: Seq<char>, path: Seq<char>)
    requires
        p.len() <= q.len(),
        spec_strip_mount(p, path) is Some,
        spec_strip_mount(q, path) is Some,
    ensures
        spec_strip_mount(p, q) is Some,
{
    if path == p {
        assert(path == q);
    } else {
        if path == q {
            assert(q.subrange(0, p.len() as int) =~= p);
        } else {
            if p.len() == q.len() {
                assert(p =~= q);
            } else {
                assert(q.subrange(0, p.len() as int) =~= p);
                assert(q[p.len() as int] == path[p.len() as int]);
            }
        }
    }
}

/// Law: under the mount invariant no path lies under both nest prefixes, so
/// the priority order between the API mount and the WebAssembly mount never
/// has to break a tie.
pub proof fn lemma_mounts_disjoint(r: SpecRouter, path: Seq<char>)
    requires
        wf_router(r),
    ensures
        !(spec_strip_mount(r.api_prefix, path) is Some && spec_strip_mount(
            r.wasm_prefix,
            path,
        ) is Some),
{
    if spec_strip_mount(r.api_prefix, path) is Some && spec_strip_mount(
        r.wasm_prefix,
        path,
    ) is Some {
        if r.api_prefix.len() <= r.wasm_prefix.len() {
            lemma_strip_ordered(r.api_prefix, r.wasm_prefix, path);
        } else {
            lemma_strip_ordered(r.wasm_prefix, r.api_prefix, path);
        }
    }
}

/// Law: a path under the WebAssembly prefix but not under the API prefix is
/// resolved against the WebAssembly mount, with the stripped remainder as
/// the file path relative to the mount's directory.
pub proof fn lemma_wasm_mount(r: SpecRouter, m: Method, path: Seq<char>, rem: Seq<char>)
    requires
        spec_strip_mount(r.api_prefix, path) is None,
        spec_strip_mount(r.wasm_prefix, path) == Some(rem),
    ensures
        spec_dispatch(r, m, path) == (SpecDecision::Lookup(
            SpecStaticLookup { mount: StaticMount::Wasm, rel: rem },
        )),
{
}

/// Law: a path under neither the API prefix nor the WebAssembly prefix is
/// resolved against the catch-all root mount, with the whole path as the
/// file path relative to the mount's directory.
pub proof fn lemma_root_fallback(r: SpecRouter, m: Method, path: Seq<char>)
    requires
        spec_strip_mount(r.api_prefix, path) is None,
        spec_strip_mount(r.wasm_prefix, path) is None,
    ensures
        spec_dispatch(r, m, path) == (SpecDecision::Lookup(
            SpecStaticLookup { mount: StaticMount::Root, rel: path },
        )),
{
}

/// Law: dispatching is a pure function of the routing tree, the method and
/// the path. Two dispatches of the same request against the same tree decide
/// the same thing; repeating a request cannot change its response.
pub proof fn lemma_dispatch_idempotent(
    r: SpecRouter,
    m: Method,
    path: Seq<char>,
    d1: SpecDecision,
    d2: SpecDecision,
)
    requires
        d1 == spec_dispatch(r, m, path),
        d2 == spec_dispatch(r, m, path),
    ensures
        d1 == d2,
{
}

} // verus!
