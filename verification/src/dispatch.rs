//! Matching a request against the routing tree.
//!
//! Dispatching is pure logic: from a method and a path, decide either a fixed
//! response (the API mount) or a static-file lookup (one of the two asset
//! mounts). Reading the file itself is I/O and happens outside the library;
//! `resolve_static` turns the outcome of that read back into a response.

use vstd::prelude::*;

use crate::router::{ApiRoute, ApiRouter, Method, Response, Router, SpecApiRoute, SpecResponse,
    SpecRouter};

verus! {

/// Which static-asset mount a lookup is directed at.
#[derive(Clone, Copy, PartialEq, Eq, Structural, Debug)]
pub enum StaticMount {
    Wasm,
    Root,
}

/// A static-file lookup: resolve the path `rel` against the directory of
/// `mount`.
pub struct StaticLookup {
    pub mount: StaticMount,
    pub rel: String,
}

/// The mathematical value of a `StaticLookup`.
pub ghost struct SpecStaticLookup {
    pub mount: StaticMount,
    pub rel: Seq<char>,
}

impl View for StaticLookup {
    type V = SpecStaticLookup;

    open spec fn view(&self) -> SpecStaticLookup {
        SpecStaticLookup { mount: self.mount, rel: self.rel@ }
    }
}

/// What the routing tree decides for one request: answer with a fixed
/// response, or look a file up under one of the static mounts.
pub enum Decision {
    Fixed(Response),
    Lookup(StaticLookup),
}

/// The mathematical value of a `Decision`.
pub ghost enum SpecDecision {
    Fixed(SpecResponse),
    Lookup(SpecStaticLookup),
}

impl View for Decision {
    type V = SpecDecision;

    open spec fn view(&self) -> SpecDecision {
        match self {
            Decision::Fixed(resp) => SpecDecision::Fixed(resp@),
            Decision::Lookup(l) => SpecDecision::Lookup(l@),
        }
    }
}

/// What nesting a mount at `prefix` delegates of `path`: the whole path with
/// the prefix stripped when `path` lies strictly under the prefix at a
/// segment boundary, the root path `/` when `path` equals the prefix, and
/// nothing otherwise.
pub open spec fn spec_strip_mount(prefix: Seq<char>, path: Seq<char>) -> Option<Seq<char>> {
    if path == prefix {
        Some(seq!['/'])
    } else if path.len() > prefix.len() && path.subrange(0, prefix.len() as int) == prefix
        && path[prefix.len() as int] == '/' {
        Some(path.skip(prefix.len() as int))
    } else {
        None
    }
}

/// The first route of the table whose method and path both match, if any.
pub open spec fn spec_find_route(routes: Seq<SpecApiRoute>, m: Method, path: Seq<char>) -> Option<
    SpecApiRoute,
>
    decreases routes.len(),
{
    if routes.len() == 0 {
        None
    } else if routes[0].method == m && routes[0].path == path {
        Some(routes[0])
    } else {
        spec_find_route(routes.skip(1), m, path)
    }
}

/// What the routing tree decides for a request: mounts are tried in priority
/// order. A path under the API prefix gets the matching route's fixed
/// response, or an empty 404 when no route matches; a path under the
/// WebAssembly prefix becomes a lookup against that mount; every other path
/// becomes a lookup against the catch-all root mount.
pub open spec fn spec_dispatch(r: SpecRouter, m: Method, path: Seq<char>) -> SpecDecision {
    match spec_strip_mount(r.api_prefix, path) {
        Some(rem) => match spec_find_route(r.api, m, rem) {
            Some(rt) => SpecDecision::Fixed(SpecResponse { status: rt.status, body: rt.body }),
            None => SpecDecision::Fixed(SpecResponse { status: 404, body: Seq::empty() }),
        },
        None => match spec_strip_mount(r.wasm_prefix, path) {
            Some(rem) => SpecDecision::Lookup(SpecStaticLookup { mount: StaticMount::Wasm, rel: rem }),
            None => SpecDecision::Lookup(SpecStaticLookup { mount: StaticMount::Root, rel: path }),
        },
    }
}

/// Character-for-character string equality.
fn chars_eq(a: &str, b: &str) -> (r: bool)
    ensures
        r == (a@ == b@),
{
    let alen = a.unicode_len();
    let blen = b.unicode_len();
    if alen != blen {
        return false;
    }
    let mut i: usize = 0;
    while i < alen
        invariant
            alen == a@.len(),
            blen == b@.len(),
            alen == blen,
            i <= alen,
            forall|j: int| 0 <= j < i ==> a@[j] == b@[j],
        decreases alen - i,
    {
        if a.get_char(i) != b.get_char(i) {
            return false;
        }
        i += 1;
    }
    proof {
        assert(a@ =~= b@);
    }
    true
}

/// Strips a mount prefix from a path, as `spec_strip_mount` describes.
fn strip_mount(prefix: &str, path: &str) -> (r: Option<String>)
    ensures
        r.deep_view() == spec_strip_mount(prefix@, path@),
{
    let plen = prefix.unicode_len();
    let len = path.unicode_len();
    if len < plen {
        return None;
    }
    let mut i: usize = 0;
    while i < plen
        invariant
            plen == prefix@.len(),
            len == path@.len(),
            len >= plen,
            i <= plen,
            forall|j: int| 0 <= j < i ==> path@[j] == prefix@[j],
        decreases plen - i,
    {
        if path.get_char(i) != prefix.get_char(i) {
            proof {
                assert(path@ != prefix@);
                if path@.len() > prefix@.len() && path@.subrange(0, prefix@.len() as int)
                    == prefix@ {
                    assert(path@.subrange(0, prefix@.len() as int)[i as int] == path@[i as int]);
                }
            }
            return None;
        }
        i += 1;
    }
    proof {
        if len > plen {
            assert(path@.subrange(0, plen as int) =~= prefix@);
        }
    }
    if len == plen {
        proof {
            assert(path@ =~= prefix@);
            reveal_strlit("/");
            assert("/"@ =~= seq!['/']);
        }
        Some("/".to_owned())
    } else {
        let c = path.get_char(plen);
        if c == '/' {
            let rem = path.substring_char(plen, len);
            proof {
                assert(rem@ =~= path@.skip(plen as int));
            }
            Some(rem.to_owned())
        } else {
            None
        }
    }
}

impl ApiRouter {
    /// Looks a path up in the table: the first route whose method and path
    /// both match wins.
    pub fn find(&self, m: Method, path: &str) -> (r: Option<&ApiRoute>)
        ensures
            match r {
                Some(rt) => spec_find_route(self@, m, path@) == Some(rt@),
                None => spec_find_route(self@, m, path@) is None,
            },
    {
        let n = self.routes.len();
        let mut i: usize = 0;
        proof {
            assert(self@.skip(0) =~= self@);
        }
        while i < n
            invariant
                n == self.routes.len(),
                i <= n,
                spec_find_route(self@, m, path@) == spec_find_route(
                    self@.skip(i as int),
                    m,
                    path@,
                ),
            decreases n - i,
        {
            let rt = &self.routes[i];
            let method_hits = rt.method == m;
            let path_hits = chars_eq(rt.path.as_str(), path);
            proof {
                assert(self@.skip(i as int)[0] == self@[i as int]);
                assert(self@[i as int] == self.routes@[i as int]@);
            }
            if method_hits && path_hits {
                return Some(rt);
            }
            proof {
                assert(self@.skip(i as int).skip(1) =~= self@.skip(i as int + 1));
            }
            i += 1;
        }
        proof {
            assert(self@.skip(n as int) =~= Seq::<SpecApiRoute>::empty());
        }
        None
    }
}

/// Matches one request against the routing tree and returns its decision.
pub fn dispatch(router: &Router, m: Method, path: &str) -> (d: Decision)
    ensures
        d@ == spec_dispatch(router@, m, path@),
{
    match strip_mount(router.api_prefix.as_str(), path) {
        Some(rem) => match router.api.find(m, rem.as_str()) {
            Some(rt) => Decision::Fixed(Response { status: rt.status, body: rt.body.clone() }),
            None => Decision::Fixed(Response { status: 404, body: String::new() }),
        },
        None => match strip_mount(router.wasm_prefix.as_str(), path) {
            Some(rem) => Decision::Lookup(StaticLookup { mount: StaticMount::Wasm, rel: rem }),
            None => Decision::Lookup(
                StaticLookup { mount: StaticMount::Root, rel: path.to_owned() },
            ),
        },
    }
}

/// A response whose body is raw file bytes.
pub struct FileResponse {
    pub status: u16,
    pub body: Vec<u8>,
}

/// Turns the outcome of a static-file read into a response: the exact bytes
/// of the file with status 200 when it exists, an empty 404 when it does not.
pub fn resolve_static(file: Option<Vec<u8>>) -> (r: FileResponse)
    ensures
        match file {
            Some(bytes) => r.status == 200 && r.body@ == bytes@,
            None => r.status == 404 && r.body@ == Seq::<u8>::empty(),
        },
{
    match file {
        Some(bytes) => FileResponse { status: 200, body: bytes },
        None => {
            let body: Vec<u8> = Vec::new();
            proof {
                assert(body@ =~= Seq::<u8>::empty());
            }
            FileResponse { status: 404, body }
        },
    }
}

} // verus!
