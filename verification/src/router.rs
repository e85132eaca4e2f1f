//! The routing tree: data types, their mathematical views, and the builders
//! that construct the fixed configuration.

use vstd::prelude::*;

verus! {

/// An HTTP request method. Only `Get` is routed by the fixed API table; the
/// variants exist so that a dispatcher can state what happens to the others.
#[derive(Clone, Copy, PartialEq, Eq, Structural, Debug)]
pub enum Method {
    Get,
    Head,
    Post,
    Put,
    Delete,
    Patch,
    Other,
}

/// A fixed HTTP response: a status code and a text body.
pub struct Response {
    pub status: u16,
    pub body: String,
}

/// The mathematical value of a `Response`.
pub ghost struct SpecResponse {
    pub status: u16,
    pub body: Seq<char>,
}

impl View for Response {
    type V = SpecResponse;

    open spec fn view(&self) -> SpecResponse {
        SpecResponse { status: self.status, body: self.body@ }
    }
}

/// One route of the API table: a method, an exact path, and the fixed
/// response served when both match.
pub struct ApiRoute {
    pub method: Method,
    pub path: String,
    pub status: u16,
    pub body: String,
}

/// The mathematical value of an `ApiRoute`.
pub ghost struct SpecApiRoute {
    pub method: Method,
    pub path: Seq<char>,
    pub status: u16,
    pub body: Seq<char>,
}

impl View for ApiRoute {
    type V = SpecApiRoute;

    open spec fn view(&self) -> SpecApiRoute {
        SpecApiRoute {
            method: self.method,
            path: self.path@,
            status: self.status,
            body: self.body@,
        }
    }
}

/// An ordered table of exact-path routes; on a lookup the first match wins.
pub struct ApiRouter {
    pub routes: Vec<ApiRoute>,
}

impl View for ApiRouter {
    type V = Seq<SpecApiRoute>;

    open spec fn view(&self) -> Seq<SpecApiRoute> {
        self.routes@.map_values(|r: ApiRoute| r@)
    }
}

/// A static-asset mount: requests that reach it resolve against files under
/// `dir` on disk. The file access itself happens outside the library.
pub struct StaticRouter {
    pub dir: String,
}

impl View for StaticRouter {
    type V = Seq<char>;

    open spec fn view(&self) -> Seq<char> {
        self.dir@
    }
}

/// The whole routing tree: the API table nested under `api_prefix`, the
/// WebAssembly asset mount nested under `wasm_prefix`, and the catch-all
/// static mount at the root. Mounts are tried in that order; the first
/// matching mount wins.
pub struct Router {
    pub api_prefix: String,
    pub api: ApiRouter,
    pub wasm_prefix: String,
    pub wasm: StaticRouter,
    pub root: StaticRouter,
}

/// The mathematical value of a `Router`.
pub ghost struct SpecRouter {
    pub api_prefix: Seq<char>,
    pub api: Seq<SpecApiRoute>,
    pub wasm_prefix: Seq<char>,
    pub wasm_dir: Seq<char>,
    pub root_dir: Seq<char>,
}

impl View for Router {
    type V = SpecRouter;

    open spec fn view(&self) -> SpecRouter {
        SpecRouter {
            api_prefix: self.api_prefix@,
            api: self.api@,
            wasm_prefix: self.wasm_prefix@,
            wasm_dir: self.wasm@,
            root_dir: self.root@,
        }
    }
}

/// The three fixed API routes, in registration order.
pub open spec fn spec_api_routes() -> Seq<SpecApiRoute> {
    seq![
        SpecApiRoute { method: Method::Get, path: "/healthz"@, status: 200, body: "OK"@ },
        SpecApiRoute { method: Method::Get, path: "/hello"@, status: 200, body: "Hello, World!"@ },
        SpecApiRoute { method: Method::Get, path: "/bad"@, status: 404, body: "BOOM"@ },
    ]
}

/// Builds the API table: health check, greeting, and a deliberately failing
/// route that exercises the error path.
pub fn new_api_router() -> (r: ApiRouter)
    ensures
        r@ == spec_api_routes(),
{
    let mut routes: Vec<ApiRoute> = Vec::new();
    routes.push(ApiRoute {
        method: Method::Get,
        path: "/healthz".to_owned(),
        status: 200,
        body: "OK".to_owned(),
    });
    routes.push(ApiRoute {
        method: Method::Get,
        path: "/hello".to_owned(),
        status: 200,
        body: "Hello, World!".to_owned(),
    });
    routes.push(ApiRoute {
        method: Method::Get,
        path: "/bad".to_owned(),
        status: 404,
        body: "BOOM".to_owned(),
    });
    let r = ApiRouter { routes };
    proof {
        assert(r@ =~= spec_api_routes());
    }
    r
}

/// Builds the catch-all static mount, rooted at the front end's build output.
pub fn new_static_router() -> (r: StaticRouter)
    ensures
        r@ == "front/dist"@,
{
    StaticRouter { dir: "front/dist".to_owned() }
}

/// Builds the WebAssembly asset mount.
pub fn new_wasm_router() -> (r: StaticRouter)
    ensures
        r@ == "front/wasm"@,
{
    StaticRouter { dir: "front/wasm".to_owned() }
}

/// The fixed configuration of the whole routing tree.
pub open spec fn spec_router() -> SpecRouter {
    SpecRouter {
        api_prefix: "/-"@,
        api: spec_api_routes(),
        wasm_prefix: "/wasm"@,
        wasm_dir: "front/wasm"@,
        root_dir: "front/dist"@,
    }
}

/// Composes the routing tree: the API table under `/-`, the WebAssembly
/// mount under `/wasm`, and the catch-all static mount at the root, in that
/// priority order.
pub fn new_router() -> (r: Router)
    ensures
        r@ == spec_router(),
{
    Router {
        api_prefix: "/-".to_owned(),
        api: new_api_router(),
        wasm_prefix: "/wasm".to_owned(),
        wasm: new_wasm_router(),
        root: new_static_router(),
    }
}

} // verus!
