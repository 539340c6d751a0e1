//! The request router: maps request methods and URL paths to decisions
//! without ever escaping the project root. Filesystem canonicalization is
//! the caller's job; every decision about what a path means is made here.
//!
//! Every response carries a `Cache-Control: no-store` directive, since served
//! content is expected to change at any time. Only `GET` is accepted; every
//! other method yields a method-not-allowed response naming `GET` as the sole
//! allowed method.

use vstd::prelude::*;
use vstd::slice::{slice_subrange, slice_to_vec};
use vstd::string::StringSliceAdditionalSpecFns;
use crate::fs::project_dir::SEPARATOR;
use crate::util::bytes_eq;

verus! {

/// The pieces of an HTTP response that the router decides: the status code,
/// the content type, the body, the cache directive, and, for refused
/// methods, the `Allow` header.
#[derive(Debug, PartialEq, Eq)]
pub struct ResponseParts {
    pub status: u16,
    pub content_type: Vec<u8>,
    pub body: Vec<u8>,
    pub cache_control: Vec<u8>,
    pub allow: Option<Vec<u8>>,
}

/// Mathematical model of response parts.
pub struct PartsModel {
    pub status: u16,
    pub content_type: Seq<u8>,
    pub body: Seq<u8>,
    pub cache_control: Seq<u8>,
    pub allow: Option<Seq<u8>>,
}

impl View for ResponseParts {
    type V = PartsModel;

    open spec fn view(&self) -> PartsModel {
        PartsModel {
            status: self.status,
            content_type: self.content_type@,
            body: self.body@,
            cache_control: self.cache_control@,
            allow: match self.allow {
                Some(a) => Some(a@),
                None => None,
            },
        }
    }
}

/// The not-found response: 404, plain text, never cached.
pub open spec fn not_found_parts() -> PartsModel {
    PartsModel {
        status: 404,
        content_type: "text/plain".spec_bytes(),
        body: "HTTP 404. File not found.".spec_bytes(),
        cache_control: "no-store".spec_bytes(),
        allow: None,
    }
}

/// The method-not-allowed response: 405, plain text, never cached, naming
/// `GET` as the sole allowed method.
pub open spec fn method_not_allowed_parts() -> PartsModel {
    PartsModel {
        status: 405,
        content_type: "text/plain".spec_bytes(),
        body: "HTTP 405. Method not allowed.".spec_bytes(),
        cache_control: "no-store".spec_bytes(),
        allow: Some("GET".spec_bytes()),
    }
}

/// The internal-server-error response: 500, plain text, never cached; used
/// when required process-wide state is unexpectedly absent.
pub open spec fn server_error_parts() -> PartsModel {
    PartsModel {
        status: 500,
        content_type: "text/plain".spec_bytes(),
        body: "HTTP 500. Internal server error.".spec_bytes(),
        cache_control: "no-store".spec_bytes(),
        allow: None,
    }
}

/// A success response around a body the caller supplies: 200, never cached.
pub open spec fn ok_parts(content_type: Seq<u8>, body: Seq<u8>) -> PartsModel {
    PartsModel {
        status: 200,
        content_type,
        body,
        cache_control: "no-store".spec_bytes(),
        allow: None,
    }
}

pub fn not_found() -> (r: ResponseParts)
    ensures
        r@ == not_found_parts(),
{
    ResponseParts {
        status: 404,
        content_type: slice_to_vec("text/plain".as_bytes()),
        body: slice_to_vec("HTTP 404. File not found.".as_bytes()),
        cache_control: slice_to_vec("no-store".as_bytes()),
        allow: None,
    }
}

pub fn method_not_allowed() -> (r: ResponseParts)
    ensures
        r@ == method_not_allowed_parts(),
{
    ResponseParts {
        status: 405,
        content_type: slice_to_vec("text/plain".as_bytes()),
        body: slice_to_vec("HTTP 405. Method not allowed.".as_bytes()),
        cache_control: slice_to_vec("no-store".as_bytes()),
        allow: Some(slice_to_vec("GET".as_bytes())),
    }
}

pub fn server_error() -> (r: ResponseParts)
    ensures
        r@ == server_error_parts(),
{
    ResponseParts {
        status: 500,
        content_type: slice_to_vec("text/plain".as_bytes()),
        body: slice_to_vec("HTTP 500. Internal server error.".as_bytes()),
        cache_control: slice_to_vec("no-store".as_bytes()),
        allow: None,
    }
}

/// A success response around the given body: 200, never cached.
pub fn ok_response(content_type: Vec<u8>, body: Vec<u8>) -> (r: ResponseParts)
    ensures
        r@ == ok_parts(content_type@, body@),
{
    ResponseParts {
        status: 200,
        content_type,
        body,
        cache_control: slice_to_vec("no-store".as_bytes()),
        allow: None,
    }
}

/// Never-cache law: every response the router hands out carries
/// `Cache-Control: no-store`, success and error alike.
pub proof fn lemma_every_response_uncached(content_type: Seq<u8>, body: Seq<u8>)
    ensures
        not_found_parts().cache_control == "no-store".spec_bytes(),
        method_not_allowed_parts().cache_control == "no-store".spec_bytes(),
        server_error_parts().cache_control == "no-store".spec_bytes(),
        ok_parts(content_type, body).cache_control == "no-store".spec_bytes(),
{
}

/// The request path with every leading separator stripped.
pub open spec fn trimmed(p: Seq<u8>) -> Seq<u8>
    decreases p,
{
    if p.len() > 0 && p[0] == SEPARATOR {
        trimmed(p.drop_first())
    } else {
        p
    }
}

/// `trimmed` strips exactly the leading separators: the result is the suffix
/// of the path that starts at its first other byte.
pub proof fn lemma_trimmed_is_suffix(p: Seq<u8>, k: int)
    requires
        0 <= k <= p.len(),
        forall|l: int| 0 <= l < k ==> p[l] == SEPARATOR,
        k == p.len() || p[k] != SEPARATOR,
    ensures
        trimmed(p) == p.skip(k),
    decreases k,
{
    if k == 0 {
        assert(p.skip(0) =~= p);
    } else {
        let q = p.drop_first();
        lemma_trimmed_is_suffix(q, k - 1);
        assert(q.skip(k - 1) =~= p.skip(k));
    }
}

/// Strips the leading separators off a request path.
pub fn trim_leading_separators(p: &[u8]) -> (r: &[u8])
    ensures
        r@ == trimmed(p@),
{
    let mut i: usize = 0;
    while i < p.len() && p[i] == SEPARATOR
        invariant
            i <= p@.len(),
            forall|l: int| 0 <= l < i ==> p@[l] == SEPARATOR,
        decreases p.len() - i,
    {
        i = i + 1;
    }
    proof {
        lemma_trimmed_is_suffix(p@, i as int);
    }
    let r = slice_subrange(p, i, p.len());
    proof {
        assert(r@ =~= p@.skip(i as int));
    }
    r
}

/// Path-component-prefix containment: `target` lies under `root` when it is
/// `root` itself or extends it at a component boundary. A sibling such as a
/// `root-evil` directory is not contained: the byte after the shared prefix
/// must be a separator.
pub open spec fn is_component_prefix(root: Seq<u8>, target: Seq<u8>) -> bool {
    ||| target == root
    ||| (target.len() > root.len() && target.subrange(0, root.len() as int) == root
        && target[root.len() as int] == SEPARATOR)
}

/// Containment check of a canonical target path against the canonical
/// project root.
pub fn path_contains(root: &[u8], target: &[u8]) -> (r: bool)
    ensures
        r == is_component_prefix(root@, target@),
{
    if target.len() < root.len() {
        proof {
            assert(!is_component_prefix(root@, target@));
        }
        return false;
    }
    let prefix = slice_subrange(target, 0, root.len());
    if !bytes_eq(prefix, root) {
        proof {
            assert(target@.len() >= root@.len());
            if target@ == root@ {
                assert(prefix@ =~= root@);
            }
        }
        return false;
    }
    if target.len() == root.len() {
        proof {
            assert(target@ =~= root@);
        }
        true
    } else {
        let boundary = target[root.len()];
        proof {
            if boundary == SEPARATOR {
                assert(is_component_prefix(root@, target@));
            } else {
                assert(target@ != root@);
            }
        }
        boundary == SEPARATOR
    }
}

/// What serving a canonicalized target resolves to.
#[derive(Debug, Clone, Copy, PartialEq, Eq, Structural)]
pub enum ResolveDecision {
    /// The target escapes the project root, or does not exist: not found.
    NotFound,
    /// The target is a regular file: serve its bytes.
    ServeFile,
    /// The target is a directory: try `index.htm`, then `index.html`, inside
    /// it, in that order; serve the first that exists, else not found.
    TryIndexFiles,
}

/// The decision for a canonical target: anything outside the root is not
/// found, a directory goes to the index-file probe, a file is served.
pub open spec fn resolve_spec(root: Seq<u8>, canon: Seq<u8>, is_dir: bool) -> ResolveDecision {
    if !is_component_prefix(root, canon) {
        ResolveDecision::NotFound
    } else if is_dir {
        ResolveDecision::TryIndexFiles
    } else {
        ResolveDecision::ServeFile
    }
}

/// Decides how to serve a target the caller has canonicalized against the
/// real filesystem; `is_dir` says whether the canonical target is a
/// directory.
pub fn resolve_canonical(root: &[u8], canon: &[u8], is_dir: bool) -> (r: ResolveDecision)
    ensures
        r == resolve_spec(root@, canon@, is_dir),
{
    if !path_contains(root, canon) {
        ResolveDecision::NotFound
    } else if is_dir {
        ResolveDecision::TryIndexFiles
    } else {
        ResolveDecision::ServeFile
    }
}

/// Containment law: a canonical path that does not have the project root as
/// a path-component prefix is never served, whatever it is.
pub proof fn lemma_no_escape(root: Seq<u8>, canon: Seq<u8>, is_dir: bool)
    requires
        !is_component_prefix(root, canon),
    ensures
        resolve_spec(root, canon, is_dir) is NotFound,
{
}

/// The index files probed inside a directory target, in order.
pub fn index_candidates() -> (r: Vec<Vec<u8>>)
    ensures
        r@.len() == 2,
        r@[0]@ == "index.htm".spec_bytes(),
        r@[1]@ == "index.html".spec_bytes(),
{
    let mut r: Vec<Vec<u8>> = Vec::new();
    r.push(slice_to_vec("index.htm".as_bytes()));
    r.push(slice_to_vec("index.html".as_bytes()));
    r
}

/// A route of the status server.
#[derive(Debug, Clone, Copy, PartialEq, Eq, Structural)]
pub enum StatusRoute {
    /// The rendered status page.
    IndexPage,
    /// An empty no-content favicon.
    Favicon,
    /// The embedded stylesheet.
    Stylesheet,
    /// The embedded script.
    Script,
    /// The server-sent event stream of change notifications.
    EventStream,
    NotFound,
    MethodNotAllowed,
}

/// The status server's routing table, over the trimmed request path.
pub open spec fn status_route_spec(method: Seq<u8>, uri_path: Seq<u8>) -> StatusRoute {
    if method != "GET".spec_bytes() {
        StatusRoute::MethodNotAllowed
    } else {
        let t = trimmed(uri_path);
        if t.len() == 0 {
            StatusRoute::IndexPage
        } else if t == "favicon.ico".spec_bytes() {
            StatusRoute::Favicon
        } else if t == "style/main.css".spec_bytes() {
            StatusRoute::Stylesheet
        } else if t == "js/main.js".spec_bytes() {
            StatusRoute::Script
        } else if t == "event-stream/".spec_bytes() {
            StatusRoute::EventStream
        } else {
            StatusRoute::NotFound
        }
    }
}

/// Routes one request of the status server.
pub fn request_handler_status(method: &[u8], uri_path: &[u8]) -> (r: StatusRoute)
    ensures
        r == status_route_spec(method@, uri_path@),
{
    if !bytes_eq(method, "GET".as_bytes()) {
        return StatusRoute::MethodNotAllowed;
    }
    let t = trim_leading_separators(uri_path);
    if t.len() == 0 {
        StatusRoute::IndexPage
    } else if bytes_eq(t, "favicon.ico".as_bytes()) {
        StatusRoute::Favicon
    } else if bytes_eq(t, "style/main.css".as_bytes()) {
        StatusRoute::Stylesheet
    } else if bytes_eq(t, "js/main.js".as_bytes()) {
        StatusRoute::Script
    } else if bytes_eq(t, "event-stream/".as_bytes()) {
        StatusRoute::EventStream
    } else {
        StatusRoute::NotFound
    }
}

/// The HTTP status code each status-server route answers with.
pub open spec fn status_route_code(r: StatusRoute) -> u16 {
    match r {
        StatusRoute::IndexPage => 200,
        StatusRoute::Favicon => 204,
        StatusRoute::Stylesheet => 200,
        StatusRoute::Script => 200,
        StatusRoute::EventStream => 200,
        StatusRoute::NotFound => 404,
        StatusRoute::MethodNotAllowed => 405,
    }
}

/// The content type each status-server route answers with.
pub open spec fn status_route_content_type(r: StatusRoute) -> Seq<u8> {
    match r {
        StatusRoute::IndexPage => "text/html".spec_bytes(),
        StatusRoute::Favicon => "image/x-icon".spec_bytes(),
        StatusRoute::Stylesheet => "text/css".spec_bytes(),
        StatusRoute::Script => "text/javascript".spec_bytes(),
        StatusRoute::EventStream => "text/event-stream".spec_bytes(),
        StatusRoute::NotFound => "text/plain".spec_bytes(),
        StatusRoute::MethodNotAllowed => "text/plain".spec_bytes(),
    }
}

/// The status code for a status-server route.
pub fn status_code_for(r: &StatusRoute) -> (c: u16)
    ensures
        c == status_route_code(*r),
{
    match r {
        StatusRoute::IndexPage => 200,
        StatusRoute::Favicon => 204,
        StatusRoute::Stylesheet => 200,
        StatusRoute::Script => 200,
        StatusRoute::EventStream => 200,
        StatusRoute::NotFound => 404,
        StatusRoute::MethodNotAllowed => 405,
    }
}

/// The content type for a status-server route.
pub fn content_type_for(r: &StatusRoute) -> (c: Vec<u8>)
    ensures
        c@ == status_route_content_type(*r),
{
    match r {
        StatusRoute::IndexPage => slice_to_vec("text/html".as_bytes()),
        StatusRoute::Favicon => slice_to_vec("image/x-icon".as_bytes()),
        StatusRoute::Stylesheet => slice_to_vec("text/css".as_bytes()),
        StatusRoute::Script => slice_to_vec("text/javascript".as_bytes()),
        StatusRoute::EventStream => slice_to_vec("text/event-stream".as_bytes()),
        StatusRoute::NotFound => slice_to_vec("text/plain".as_bytes()),
        StatusRoute::MethodNotAllowed => slice_to_vec("text/plain".as_bytes()),
    }
}

/// A route of the project server.
#[derive(Debug, PartialEq, Eq)]
pub enum ProjectRoute {
    /// The method was not `GET`.
    MethodNotAllowed,
    /// The request names the project root itself: probe its index files.
    RootDir,
    /// The request names something under the root: join the carried trimmed
    /// path onto the root, canonicalize, and decide with
    /// `resolve_canonical`.
    Resolve(Vec<u8>),
}

/// Mathematical model of a project-server route.
pub enum ProjectRouteModel {
    MethodNotAllowed,
    RootDir,
    Resolve(Seq<u8>),
}

impl View for ProjectRoute {
    type V = ProjectRouteModel;

    open spec fn view(&self) -> ProjectRouteModel {
        match self {
            ProjectRoute::MethodNotAllowed => ProjectRouteModel::MethodNotAllowed,
            ProjectRoute::RootDir => ProjectRouteModel::RootDir,
            ProjectRoute::Resolve(p) => ProjectRouteModel::Resolve(p@),
        }
    }
}

/// The project server's routing: only `GET` is served; an empty trimmed path
/// is the root; anything else must be resolved against the filesystem.
pub open spec fn project_route_spec(method: Seq<u8>, uri_path: Seq<u8>) -> ProjectRouteModel {
    if method != "GET".spec_bytes() {
        ProjectRouteModel::MethodNotAllowed
    } else {
        let t = trimmed(uri_path);
        if t.len() == 0 {
            ProjectRouteModel::RootDir
        } else {
            ProjectRouteModel::Resolve(t)
        }
    }
}

/// Routes one request of the project server.
pub fn request_handler_project(method: &[u8], uri_path: &[u8]) -> (r: ProjectRoute)
    ensures
        r@ == project_route_spec(method@, uri_path@),
{
    if !bytes_eq(method, "GET".as_bytes()) {
        return ProjectRoute::MethodNotAllowed;
    }
    let t = trim_leading_separators(uri_path);
    if t.len() == 0 {
        ProjectRoute::RootDir
    } else {
        ProjectRoute::Resolve(slice_to_vec(t))
    }
}

/// Refused-method law: on both servers, any method other than `GET` is
/// answered with 405 and an `Allow: GET` header, whatever the path.
pub proof fn lemma_non_get_is_refused(method: Seq<u8>, uri_path: Seq<u8>)
    requires
        method != "GET".spec_bytes(),
    ensures
        status_route_spec(method, uri_path) is MethodNotAllowed,
        project_route_spec(method, uri_path) is MethodNotAllowed,
        method_not_allowed_parts().status == 405,
        method_not_allowed_parts().allow == Some("GET".spec_bytes()),
        status_route_code(StatusRoute::MethodNotAllowed) == 405,
{
}

} // verus!
