//! The routing table: which endpoint a request reaches, and whether it must
//! carry the auth key.
//!
//! A path is read as warp reads it: one leading `/` is dropped, the rest is
//! cut at every `/`, and an empty piece after a final `/` is no segment.

use vstd::prelude::*;
use vstd::utf8::encode_utf8;
use crate::text::chars_of;
use crate::server::error::Error;
use crate::server::middlewares::{authenticate, is_authorized, is_visible_ascii};
use vstd::string::StringSliceAdditionalSpecFns;
use crate::server::recover::{Rejection, recovered_code};
use crate::server::util::{PercentDecoded, percent_decoded_text, law_plain_text_decodes_to_itself};

verus! {

/// The HTTP method of a request, as far as the routes tell methods apart.
#[derive(Clone, Copy, Debug, PartialEq, Eq, Structural)]
pub enum Method {
    Get,
    Post,
    Put,
    Delete,
    Other,
}

/// The endpoint that a request reaches, with its decoded path parameter.
#[derive(Debug)]
pub enum Route {
    Index,
    ResourceEditor,
    GetResource(PercentDecoded),
    GetAllResources,
    PostResource,
    DeleteResource(PercentDecoded),
    GetFile(PercentDecoded),
    GetAllFiles,
    UploadFile(PercentDecoded),
    DeleteFile(PercentDecoded),
    OAuthRefresh,
}

/// A route, its parameter as text.
pub enum RouteView {
    Index,
    ResourceEditor,
    GetResource(Seq<char>),
    GetAllResources,
    PostResource,
    DeleteResource(Seq<char>),
    GetFile(Seq<char>),
    GetAllFiles,
    UploadFile(Seq<char>),
    DeleteFile(Seq<char>),
    OAuthRefresh,
}

impl View for Route {
    type V = RouteView;

    open spec fn view(&self) -> RouteView {
        match self {
            Route::Index => RouteView::Index,
            Route::ResourceEditor => RouteView::ResourceEditor,
            Route::GetResource(k) => RouteView::GetResource(k@),
            Route::GetAllResources => RouteView::GetAllResources,
            Route::PostResource => RouteView::PostResource,
            Route::DeleteResource(k) => RouteView::DeleteResource(k@),
            Route::GetFile(n) => RouteView::GetFile(n@),
            Route::GetAllFiles => RouteView::GetAllFiles,
            Route::UploadFile(n) => RouteView::UploadFile(n@),
            Route::DeleteFile(n) => RouteView::DeleteFile(n@),
            Route::OAuthRefresh => RouteView::OAuthRefresh,
        }
    }
}

/// Whether a route answers only requests that carry the auth key.
pub open spec fn needs_auth(r: RouteView) -> bool {
    match r {
        RouteView::GetAllResources | RouteView::PostResource | RouteView::DeleteResource(_)
        | RouteView::GetAllFiles | RouteView::UploadFile(_) | RouteView::DeleteFile(_) => true,
        _ => false,
    }
}

/// How far a path and method get in the routing table.
pub enum PathMatch {
    /// The route that the request reaches.
    Found(RouteView),
    /// Some route has this path, none of them this method.
    WrongMethod,
    /// No route has this path.
    NoPath,
}

/// The number of characters before the first `/` of `p` (all of them if none).
pub open spec fn segment_len(p: Seq<char>) -> nat
    decreases p.len(),
{
    if p.len() == 0 || p[0] == '/' {
        0
    } else {
        1 + segment_len(p.drop_first())
    }
}

pub proof fn lemma_segment_len_bound(p: Seq<char>)
    ensures
        segment_len(p) <= p.len(),
    decreases p.len(),
{
    if p.len() > 0 && p[0] != '/' {
        lemma_segment_len_bound(p.drop_first());
    }
}

/// `p` cut at every `/`; an empty piece at the very end is no segment.
pub open spec fn split_segments(p: Seq<char>) -> Seq<Seq<char>>
    decreases p.len(),
{
    if p.len() == 0 {
        Seq::empty()
    } else {
        let k = segment_len(p);
        proof {
            lemma_segment_len_bound(p);
        }
        if k < p.len() {
            seq![p.take(k as int)] + split_segments(p.skip((k + 1) as int))
        } else {
            seq![p]
        }
    }
}

/// The segments of a request path.
pub open spec fn path_segments(path: Seq<char>) -> Seq<Seq<char>> {
    if path.len() > 0 && path[0] == '/' {
        split_segments(path.drop_first())
    } else {
        split_segments(path)
    }
}

/// The text that a path parameter stands for, where it is a non-empty segment
/// whose percent-decoding is UTF-8.
pub open spec fn param_text(seg: Seq<char>) -> Option<Seq<char>> {
    if seg.len() == 0 {
        None
    } else {
        percent_decoded_text(encode_utf8(seg))
    }
}

pub open spec fn res_segment() -> Seq<char> {
    seq!['r', 'e', 's']
}

pub open spec fn file_segment() -> Seq<char> {
    seq!['f', 'i', 'l', 'e']
}

pub open spec fn res_editor_segment() -> Seq<char> {
    seq!['r', 'e', 's', 'E', 'd', 'i', 't', 'o', 'r']
}

pub open spec fn oauth_segment() -> Seq<char> {
    seq!['o', 'a', 'u', 't', 'h']
}

pub open spec fn refresh_segment() -> Seq<char> {
    seq!['r', 'e', 'f', 'r', 'e', 's', 'h']
}

/// The routing table.
///
/// `/` GET: index; `/resEditor` GET: the resource editor; `/res` GET: all
/// resources, POST: store one; `/res/{key}` GET: one resource, DELETE: remove
/// it; `/file` GET: all file names; `/file/{name}` GET: a file, PUT: store
/// it, DELETE: remove it; `/oauth/refresh/...` POST: refresh a token.
pub open spec fn match_path(method: Method, segs: Seq<Seq<char>>) -> PathMatch {
    if segs.len() == 0 {
        if method == Method::Get {
            PathMatch::Found(RouteView::Index)
        } else {
            PathMatch::WrongMethod
        }
    } else if segs.len() >= 2 && segs[0] == oauth_segment() && segs[1] == refresh_segment() {
        if method == Method::Post {
            PathMatch::Found(RouteView::OAuthRefresh)
        } else {
            PathMatch::WrongMethod
        }
    } else if segs.len() == 1 {
        if segs[0] == res_editor_segment() {
            if method == Method::Get {
                PathMatch::Found(RouteView::ResourceEditor)
            } else {
                PathMatch::WrongMethod
            }
        } else if segs[0] == res_segment() {
            if method == Method::Get {
                PathMatch::Found(RouteView::GetAllResources)
            } else if method == Method::Post {
                PathMatch::Found(RouteView::PostResource)
            } else {
                PathMatch::WrongMethod
            }
        } else if segs[0] == file_segment() {
            if method == Method::Get {
                PathMatch::Found(RouteView::GetAllFiles)
            } else {
                PathMatch::WrongMethod
            }
        } else {
            PathMatch::NoPath
        }
    } else if segs.len() == 2 && param_text(segs[1]) is Some {
        let p = param_text(segs[1])->0;
        if segs[0] == res_segment() {
            if method == Method::Get {
                PathMatch::Found(RouteView::GetResource(p))
            } else if method == Method::Delete {
                PathMatch::Found(RouteView::DeleteResource(p))
            } else {
                PathMatch::WrongMethod
            }
        } else if segs[0] == file_segment() {
            if method == Method::Get {
                PathMatch::Found(RouteView::GetFile(p))
            } else if method == Method::Put {
                PathMatch::Found(RouteView::UploadFile(p))
            } else if method == Method::Delete {
                PathMatch::Found(RouteView::DeleteFile(p))
            } else {
                PathMatch::WrongMethod
            }
        } else {
            PathMatch::NoPath
        }
    } else {
        PathMatch::NoPath
    }
}

proof fn lemma_segment_len(p: Seq<char>, k: int)
    requires
        0 <= k <= p.len(),
        forall|j: int| 0 <= j < k ==> #[trigger] p[j] != '/',
        k == p.len() || p[k] == '/',
    ensures
        segment_len(p) == k,
    decreases k,
{
    if k > 0 {
        let t = p.drop_first();
        assert forall|j: int| 0 <= j < k - 1 implies #[trigger] t[j] != '/' by {
            assert(t[j] == p[j + 1]);
        }
        lemma_segment_len(t, k - 1);
    }
}

/// The segments that boundary pairs cut out of `cs`.
pub open spec fn cut(cs: Seq<char>, bounds: Seq<(usize, usize)>) -> Seq<Seq<char>> {
    bounds.map_values(|b: (usize, usize)| cs.subrange(b.0 as int, b.1 as int))
}

/// Where the segments of `cs[from..]` begin and end.
fn segment_bounds(cs: &Vec<char>, from: usize) -> (bounds: Vec<(usize, usize)>)
    requires
        from <= cs@.len(),
    ensures
        cut(cs@, bounds@) == split_segments(cs@.subrange(from as int, cs@.len() as int)),
        forall|i: int|
            0 <= i < bounds@.len() ==> #[trigger] bounds@[i].0 <= bounds@[i].1 <= cs@.len(),
{
    let n = cs.len();
    let ghost p = cs@.subrange(from as int, n as int);
    let mut bounds: Vec<(usize, usize)> = Vec::new();
    let mut start = from;
    let mut i = from;
    while i < n
        invariant
            from <= start <= i <= n,
            n == cs@.len(),
            p == cs@.subrange(from as int, n as int),
            forall|j: int| start <= j < i ==> #[trigger] cs@[j] != '/',
            split_segments(p) == cut(cs@, bounds@) + split_segments(
                cs@.subrange(start as int, n as int),
            ),
            forall|k: int|
                0 <= k < bounds@.len() ==> #[trigger] bounds@[k].0 <= bounds@[k].1 <= n,
        decreases n - i,
    {
        if cs[i] == '/' {
            proof {
                let q = cs@.subrange(start as int, n as int);
                assert forall|j: int| 0 <= j < i - start implies #[trigger] q[j] != '/' by {
                    assert(q[j] == cs@[start + j]);
                }
                lemma_segment_len(q, i - start);
                assert(q.take(i - start) =~= cs@.subrange(start as int, i as int));
                assert(q.skip(i - start + 1) =~= cs@.subrange(i + 1, n as int));
                assert(cut(cs@, bounds@.push((start, i))) =~= cut(cs@, bounds@).push(
                    cs@.subrange(start as int, i as int),
                ));
                assert(split_segments(q) =~= seq![cs@.subrange(start as int, i as int)]
                    + split_segments(cs@.subrange(i + 1, n as int)));
            }
            bounds.push((start, i));
            start = i + 1;
        }
        i = i + 1;
    }
    proof {
        let q = cs@.subrange(start as int, n as int);
        if start < n {
            assert forall|j: int| 0 <= j < n - start implies #[trigger] q[j] != '/' by {
                assert(q[j] == cs@[start + j]);
            }
            lemma_segment_len(q, n - start);
            assert(cut(cs@, bounds@.push((start, n))) =~= cut(cs@, bounds@).push(q));
        } else {
            assert(q =~= Seq::<char>::empty());
            assert(cut(cs@, bounds@) + split_segments(q) =~= cut(cs@, bounds@));
        }
    }
    if start < n {
        let ghost old_bounds = bounds@;
        bounds.push((start, n));
        assert forall|k: int| 0 <= k < bounds@.len() implies #[trigger] bounds@[k].0 <= bounds@[k].1
            <= n by {
            if k < old_bounds.len() {
                assert(bounds@[k] == old_bounds[k]);
            }
        }
    }
    bounds
}

/// Whether `cs[a..b]` spells `lit`.
fn segment_is(cs: &Vec<char>, a: usize, b: usize, lit: &[char]) -> (r: bool)
    requires
        a <= b <= cs@.len(),
    ensures
        r == (cs@.subrange(a as int, b as int) == lit@),
{
    if b - a != lit.len() {
        return false;
    }
    let mut i: usize = 0;
    while i < lit.len()
        invariant
            a <= b <= cs@.len(),
            b - a == lit@.len(),
            i <= lit@.len(),
            forall|k: int| 0 <= k < i ==> cs@[a + k] == #[trigger] lit@[k],
        decreases lit@.len() - i,
    {
        if cs[a + i] != lit[i] {
            assert(cs@.subrange(a as int, b as int)[i as int] != lit@[i as int]);
            return false;
        }
        i = i + 1;
    }
    assert(cs@.subrange(a as int, b as int) =~= lit@);
    true
}

/// Decodes the path parameter `path[a..b]` (counted in characters).
fn param(path: &str, a: usize, b: usize) -> (r: Option<PercentDecoded>)
    requires
        a <= b <= path@.len(),
    ensures
        match r {
            Some(d) => param_text(path@.subrange(a as int, b as int)) == Some(d@),
            None => param_text(path@.subrange(a as int, b as int)) is None,
        },
{
    if a == b {
        return None;
    }
    let seg = path.substring_char(a, b);
    match PercentDecoded::decode(seg) {
        Ok(d) => Some(d),
        Err(_) => None,
    }
}

/// Finds the route of a request; a request without the auth key that the
/// route needs is answered `401 Unauthorized`, an unknown path
/// `404 Not Found`, a known path with another method `405 Method Not Allowed`.
pub fn routes(method: Method, path: &str, auth_header: Option<&[u8]>, auth_key: &str) -> (r: Result<
    Route,
    Rejection,
>)
    ensures
        match match_path(method, path_segments(path@)) {
            PathMatch::NoPath => r matches Err(Rejection::NotFound),
            PathMatch::WrongMethod => r matches Err(Rejection::MethodNotAllowed),
            PathMatch::Found(v) => if needs_auth(v) && !is_authorized(
                match auth_header {
                    Some(h) => Some(h@),
                    None => None,
                },
                auth_key,
            ) {
                r matches Err(Rejection::Error(e)) && e@.code == 401 && e@.source is None
            } else {
                r matches Ok(route) && route@ == v
            },
        },
{
    let cs = chars_of(path);
    let n = cs.len();
    let from: usize = if n > 0 && cs[0] == '/' {
        1
    } else {
        0
    };
    let bounds = segment_bounds(&cs, from);
    let ghost segs = path_segments(path@);
    proof {
        if n > 0 && cs@[0] == '/' {
            assert(cs@.subrange(1, n as int) =~= path@.drop_first());
        } else {
            assert(cs@.subrange(0, n as int) =~= path@);
        }
        assert(cut(cs@, bounds@) == segs);
        assert forall|i: int| 0 <= i < bounds@.len() implies #[trigger] segs[i]
            == cs@.subrange(bounds@[i].0 as int, bounds@[i].1 as int) by {}
    }
    let found: Result<Route, Rejection> = if bounds.len() == 0 {
        if method == Method::Get {
            Ok(Route::Index)
        } else {
            Err(Rejection::MethodNotAllowed)
        }
    } else if bounds.len() >= 2 && segment_is(&cs, bounds[0].0, bounds[0].1, &['o', 'a', 'u', 't', 'h'])
        && segment_is(&cs, bounds[1].0, bounds[1].1, &['r', 'e', 'f', 'r', 'e', 's', 'h']) {
        if method == Method::Post {
            Ok(Route::OAuthRefresh)
        } else {
            Err(Rejection::MethodNotAllowed)
        }
    } else if bounds.len() == 1 {
        let (a, b) = bounds[0];
        if segment_is(&cs, a, b, &['r', 'e', 's', 'E', 'd', 'i', 't', 'o', 'r']) {
            if method == Method::Get {
                Ok(Route::ResourceEditor)
            } else {
                Err(Rejection::MethodNotAllowed)
            }
        } else if segment_is(&cs, a, b, &['r', 'e', 's']) {
            if method == Method::Get {
                Ok(Route::GetAllResources)
            } else if method == Method::Post {
                Ok(Route::PostResource)
            } else {
                Err(Rejection::MethodNotAllowed)
            }
        } else if segment_is(&cs, a, b, &['f', 'i', 'l', 'e']) {
            if method == Method::Get {
                Ok(Route::GetAllFiles)
            } else {
                Err(Rejection::MethodNotAllowed)
            }
        } else {
            Err(Rejection::NotFound)
        }
    } else if bounds.len() == 2 {
        let (a, b) = bounds[0];
        let (c, d) = bounds[1];
        match param(path, c, d) {
            None => Err(Rejection::NotFound),
            Some(p) => {
                if segment_is(&cs, a, b, &['r', 'e', 's']) {
                    if method == Method::Get {
                        Ok(Route::GetResource(p))
                    } else if method == Method::Delete {
                        Ok(Route::DeleteResource(p))
                    } else {
                        Err(Rejection::MethodNotAllowed)
                    }
                } else if segment_is(&cs, a, b, &['f', 'i', 'l', 'e']) {
                    if method == Method::Get {
                        Ok(Route::GetFile(p))
                    } else if method == Method::Put {
                        Ok(Route::UploadFile(p))
                    } else if method == Method::Delete {
                        Ok(Route::DeleteFile(p))
                    } else {
                        Err(Rejection::MethodNotAllowed)
                    }
                } else {
                    Err(Rejection::NotFound)
                }
            },
        }
    } else {
        Err(Rejection::NotFound)
    };
    match found {
        Ok(route) => {
            let protected = match route {
                Route::GetAllResources | Route::PostResource | Route::DeleteResource(_)
                | Route::GetAllFiles | Route::UploadFile(_) | Route::DeleteFile(_) => true,
                _ => false,
            };
            if protected {
                match authenticate(auth_header, auth_key) {
                    Ok(()) => Ok(route),
                    Err(e) => Err(Rejection::Error(e)),
                }
            } else {
                Ok(route)
            }
        },
        Err(rejection) => Err(rejection),
    }
}

/// A plain key (no `/`, no `%`) in `/res/{key}` is taken literally: a GET
/// of that path reads the resource of exactly that key.
pub proof fn law_plain_key_path(key: Seq<char>)
    requires
        key.len() > 0,
        forall|i: int| 0 <= i < key.len() ==> #[trigger] key[i] != '/' && key[i] != '%',
    ensures
        match_path(Method::Get, path_segments(seq!['/', 'r', 'e', 's', '/'] + key))
            == PathMatch::Found(RouteView::GetResource(key)),
{
    let p = seq!['/', 'r', 'e', 's', '/'] + key;
    let q = p.drop_first();
    assert(q =~= seq!['r', 'e', 's', '/'] + key);
    assert forall|j: int| 0 <= j < 3 implies #[trigger] q[j] != '/' by {}
    lemma_segment_len(q, 3);
    assert(q.take(3) =~= res_segment());
    assert(q.skip(4) =~= key);
    assert forall|j: int| 0 <= j < key.len() implies #[trigger] key[j] != '/' by {}
    lemma_segment_len(key, key.len() as int);
    assert(split_segments(key) =~= seq![key]);
    assert(path_segments(p) =~= seq![res_segment(), key]);
    assert forall|i: int| 0 <= i < key.len() implies #[trigger] key[i] != '%' by {}
    law_plain_text_decodes_to_itself(key);
}

/// The root path, `/` or empty, is the index page for GET.
pub proof fn law_index_path()
    ensures
        match_path(Method::Get, path_segments(seq!['/'])) == PathMatch::Found(RouteView::Index),
        match_path(Method::Get, path_segments(Seq::<char>::empty())) == PathMatch::Found(
            RouteView::Index,
        ),
{
    assert(seq!['/'].drop_first() =~= Seq::<char>::empty());
}

/// A path whose first segment names no route is unknown, whatever the
/// method and key, and is answered `404 Not Found`.
pub proof fn law_unknown_path_not_found(method: Method, segs: Seq<Seq<char>>)
    requires
        segs.len() > 0,
        segs[0] != res_segment(),
        segs[0] != file_segment(),
        segs[0] != res_editor_segment(),
        segs[0] != oauth_segment(),
    ensures
        match_path(method, segs) == PathMatch::NoPath,
        recovered_code(&Rejection::NotFound) == 404,
{
}

/// Every refusal of the routing table is answered with its own code: an
/// unknown path 404, a known path with another method 405, a missing key 401.
pub proof fn law_refusals_answered(e: Error)
    requires
        e@.code == 401,
    ensures
        recovered_code(&Rejection::NotFound) == 404,
        recovered_code(&Rejection::MethodNotAllowed) == 405,
        recovered_code(&Rejection::Error(e)) == 401,
{
}

/// Whether `s` is a non-empty text without `/`.
pub open spec fn is_plain_segment(s: Seq<char>) -> bool {
    s.len() > 0 && forall|i: int| 0 <= i < s.len() ==> #[trigger] s[i] != '/'
}

proof fn lemma_two_segments(first: Seq<char>, second: Seq<char>)
    requires
        is_plain_segment(first),
        is_plain_segment(second),
    ensures
        path_segments(seq!['/'] + first + seq!['/'] + second) == seq![first, second],
{
    let p = seq!['/'] + first + seq!['/'] + second;
    let q = p.drop_first();
    assert(q =~= first + seq!['/'] + second);
    let n = first.len() as int;
    assert forall|j: int| 0 <= j < n implies #[trigger] q[j] != '/' by {
        assert(q[j] == first[j]);
    }
    assert(q[n] == '/');
    lemma_segment_len(q, n);
    assert(q.take(n) =~= first);
    assert(q.skip(n + 1) =~= second);
    lemma_segment_len(second, second.len() as int);
    assert(split_segments(second) =~= seq![second]);
    assert(split_segments(q) =~= seq![first, second]);
}

/// A file path `/file/{name}`, its name plain (no `/`, no `%`), reaches the
/// file endpoints under exactly that name: GET reads the file, PUT stores it,
/// DELETE deletes it; storing and deleting need the key.
pub proof fn law_file_paths(name: Seq<char>)
    requires
        is_plain_segment(name),
        forall|i: int| 0 <= i < name.len() ==> #[trigger] name[i] != '%',
    ensures
        ({
            let segs = path_segments(seq!['/', 'f', 'i', 'l', 'e', '/'] + name);
            &&& match_path(Method::Get, segs) == PathMatch::Found(RouteView::GetFile(name))
            &&& match_path(Method::Put, segs) == PathMatch::Found(RouteView::UploadFile(name))
            &&& match_path(Method::Delete, segs) == PathMatch::Found(RouteView::DeleteFile(name))
            &&& needs_auth(RouteView::UploadFile(name))
            &&& needs_auth(RouteView::DeleteFile(name))
            &&& !needs_auth(RouteView::GetFile(name))
        }),
{
    assert(seq!['/', 'f', 'i', 'l', 'e', '/'] + name =~= seq!['/'] + file_segment() + seq!['/']
        + name);
    lemma_two_segments(file_segment(), name);
    law_plain_text_decodes_to_itself(name);
}

/// Whether a route reads or writes resources.
pub open spec fn is_resource_route(v: RouteView) -> bool {
    match v {
        RouteView::GetResource(_) | RouteView::GetAllResources | RouteView::PostResource
        | RouteView::DeleteResource(_) => true,
        _ => false,
    }
}

/// Whether a route reads or writes files.
pub open spec fn is_file_route(v: RouteView) -> bool {
    match v {
        RouteView::GetFile(_) | RouteView::GetAllFiles | RouteView::UploadFile(_)
        | RouteView::DeleteFile(_) => true,
        _ => false,
    }
}

/// A path under `/file` never reaches a resource endpoint, and a path under
/// `/res` never reaches a file endpoint, whatever the method.
pub proof fn law_files_and_resources_apart(method: Method, segs: Seq<Seq<char>>)
    requires
        segs.len() > 0,
    ensures
        segs[0] == file_segment() ==> match match_path(method, segs) {
            PathMatch::Found(v) => is_file_route(v),
            _ => true,
        },
        segs[0] == res_segment() ==> match match_path(method, segs) {
            PathMatch::Found(v) => is_resource_route(v),
            _ => true,
        },
{
    assert(res_segment().len() != oauth_segment().len());
    assert(res_segment().len() != res_editor_segment().len());
    assert(res_segment().len() != file_segment().len());
    assert(file_segment().len() != oauth_segment().len());
    assert(file_segment().len() != res_editor_segment().len());
}

/// Every POST to `/oauth/refresh`, with anything after it, is a token
/// refresh, and needs no key.
pub proof fn law_oauth_refresh_paths(segs: Seq<Seq<char>>)
    requires
        segs.len() >= 2,
        segs[0] == oauth_segment(),
        segs[1] == refresh_segment(),
    ensures
        match_path(Method::Post, segs) == PathMatch::Found(RouteView::OAuthRefresh),
        !needs_auth(RouteView::OAuthRefresh),
        path_segments(seq!['/', 'o', 'a', 'u', 't', 'h', '/', 'r', 'e', 'f', 'r', 'e', 's', 'h'])
            == seq![oauth_segment(), refresh_segment()],
{
    assert(seq!['/', 'o', 'a', 'u', 't', 'h', '/', 'r', 'e', 'f', 'r', 'e', 's', 'h'] =~= seq![
        '/',
    ] + oauth_segment() + seq!['/'] + refresh_segment());
    lemma_two_segments(oauth_segment(), refresh_segment());
}

/// Only a GET of the root path reaches the index page.
pub proof fn law_index_only_at_root(method: Method, segs: Seq<Seq<char>>)
    ensures
        match_path(method, segs) == PathMatch::Found(RouteView::Index) ==> segs.len() == 0
            && method == Method::Get,
{
}

/// A key of visible ASCII characters lets its own bytes through.
pub proof fn law_right_key_authorizes(key: &str)
    requires
        forall|i: int|
            0 <= i < key.spec_bytes().len() ==> is_visible_ascii(#[trigger] key.spec_bytes()[i]),
    ensures
        is_authorized(Some(key.spec_bytes()), key),
{
}

} // verus!
