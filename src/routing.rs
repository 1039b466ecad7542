//! Choosing the handler for a request from its method and path.
use crate::http::Method;
use crate::text::{has_prefix, same_text, split_on, split_text, views};
use crate::text::{lemma_split_join, lemma_split_without_separator};
use crate::text::{strip_prefix_once, strip_prefix_text, trim_slashes_end, trim_trailing_slashes};
use vstd::prelude::*;
use vstd::string::*;

verus! {

/// The handler a request goes to, with what it takes from the path.
#[derive(Clone, Debug)]
pub enum Route {
    /// A pre-flight request: answered at once, with no collaborator call.
    Preflight,
    /// Speech synthesis.
    Speech,
    /// Upload of a file.
    Upload,
    /// The list of all files.
    List,
    /// The metadata of one file.
    Retrieve { id: String },
    /// The content of one file.
    RetrieveContent { id: String },
    /// The bytes of one file, as a download.
    Download { id: String },
    /// Deletion of one file.
    Delete { id: String },
    /// A path under the files subtree that no file route has the shape of;
    /// holds the normalized path.
    UnsupportedPath { path: String },
    /// A method that the files subtree does not serve.
    UnsupportedMethod,
    /// No route at all; holds the path as it came.
    NotFound { path: String },
}

/// A route as a mathematical value.
pub enum RouteView {
    Preflight,
    Speech,
    Upload,
    List,
    Retrieve { id: Seq<char> },
    RetrieveContent { id: Seq<char> },
    Download { id: Seq<char> },
    Delete { id: Seq<char> },
    UnsupportedPath { path: Seq<char> },
    UnsupportedMethod,
    NotFound { path: Seq<char> },
}

impl View for Route {
    type V = RouteView;

    open spec fn view(&self) -> RouteView {
        match self {
            Route::Preflight => RouteView::Preflight,
            Route::Speech => RouteView::Speech,
            Route::Upload => RouteView::Upload,
            Route::List => RouteView::List,
            Route::Retrieve { id } => RouteView::Retrieve { id: id@ },
            Route::RetrieveContent { id } => RouteView::RetrieveContent { id: id@ },
            Route::Download { id } => RouteView::Download { id: id@ },
            Route::Delete { id } => RouteView::Delete { id: id@ },
            Route::UnsupportedPath { path } => RouteView::UnsupportedPath { path: path@ },
            Route::UnsupportedMethod => RouteView::UnsupportedMethod,
            Route::NotFound { path } => RouteView::NotFound { path: path@ },
        }
    }
}

/// The lower-case form of a text, as Unicode defines it.
pub uninterp spec fn lower_of(s: Seq<char>) -> Seq<char>;

/// Whether a text is ASCII without capital letters.
pub open spec fn is_lower_ascii(s: Seq<char>) -> bool {
    forall|i: int| 0 <= i < s.len() ==> (s[i] as u32) < 0x80 && !(0x41 <= (s[i] as u32) <= 0x5a)
}

/// Relies on str::to_lowercase: the lower-case mapping of each character,
/// which depends on the text alone and maps every ASCII character other than
/// `A`..`Z` to itself.
#[verifier::external_body]
fn lowercase(s: &str) -> (r: String)
    ensures
        r@ == lower_of(s@),
        is_lower_ascii(s@) ==> r@ == s@,
{
    s.to_lowercase()
}

/// Whether the segments start with `""`, `"v1"`, `"files"`.
pub open spec fn in_files_tree(segs: Seq<Seq<char>>) -> bool {
    segs.len() >= 3 && segs[0] == Seq::<char>::empty() && segs[1] == "v1"@ && segs[2] == "files"@
}

/// Whether a file id has the required `file_` prefix.
pub open spec fn is_file_id(id: Seq<char>) -> bool {
    "file_"@.is_prefix_of(id)
}

/// The route of a `GET` under the files subtree, from its normalized path.
/// The two five-segment shapes are told apart by their keyword, so a
/// download or content path never reaches the plain metadata route.
pub open spec fn get_route_spec(n: Seq<char>) -> RouteView {
    let segs = split_on(n, '/');
    if !in_files_tree(segs) {
        RouteView::UnsupportedPath { path: n }
    } else if segs.len() == 3 {
        RouteView::List
    } else if segs.len() == 5 && segs[4] == "content"@ {
        if is_file_id(segs[3]) {
            RouteView::RetrieveContent { id: segs[3] }
        } else {
            RouteView::UnsupportedPath { path: n }
        }
    } else if segs.len() == 4 {
        if is_file_id(segs[3]) {
            RouteView::Retrieve { id: segs[3] }
        } else {
            RouteView::UnsupportedPath { path: n }
        }
    } else if segs.len() == 5 && segs[3] == "download"@ {
        RouteView::Download { id: segs[4] }
    } else {
        RouteView::UnsupportedPath { path: n }
    }
}

/// A path with its trailing slashes removed and then lower-cased.
pub open spec fn normalize_spec(p: Seq<char>) -> Seq<char> {
    lower_of(trim_trailing_slashes(p))
}

/// Whether a path lies in the files subtree.
pub open spec fn is_files_path(p: Seq<char>) -> bool {
    p == "/v1/files"@ || "/v1/files/"@.is_prefix_of(p)
}

/// The route of a request. A delete takes as its id what follows
/// `/v1/files/`; a delete that names no id is not found.
pub open spec fn route_spec(m: Method, p: Seq<char>) -> RouteView {
    if m == Method::Options {
        RouteView::Preflight
    } else if p == "/v1/audio/speech"@ {
        if m == Method::Post {
            RouteView::Speech
        } else {
            RouteView::NotFound { path: p }
        }
    } else if is_files_path(p) {
        match m {
            Method::Post => RouteView::Upload,
            Method::Get => get_route_spec(normalize_spec(p)),
            Method::Delete => if strip_prefix_once(p, "/v1/files/"@).len() > 0 && p != "/v1/files"@ {
                RouteView::Delete { id: strip_prefix_once(p, "/v1/files/"@) }
            } else {
                RouteView::NotFound { path: p }
            },
            _ => RouteView::UnsupportedMethod,
        }
    } else {
        RouteView::NotFound { path: p }
    }
}

/// Route matching keeps the keyword routes apart from the plain metadata
/// route: for an id without `/`, the normalized path
/// `/v1/files/download/{id}` is never routed to the metadata of a file (it is
/// a download unless the id is `content`), and `/v1/files/{id}/content` is
/// never routed to the metadata either (it is the file's content, or refused).
pub proof fn lemma_keyword_routes_stay_apart(id: Seq<char>)
    requires
        !id.contains('/'),
    ensures
        !(get_route_spec("/v1/files/download/"@ + id) is Retrieve),
        id != "content"@ ==> get_route_spec("/v1/files/download/"@ + id) == (RouteView::Download {
            id,
        }),
        !(get_route_spec("/v1/files/"@ + id + "/content"@) is Retrieve),
        is_file_id(id) ==> get_route_spec("/v1/files/"@ + id + "/content"@) == (
        RouteView::RetrieveContent { id }),
{
    reveal_strlit("/v1/files/download/");
    reveal_strlit("/v1/files/");
    reveal_strlit("/content");
    reveal_strlit("v1");
    reveal_strlit("files");
    reveal_strlit("download");
    reveal_strlit("content");
    let e = Seq::<char>::empty();
    let v1 = "v1"@;
    let files = "files"@;
    let download = "download"@;
    let content = "content"@;
    assert(!e.contains('/'));
    assert(!v1.contains('/')) by {
        assert(v1[0] != '/' && v1[1] != '/');
    }
    assert(!files.contains('/')) by {
        assert(forall|k: int| 0 <= k < files.len() ==> files[k] != '/');
    }
    assert(!download.contains('/')) by {
        assert(forall|k: int| 0 <= k < download.len() ==> download[k] != '/');
    }
    assert(!content.contains('/')) by {
        assert(forall|k: int| 0 <= k < content.len() ==> content[k] != '/');
    }
    lemma_split_without_separator(e, '/');
    lemma_split_without_separator(v1, '/');
    lemma_split_without_separator(files, '/');
    lemma_split_without_separator(download, '/');
    lemma_split_without_separator(content, '/');
    lemma_split_without_separator(id, '/');
    let s1 = e.push('/') + v1;
    let s2 = s1.push('/') + files;
    let s3 = s2.push('/') + download;
    lemma_split_join(e, v1, '/');
    lemma_split_join(s1, files, '/');
    lemma_split_join(s2, download, '/');
    lemma_split_join(s3, id, '/');
    let n1 = "/v1/files/download/"@ + id;
    assert(n1 =~= s3.push('/') + id);
    let segs1 = split_on(n1, '/');
    assert(segs1 =~= seq![e, v1, files, download, id]);
    let s4 = s2.push('/') + id;
    lemma_split_join(s2, id, '/');
    lemma_split_join(s4, content, '/');
    let n2 = "/v1/files/"@ + id + "/content"@;
    assert(n2 =~= s4.push('/') + content);
    let segs2 = split_on(n2, '/');
    assert(segs2 =~= seq![e, v1, files, id, content]);
}

/// A path with its trailing slashes removed and then lower-cased.
pub fn normalize_path(path: &str) -> (r: String)
    ensures
        r@ == normalize_spec(path@),
        is_lower_ascii(trim_trailing_slashes(path@)) ==> r@ == trim_trailing_slashes(path@),
{
    let trimmed = trim_slashes_end(path);
    lowercase(trimmed.as_str())
}

/// The route of a `GET` under the files subtree, from its normalized path.
pub fn route_get(normalized: &str) -> (r: Route)
    ensures
        r@ == get_route_spec(normalized@),
{
    let segs = split_text(normalized, '/');
    let ghost sv = views(segs@);
    assert(sv.len() == segs@.len());
    let n = segs.len();
    let unsupported = Route::UnsupportedPath { path: normalized.to_owned() };
    if n < 3 {
        return unsupported;
    }
    assert(sv[0] == segs@[0]@ && sv[1] == segs@[1]@ && sv[2] == segs@[2]@);
    proof {
        reveal_strlit("");
        assert(""@ =~= Seq::<char>::empty());
    }
    if !(same_text(segs[0].as_str(), "") && same_text(segs[1].as_str(), "v1") && same_text(
        segs[2].as_str(),
        "files",
    )) {
        return unsupported;
    }
    if n == 3 {
        return Route::List;
    }
    assert(sv[3] == segs@[3]@);
    if n == 5 {
        assert(sv[4] == segs@[4]@);
    }
    if n == 5 && same_text(segs[4].as_str(), "content") {
        if has_prefix(segs[3].as_str(), "file_") {
            Route::RetrieveContent { id: segs[3].clone() }
        } else {
            unsupported
        }
    } else if n == 4 {
        if has_prefix(segs[3].as_str(), "file_") {
            Route::Retrieve { id: segs[3].clone() }
        } else {
            unsupported
        }
    } else if n == 5 && same_text(segs[3].as_str(), "download") {
        Route::Download { id: segs[4].clone() }
    } else {
        unsupported
    }
}

/// The route of a request with method `method` and path `path`.
pub fn route(method: Method, path: &str) -> (r: Route)
    ensures
        r@ == route_spec(method, path@),
{
    if method == Method::Options {
        Route::Preflight
    } else if same_text(path, "/v1/audio/speech") {
        if method == Method::Post {
            Route::Speech
        } else {
            Route::NotFound { path: path.to_owned() }
        }
    } else if same_text(path, "/v1/files") || has_prefix(path, "/v1/files/") {
        match method {
            Method::Post => Route::Upload,
            Method::Get => {
                let normalized = normalize_path(path);
                route_get(normalized.as_str())
            },
            Method::Delete => {
                let id = strip_prefix_text(path, "/v1/files/");
                if id.unicode_len() > 0 && !same_text(path, "/v1/files") {
                    Route::Delete { id }
                } else {
                    Route::NotFound { path: path.to_owned() }
                }
            },
            _ => Route::UnsupportedMethod,
        }
    } else {
        Route::NotFound { path: path.to_owned() }
    }
}

} // verus!
