//! Classification of an inbound request by its method and path.
use vstd::prelude::*;

verus! {

/// The HTTP request methods the service can be asked with.
#[derive(Clone, Copy, Debug, PartialEq, Eq, Structural)]
pub enum HttpMethod {
    Get,
    Head,
    Post,
    Put,
    Delete,
    Connect,
    Options,
    Trace,
    Patch,
    Other,
}

/// What the service does with a request.
#[derive(Clone, Copy, Debug, PartialEq, Eq, Structural)]
pub enum Route {
    /// Read the body as an image and answer with the text found in it.
    Recognize,
    /// Answer with the static upload page.
    UploadPage,
}

/// The one path on which text recognition is offered.
pub open spec fn recognize_path() -> Seq<char> {
    seq!['/', 'i', 'm', 'g', '2', 't', 'x', 't']
}

/// Only `POST` on exactly the recognition path asks for recognition; every
/// other method and path is sent the upload page.
pub open spec fn route_of(method: HttpMethod, path: Seq<char>) -> Route {
    if method == HttpMethod::Post && path == recognize_path() {
        Route::Recognize
    } else {
        Route::UploadPage
    }
}

/// Classifies a request by exact method and path; no prefix or query matching.
pub fn route(method: HttpMethod, path: &str) -> (r: Route)
    ensures
        r == route_of(method, path@),
{
    let target = "/img2txt";
    proof {
        reveal_strlit("/img2txt");
    }
    assert(target@ =~= recognize_path());
    if method == HttpMethod::Post && path_equals(path, target) {
        Route::Recognize
    } else {
        Route::UploadPage
    }
}

/// Character-by-character equality of two strings.
fn path_equals(a: &str, b: &str) -> (r: bool)
    ensures
        r == (a@ == b@),
{
    let n = a.unicode_len();
    if n != b.unicode_len() {
        return false;
    }
    let mut i: usize = 0;
    while i < n
        invariant
            n == a@.len(),
            n == b@.len(),
            i <= n,
            forall|j: int| 0 <= j < i ==> a@[j] == b@[j],
        decreases n - i,
    {
        if a.get_char(i) != b.get_char(i) {
            return false;
        }
        i = i + 1;
    }
    assert(a@ =~= b@);
    true
}

} // verus!
