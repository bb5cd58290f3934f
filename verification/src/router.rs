//! From a request's method and path to what is to be done, and from what
//! the file store answered to the response.
//!
//! The router touches no file. It says which operation a request asks
//! for; the caller performs it on the directory and hands the outcome to
//! the function that builds the response.

use vstd::prelude::*;
use vstd::string::*;
use vstd::utf8::encode_utf8;
use crate::path_guard::{Filename, PathError, validate, checked, is_safe_name};
use crate::number::{decimal, decimal_text};
use crate::text::{chars_of, text_of};

verus! {

pub const STATUS_OK: u16 = 200;

pub const STATUS_CREATED: u16 = 201;

pub const STATUS_BAD_REQUEST: u16 = 400;

pub const STATUS_NOT_FOUND: u16 = 404;

pub const STATUS_SERVER_ERROR: u16 = 500;

/// The request methods that the router tells apart.
#[derive(Clone, Copy, Debug, PartialEq, Eq, Structural)]
pub enum Method {
    Get,
    Post,
    /// Any method but GET and POST.
    Other,
}

/// A response: status, the two headers that a download carries, and body.
#[derive(Debug, PartialEq, Eq)]
pub struct Response {
    pub status: u16,
    pub content_type: Option<String>,
    pub content_disposition: Option<String>,
    pub body: Vec<u8>,
}

/// A `Response` as plain values.
pub struct ResponseView {
    pub status: u16,
    pub content_type: Option<Seq<char>>,
    pub content_disposition: Option<Seq<char>>,
    pub body: Seq<u8>,
}

impl View for Response {
    type V = ResponseView;

    open spec fn view(&self) -> ResponseView {
        ResponseView {
            status: self.status,
            content_type: text_of(self.content_type),
            content_disposition: text_of(self.content_disposition),
            body: self.body@,
        }
    }
}

/// Why a file could not be stored.
#[derive(Debug, PartialEq, Eq)]
pub enum StoreError {
    /// The file could not be created; the text is the cause.
    Create(String),
    /// The file was created but not written; the text is the cause.
    Write(String),
}

/// What a request asks for.
#[derive(Debug, PartialEq, Eq)]
pub enum Route {
    /// List the directory.
    List,
    /// Read the file of this name.
    Fetch(Filename),
    /// Write the request's body to the file of this name.
    Store(Filename),
    /// Answer at once, without touching the directory.
    Reply(Response),
}

/// A `Route` as plain values.
pub enum RouteView {
    List,
    Fetch(Seq<char>),
    Store(Seq<char>),
    Reply(ResponseView),
}

impl View for Route {
    type V = RouteView;

    open spec fn view(&self) -> RouteView {
        match self {
            Route::List => RouteView::List,
            Route::Fetch(name) => RouteView::Fetch(name@),
            Route::Store(name) => RouteView::Store(name@),
            Route::Reply(response) => RouteView::Reply(response@),
        }
    }
}

/// A plain-text response without headers.
pub open spec fn text_reply(status: u16, text: Seq<char>) -> ResponseView {
    ResponseView { status, content_type: None, content_disposition: None, body: encode_utf8(text) }
}

/// The names joined by line feeds.
pub open spec fn joined(names: Seq<Seq<char>>) -> Seq<char>
    decreases names.len(),
{
    if names.len() == 0 {
        Seq::<char>::empty()
    } else if names.len() == 1 {
        names[0]
    } else {
        joined(names.drop_last()) + "\n"@ + names.last()
    }
}

/// The body of a listing: one name per line under a heading, or a notice
/// that there is none.
pub open spec fn listing_text(names: Seq<Seq<char>>) -> Seq<char> {
    if names.len() == 0 {
        "No files available\n"@
    } else {
        "Available files:\n"@ + joined(names) + "\n"@
    }
}

/// The characters of each name of a listing.
pub open spec fn names_of(names: Seq<String>) -> Seq<Seq<char>> {
    names.map_values(|s: String| s@)
}

/// The response to a listing, from the names found or the cause of the failure.
pub open spec fn list_reply(listing: Result<Seq<Seq<char>>, Seq<char>>) -> ResponseView {
    match listing {
        Ok(names) => text_reply(STATUS_OK, listing_text(names)),
        Err(cause) => text_reply(STATUS_SERVER_ERROR, "Error listing files: "@ + cause),
    }
}

/// The response to a download, from the file's bytes or their absence.
pub open spec fn fetch_reply(name: Seq<char>, contents: Option<Seq<u8>>) -> ResponseView {
    match contents {
        Some(bytes) => ResponseView {
            status: STATUS_OK,
            content_type: Some("application/octet-stream"@),
            content_disposition: Some("attachment; filename=\""@ + name + "\""@),
            body: bytes,
        },
        None => text_reply(STATUS_NOT_FOUND, "File '"@ + name + "' not found"@),
    }
}

/// The response to an upload of `len` bytes, from the outcome of the write.
pub open spec fn store_reply(name: Seq<char>, len: nat, outcome: Result<(), StoreError>) -> ResponseView {
    match outcome {
        Ok(_) => text_reply(
            STATUS_CREATED,
            "File '"@ + name + "' uploaded successfully ("@ + decimal(len) + " bytes)"@,
        ),
        Err(StoreError::Create(cause)) => text_reply(
            STATUS_SERVER_ERROR,
            "Error creating file: "@ + cause@,
        ),
        Err(StoreError::Write(cause)) => text_reply(
            STATUS_SERVER_ERROR,
            "Error writing file: "@ + cause@,
        ),
    }
}

/// The number of slashes that `s` has at `from` before anything else.
pub open spec fn leading_slashes(s: Seq<char>, from: int) -> int
    decreases s.len() - from,
{
    if 0 <= from < s.len() && s[from] == '/' {
        leading_slashes(s, from + 1)
    } else {
        from
    }
}

/// The name that a path asks for: the path without its leading slashes.
pub open spec fn requested_name(path: Seq<char>) -> Seq<char> {
    path.subrange(leading_slashes(path, 0), path.len() as int)
}

/// What a request with this method and path asks for.
pub open spec fn routed(method: Method, path: Seq<char>) -> RouteView {
    let name = requested_name(path);
    match method {
        Method::Get => match checked(name) {
            Ok(n) => RouteView::Fetch(n),
            Err(PathError::Empty) => RouteView::List,
            Err(PathError::Unsafe) => RouteView::Reply(
                text_reply(STATUS_BAD_REQUEST, "Invalid filename"@),
            ),
        },
        Method::Post => match checked(name) {
            Ok(n) => RouteView::Store(n),
            Err(PathError::Empty) => RouteView::Reply(
                text_reply(STATUS_BAD_REQUEST, "Filename required"@),
            ),
            Err(PathError::Unsafe) => RouteView::Reply(
                text_reply(STATUS_BAD_REQUEST, "Invalid filename"@),
            ),
        },
        Method::Other => RouteView::Reply(text_reply(STATUS_NOT_FOUND, "Not found"@)),
    }
}

/// What `leading_slashes` counts are slashes, and it stops at the first
/// character that is none.
pub proof fn lemma_leading_slashes(s: Seq<char>, from: int)
    requires
        0 <= from <= s.len(),
    ensures
        from <= leading_slashes(s, from) <= s.len(),
        forall|i: int| from <= i < leading_slashes(s, from) ==> #[trigger] s[i] == '/',
        leading_slashes(s, from) < s.len() ==> s[leading_slashes(s, from)] != '/',
    decreases s.len() - from,
{
    if from < s.len() && s[from] == '/' {
        lemma_leading_slashes(s, from + 1);
    }
}

/// A plain-text response without headers.
pub fn text_response(status: u16, text: &str) -> (r: Response)
    ensures
        r@ == text_reply(status, text@),
{
    Response { status, content_type: None, content_disposition: None, body: text.as_bytes_vec() }
}

/// The response to a request that no route takes.
pub fn not_found() -> (r: Response)
    ensures
        r@ == text_reply(STATUS_NOT_FOUND, "Not found"@),
{
    text_response(STATUS_NOT_FOUND, "Not found")
}

/// Decides what a request asks for. GET lists the directory where the path
/// names nothing and reads the named file otherwise; POST writes the named
/// file; a name that the guard refuses is answered with 400, and every
/// other method with 404.
pub fn route(method: Method, path: &str) -> (r: Route)
    ensures
        r@ == routed(method, path@),
{
    match method {
        Method::Other => Route::Reply(not_found()),
        _ => {
            let chars = chars_of(path);
            let mut k: usize = 0;
            while k < chars.len() && chars[k] == '/'
                invariant
                    k <= chars.len(),
                    leading_slashes(chars@, 0) == leading_slashes(chars@, k as int),
                decreases chars.len() - k,
            {
                k += 1;
            }
            let name = path.substring_char(k, chars.len());
            match validate(name) {
                Ok(accepted) => match method {
                    Method::Get => Route::Fetch(accepted),
                    _ => Route::Store(accepted),
                },
                Err(PathError::Unsafe) => Route::Reply(
                    text_response(STATUS_BAD_REQUEST, "Invalid filename"),
                ),
                Err(PathError::Empty) => match method {
                    Method::Get => Route::List,
                    _ => Route::Reply(text_response(STATUS_BAD_REQUEST, "Filename required")),
                },
            }
        },
    }
}

/// The response to a listing: the names found in the directory, in the
/// order in which they were found, or the cause of the failure.
pub fn list_response(listing: &Result<Vec<String>, String>) -> (r: Response)
    ensures
        r@ == list_reply(
            match *listing {
                Ok(names) => Ok(names_of(names@)),
                Err(cause) => Err(cause@),
            },
        ),
{
    match listing {
        Err(cause) => {
            let mut text = String::from_str("Error listing files: ");
            text.append(cause.as_str());
            text_response(STATUS_SERVER_ERROR, text.as_str())
        },
        Ok(names) => {
            if names.len() == 0 {
                return text_response(STATUS_OK, "No files available\n");
            }
            let ghost all = names_of(names@);
            let mut list = String::from_str(names[0].as_str());
            let mut i: usize = 1;
            assert(all.subrange(0, 1).len() == 1 && all.subrange(0, 1)[0] == names@[0]@);
            while i < names.len()
                invariant
                    1 <= i <= names.len(),
                    all == names_of(names@),
                    list@ == joined(all.subrange(0, i as int)),
                decreases names.len() - i,
            {
                list.append("\n");
                list.append(names[i].as_str());
                proof {
                    let upto = all.subrange(0, i + 1);
                    assert(upto.drop_last() =~= all.subrange(0, i as int));
                    assert(upto.last() == names@[i as int]@);
                }
                i += 1;
            }
            assert(all.subrange(0, i as int) =~= all);
            let mut text = String::from_str("Available files:\n");
            text.append(list.as_str());
            text.append("\n");
            text_response(STATUS_OK, text.as_str())
        },
    }
}

/// The response to a download: the file's bytes as an attachment, or 404
/// where the file could not be read.
pub fn fetch_response(name: &Filename, contents: Option<Vec<u8>>) -> (r: Response)
    ensures
        r@ == fetch_reply(
            name@,
            match contents {
                Some(bytes) => Some(bytes@),
                None => None,
            },
        ),
{
    match contents {
        Some(bytes) => {
            let mut disposition = String::from_str("attachment; filename=\"");
            disposition.append(name.as_str());
            disposition.append("\"");
            Response {
                status: STATUS_OK,
                content_type: Some(String::from_str("application/octet-stream")),
                content_disposition: Some(disposition),
                body: bytes,
            }
        },
        None => {
            let mut text = String::from_str("File '");
            text.append(name.as_str());
            text.append("' not found");
            text_response(STATUS_NOT_FOUND, text.as_str())
        },
    }
}

/// The response to an upload of `len` bytes: 201 with the count, or 500
/// with the cause where the file could not be created or written.
pub fn store_response(name: &Filename, len: usize, outcome: &Result<(), StoreError>) -> (r: Response)
    ensures
        r@ == store_reply(name@, len as nat, *outcome),
{
    match outcome {
        Ok(_) => {
            let mut text = String::from_str("File '");
            text.append(name.as_str());
            text.append("' uploaded successfully (");
            text.append(decimal_text(len).as_str());
            text.append(" bytes)");
            text_response(STATUS_CREATED, text.as_str())
        },
        Err(StoreError::Create(cause)) => {
            let mut text = String::from_str("Error creating file: ");
            text.append(cause.as_str());
            text_response(STATUS_SERVER_ERROR, text.as_str())
        },
        Err(StoreError::Write(cause)) => {
            let mut text = String::from_str("Error writing file: ");
            text.append(cause.as_str());
            text_response(STATUS_SERVER_ERROR, text.as_str())
        },
    }
}

/// The directory as the router's laws see it: the bytes kept under each name.
pub open spec fn written(files: Map<Seq<char>, Seq<u8>>, name: Seq<char>, body: Seq<u8>) -> Map<
    Seq<char>,
    Seq<u8>,
> {
    files.insert(name, body)
}

/// What a read of `name` finds in the directory.
pub open spec fn contents_of(files: Map<Seq<char>, Seq<u8>>, name: Seq<char>) -> Option<Seq<u8>> {
    if files.dom().contains(name) {
        Some(files[name])
    } else {
        None
    }
}

/// The directory after the bodies were written under `name`, one after another.
pub open spec fn written_all(
    files: Map<Seq<char>, Seq<u8>>,
    name: Seq<char>,
    bodies: Seq<Seq<u8>>,
) -> Map<Seq<char>, Seq<u8>>
    decreases bodies.len(),
{
    if bodies.len() == 0 {
        files
    } else {
        written(written_all(files, name, bodies.drop_last()), name, bodies.last())
    }
}

/// A GET whose path names nothing lists the directory, as a GET of `/` does.
pub proof fn law_empty_name_lists(path: Seq<char>)
    requires
        requested_name(path).len() == 0,
    ensures
        routed(Method::Get, path) == RouteView::List,
        routed(Method::Get, "/"@) == RouteView::List,
{
    reveal_strlit("/");
    let root = "/"@;
    lemma_leading_slashes(root, 1);
    assert(leading_slashes(root, 0) == 1) by {
        reveal_with_fuel(leading_slashes, 3);
    }
}

/// A method other than GET and POST is answered with 404, whatever the path.
pub proof fn law_unknown_method_not_found(path: Seq<char>)
    ensures
        routed(Method::Other, path) == RouteView::Reply(
            text_reply(STATUS_NOT_FOUND, "Not found"@),
        ),
        routed(Method::Other, path) matches RouteView::Reply(r) && r.status == 404,
{
}

/// The guard is the same for both methods: a POST stores under a name
/// exactly when a GET of the same path reads that name.
pub proof fn law_same_guard(path: Seq<char>)
    ensures
        routed(Method::Post, path) is Store <==> routed(Method::Get, path) is Fetch,
        routed(Method::Post, path) matches RouteView::Store(n) ==> routed(Method::Get, path)
            == RouteView::Fetch(n) && is_safe_name(n),
{
}

/// Where a POST of `path` with `body` was written, its response reports
/// the length of `body`, and a GET of the same path then answers 200 with
/// exactly `body`.
pub proof fn law_round_trip(files: Map<Seq<char>, Seq<u8>>, path: Seq<char>, body: Seq<u8>)
    requires
        routed(Method::Post, path) is Store,
    ensures
        ({
            let name = requested_name(path);
            let after = written(files, name, body);
            &&& routed(Method::Post, path) == RouteView::Store(name)
            &&& routed(Method::Get, path) == RouteView::Fetch(name)
            &&& store_reply(name, body.len(), Ok(())) == text_reply(
                STATUS_CREATED,
                "File '"@ + name + "' uploaded successfully ("@ + decimal(body.len()) + " bytes)"@,
            )
            &&& fetch_reply(name, contents_of(after, name)).status == STATUS_OK
            &&& fetch_reply(name, contents_of(after, name)).body == body
        }),
{
}

/// After any number of writes under one name, a read finds the body that
/// was written last.
pub proof fn law_last_writer_wins(
    files: Map<Seq<char>, Seq<u8>>,
    name: Seq<char>,
    bodies: Seq<Seq<u8>>,
)
    requires
        bodies.len() > 0,
    ensures
        contents_of(written_all(files, name, bodies), name) == Some(bodies.last()),
        fetch_reply(name, contents_of(written_all(files, name, bodies), name)).body
            == bodies.last(),
{
}

} // verus!
