//! Which paths of the bundled front end are open to everyone, and what a
//! request for a path is answered with, given the files that are bundled.

use vstd::prelude::*;
use vstd::string::StringExecFns;
use crate::text::{has_prefix, same_text, starts_with};

verus! {

/// The paths that are served without a login: every path that begins
/// with one of the five public prefixes.
pub open spec fn is_public(path: Seq<char>) -> bool {
    ||| starts_with(path, "login"@)
    ||| starts_with(path, "register"@)
    ||| starts_with(path, "_app"@)
    ||| starts_with(path, "favicon.png"@)
    ||| starts_with(path, "robots.txt"@)
}

/// Whether a request path (without its leading slash) may be served to a
/// caller who is not logged in.
pub fn path_public(n: &str) -> (r: bool)
    ensures
        r == is_public(n@),
{
    has_prefix(n, "login") || has_prefix(n, "register") || has_prefix(n, "_app") || has_prefix(
        n,
        "favicon.png",
    ) || has_prefix(n, "robots.txt")
}

/// A request path without its leading slashes.
pub open spec fn strip(path: Seq<char>) -> Seq<char>
    decreases path.len(),
{
    if path.len() > 0 && path[0] == '/' {
        strip(path.skip(1))
    } else {
        path
    }
}

/// Removes the leading slashes of a request path.
pub fn trim_slashes(path: &str) -> (r: &str)
    ensures
        r@ == strip(path@),
{
    let n: usize = path.unicode_len();
    let mut i: usize = 0;
    assert(path@.skip(0) =~= path@);
    while i < n && path.get_char(i) == '/'
        invariant
            i <= n,
            n == path@.len(),
            strip(path@) == strip(path@.skip(i as int)),
        decreases n - i,
    {
        assert(path@.skip(i as int)[0] == '/');
        assert(path@.skip(i as int).skip(1) =~= path@.skip(i + 1));
        i = i + 1;
    }
    assert(path@.subrange(i as int, n as int) =~= path@.skip(i as int));
    assert(i < n ==> path@.skip(i as int)[0] != '/');
    path.substring_char(i, n)
}

/// The content type that `mime_guess` gives a path by its extension, or
/// that of arbitrary bytes where it knows none.
pub uninterp spec fn guessed_type(path: Seq<char>) -> Seq<char>;

/// Asks `mime_guess::from_path` for the types of a path and takes the
/// first with `first_or_octet_stream`. The guess reads the path's text
/// and a table that is compiled in, and nothing else.
#[verifier::external_body]
fn mime_of(path: &str) -> (r: String)
    ensures
        r@ == guessed_type(path@),
{
    mime_guess::from_path(path).first_or_octet_stream().as_ref().to_string()
}

/// The content type under which the file at `path` is sent.
pub fn content_type(path: &str) -> (r: String)
    ensures
        r@ == guessed_type(path@),
{
    mime_of(path)
}

/// Whether `c` occurs in `path`.
pub open spec fn has_char(path: Seq<char>, c: char) -> bool {
    exists|i: int| 0 <= i < path.len() && path[i] == c
}

/// Whether a path names a file rather than a directory: it has a dot in it.
pub fn names_file(path: &str) -> (r: bool)
    ensures
        r == has_char(path@, '.'),
{
    let n: usize = path.unicode_len();
    let mut i: usize = 0;
    while i < n
        invariant
            i <= n,
            n == path@.len(),
            forall|j: int| 0 <= j < i ==> path@[j] != '.',
        decreases n - i,
    {
        if path.get_char(i) == '.' {
            return true;
        }
        i = i + 1;
    }
    false
}

/// Which file was looked for on behalf of a request.
#[derive(Clone, Copy, Debug, PartialEq, Eq, Structural)]
pub enum Tried {
    /// The front page, for the empty path and for `index.html`.
    Front,
    /// The file at the request's path.
    Path,
    /// The `index.html` of the directory at the request's path.
    DirectoryIndex,
    /// The page that stands in for what is missing, `404.html`.
    Fallback,
}

/// What to do when the file that was looked for is not bundled.
#[derive(Clone, Copy, Debug, PartialEq, Eq, Structural)]
pub enum Next {
    /// Look for the directory's `index.html`.
    TryDirectoryIndex,
    /// Look for the fallback page.
    TryFallback,
    /// Answer that there is no such thing.
    NotFound,
}

/// The file that is looked for at a stage of a request for `path`.
pub open spec fn file_of(tried: Tried, path: Seq<char>) -> Seq<char> {
    match tried {
        Tried::Front => "index.html"@,
        Tried::Path => path,
        Tried::DirectoryIndex => path + "/index.html"@,
        Tried::Fallback => "404.html"@,
    }
}

/// The content type under which the file of a stage is sent: the front
/// page and the fallback page as HTML in UTF-8, a directory's index as
/// HTML, any other file as its path lets guess.
pub open spec fn type_of(tried: Tried, path: Seq<char>) -> Seq<char> {
    match tried {
        Tried::Front => "text/html; charset=utf-8"@,
        Tried::Path => guessed_type(path),
        Tried::DirectoryIndex => "text/html"@,
        Tried::Fallback => "text/html; charset=utf-8"@,
    }
}

/// What follows a miss: a missing front page and a missing fallback page
/// are not found; a missing path with a dot in it names a file, which is
/// not found; any other missing path may name a directory, whose index
/// is looked for; after a missing directory index the fallback page.
pub open spec fn after_miss_spec(tried: Tried, path: Seq<char>) -> Next {
    match tried {
        Tried::Front => Next::NotFound,
        Tried::Path => if has_char(path, '.') {
            Next::NotFound
        } else {
            Next::TryDirectoryIndex
        },
        Tried::DirectoryIndex => Next::TryFallback,
        Tried::Fallback => Next::NotFound,
    }
}

/// Decides what follows when the file of a stage is not bundled.
pub fn after_miss(tried: Tried, path: &str) -> (r: Next)
    ensures
        r == after_miss_spec(tried, path@),
{
    match tried {
        Tried::Front => Next::NotFound,
        Tried::Path => {
            if names_file(path) {
                Next::NotFound
            } else {
                Next::TryDirectoryIndex
            }
        },
        Tried::DirectoryIndex => Next::TryFallback,
        Tried::Fallback => Next::NotFound,
    }
}

/// The file to look for at a stage of a request for `path`.
pub fn asset_path(tried: Tried, path: &str) -> (r: String)
    ensures
        r@ == file_of(tried, path@),
{
    match tried {
        Tried::Front => "index.html".to_owned(),
        Tried::Path => path.to_owned(),
        Tried::DirectoryIndex => path.to_owned().concat("/index.html"),
        Tried::Fallback => "404.html".to_owned(),
    }
}

/// The content type under which the file of a stage is sent.
pub fn asset_type(tried: Tried, path: &str) -> (r: String)
    ensures
        r@ == type_of(tried, path@),
{
    match tried {
        Tried::Front => "text/html; charset=utf-8".to_owned(),
        Tried::Path => content_type(path),
        Tried::DirectoryIndex => "text/html".to_owned(),
        Tried::Fallback => "text/html; charset=utf-8".to_owned(),
    }
}

/// The answer to a request for a path of the front end.
#[derive(Debug, PartialEq, Eq)]
pub enum Answer {
    /// A temporary redirect to the login page.
    Redirect,
    /// The bundled file `path`, sent as `content_type`.
    File { path: String, content_type: String },
    /// Not found, with the body `404`.
    NotFound,
}

/// The mathematical value of an [`Answer`].
pub enum AnswerView {
    Redirect,
    File { path: Seq<char>, content_type: Seq<char> },
    NotFound,
}

impl View for Answer {
    type V = AnswerView;

    open spec fn view(&self) -> AnswerView {
        match *self {
            Answer::Redirect => AnswerView::Redirect,
            Answer::File { path, content_type } => AnswerView::File {
                path: path@,
                content_type: content_type@,
            },
            Answer::NotFound => AnswerView::NotFound,
        }
    }
}

impl Answer {
    /// The HTTP status of an answer: a temporary redirect, success, or
    /// not found. The fallback page is sent as a success too.
    pub fn status(&self) -> (r: u16)
        ensures
            r == match *self {
                Answer::Redirect => 307u16,
                Answer::File { .. } => 200u16,
                Answer::NotFound => 404u16,
            },
    {
        match self {
            Answer::Redirect => 307,
            Answer::File { .. } => 200,
            Answer::NotFound => 404,
        }
    }

    /// Where a redirect leads: the login page.
    pub fn location() -> (r: &'static str)
        ensures
            r@ == "/login"@,
    {
        "/login"
    }

    /// The body of an answer that found nothing.
    pub fn not_found_body() -> (r: &'static str)
        ensures
            r@ == "404"@,
    {
        "404"
    }
}

/// The file of a stage, as it is sent.
pub open spec fn sent(tried: Tried, path: Seq<char>) -> AnswerView {
    AnswerView::File { path: file_of(tried, path), content_type: type_of(tried, path) }
}

/// The answer to a request for `uri_path` when the files named in
/// `present` are bundled. With `path` the request's path without its
/// leading slashes:
/// - a caller who is not logged in is sent to the login page unless the
///   path is public;
/// - the empty path and `index.html` are the front page, or not found
///   where there is none;
/// - a path that is bundled is that file;
/// - a missing path with a dot in it is not found;
/// - any other missing path is the first that is bundled of its
///   directory's index and the fallback page, or not found.
pub open spec fn served(authenticated: bool, uri_path: Seq<char>, present: Set<Seq<char>>) -> AnswerView {
    let path = strip(uri_path);
    if !authenticated && !is_public(path) {
        AnswerView::Redirect
    } else if path.len() == 0 || path == "index.html"@ {
        if present.contains(file_of(Tried::Front, path)) {
            sent(Tried::Front, path)
        } else {
            AnswerView::NotFound
        }
    } else if present.contains(path) {
        sent(Tried::Path, path)
    } else if has_char(path, '.') {
        AnswerView::NotFound
    } else if present.contains(file_of(Tried::DirectoryIndex, path)) {
        sent(Tried::DirectoryIndex, path)
    } else if present.contains(file_of(Tried::Fallback, path)) {
        sent(Tried::Fallback, path)
    } else {
        AnswerView::NotFound
    }
}

/// The names that a list of bundled files holds.
pub open spec fn names_in(assets: Seq<String>) -> Set<Seq<char>> {
    Set::new(|name: Seq<char>| exists|i: int| 0 <= i < assets.len() && (#[trigger] assets[i])@ == name)
}

/// Whether a file of the name `name` is bundled.
pub fn holds(assets: &Vec<String>, name: &str) -> (r: bool)
    ensures
        r == names_in(assets@).contains(name@),
{
    let mut i: usize = 0;
    while i < assets.len()
        invariant
            i <= assets@.len(),
            forall|j: int| 0 <= j < i ==> (#[trigger] assets@[j])@ != name@,
        decreases assets@.len() - i,
    {
        if same_text(assets[i].as_str(), name) {
            return true;
        }
        i = i + 1;
    }
    false
}

/// Looks for the file of a stage among the bundled files.
pub fn lookup(tried: Tried, path: &str, assets: &Vec<String>) -> (r: Option<Answer>)
    ensures
        match r {
            Some(answer) => names_in(assets@).contains(file_of(tried, path@)) && answer@ == sent(
                tried,
                path@,
            ),
            None => !names_in(assets@).contains(file_of(tried, path@)),
        },
{
    let file = asset_path(tried, path);
    if holds(assets, file.as_str()) {
        Some(Answer::File { path: file, content_type: asset_type(tried, path) })
    } else {
        None
    }
}

/// Answers a request for the path `uri_path` of the front end, given
/// whether the caller is logged in and the names of the bundled files.
pub fn static_handler(authenticated: bool, uri_path: &str, assets: &Vec<String>) -> (r: Answer)
    ensures
        r@ == served(authenticated, uri_path@, names_in(assets@)),
{
    let path = trim_slashes(uri_path);
    if !authenticated && !path_public(path) {
        return Answer::Redirect;
    }
    let first = if path.unicode_len() == 0 || same_text(path, "index.html") {
        Tried::Front
    } else {
        Tried::Path
    };
    match lookup(first, path, assets) {
        Some(answer) => {
            return answer;
        },
        None => {},
    }
    match after_miss(first, path) {
        Next::TryDirectoryIndex => {
            match lookup(Tried::DirectoryIndex, path, assets) {
                Some(answer) => {
                    return answer;
                },
                None => {},
            }
            match after_miss(Tried::DirectoryIndex, path) {
                Next::TryFallback => match lookup(Tried::Fallback, path, assets) {
                    Some(answer) => answer,
                    None => Answer::NotFound,
                },
                _ => Answer::NotFound,
            }
        },
        _ => Answer::NotFound,
    }
}

} // verus!
