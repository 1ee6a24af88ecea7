//! The static files of the web client: which file a request path names, and
//! the content type it is served with.

use vstd::prelude::*;

verus! {

/// The content type `mime_guess` gives a path (by its extension; an unknown
/// or missing extension gives `application/octet-stream`).
pub uninterp spec fn guessed_mime_type(path: Seq<char>) -> Seq<char>;

/// The text after the last `c` in `s` (all of `s` if there is none).
pub open spec fn after_last(s: Seq<char>, c: char) -> Seq<char>
    decreases s.len(),
{
    if s.len() == 0 {
        s
    } else if s.last() == c {
        Seq::empty()
    } else {
        after_last(s.drop_last(), c).push(s.last())
    }
}

/// The file name of a path: its last component.
pub open spec fn file_name(path: Seq<char>) -> Seq<char> {
    after_last(path, '/')
}

/// The final extension of a path: the text after the last `.` of its file name.
pub open spec fn final_extension(path: Seq<char>) -> Seq<char> {
    after_last(file_name(path), '.')
}

/// Whether a path has an extension in the plain sense of `Path::extension`:
/// it does not end in `/`, its file name is neither `.` nor `..`, and the last
/// `.` of the file name is not its first character.
pub open spec fn has_plain_extension(path: Seq<char>) -> bool {
    let name = file_name(path);
    &&& path.len() > 0
    &&& path.last() != '/'
    &&& name != seq!['.']
    &&& name != seq!['.', '.']
    &&& name.contains('.')
    &&& final_extension(path).len() + 1 < name.len()
}

/// The content type of a file path, as `mime_guess::from_path` followed by
/// `first_or_octet_stream` gives it. The guess depends on the path's
/// extension alone (`from_path` takes `Path::extension` and looks it up with
/// `from_ext`), through the crate's fixed extension table; that table is not
/// restated here, so the result is only named. For a path with a plain
/// extension, the result is the one of the path `f.<extension>`: the same
/// for every path with the same final extension.
#[verifier::external_body]
fn guess_mime_type(path: &str) -> (mime: String)
    ensures
        mime@ == guessed_mime_type(path@),
        has_plain_extension(path@) ==> mime@ == guessed_mime_type(
            seq!['f', '.'] + final_extension(path@),
        ),
{
    mime_guess::from_path(path).first_or_octet_stream().as_ref().to_owned()
}

/// The file a request path names: the path itself, or `index.html` for the
/// empty path.
pub open spec fn requested_file(path: Seq<char>) -> Seq<char> {
    if path.len() == 0 {
        "index.html"@
    } else {
        path
    }
}

/// A request for a static file: the file's path and its content type.
#[derive(Debug, Clone, PartialEq, Eq)]
pub struct FileRequest {
    pub path: String,
    pub content_type: String,
}

/// The file a request path names, with the content type guessed from its
/// extension: for a file with a plain extension, the content type depends on
/// its final extension alone (the text after the last `.` of its name).
pub fn file_request(path: &str) -> (request: FileRequest)
    ensures
        request.path@ == requested_file(path@),
        request.content_type@ == guessed_mime_type(requested_file(path@)),
        has_plain_extension(requested_file(path@)) ==> request.content_type@ == guessed_mime_type(
            seq!['f', '.'] + final_extension(requested_file(path@)),
        ),
{
    let file = if path.unicode_len() == 0 {
        "index.html".to_owned()
    } else {
        path.to_owned()
    };
    proof {
        reveal_strlit("index.html");
    }
    let content_type = guess_mime_type(file.as_str());
    FileRequest { path: file, content_type }
}

} // verus!
