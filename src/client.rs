//! The client's side of an upload: checking and describing the files of a
//! batch, counting progress, and turning the server's reply into URLs.
use crate::naming::{join_path, join_spec};
use crate::wire::{is_word, joined, lemma_split_joined, split_words, views, words};
use vstd::prelude::*;

verus! {

/// What the client learned of one local file before sending anything.
#[derive(Clone, Debug)]
pub struct LocalFile {
    /// Whether the path names an existing regular file.
    pub exists: bool,
    /// The final component of the path, if it is valid UTF-8.
    pub name: Option<String>,
    /// The file's length in bytes.
    pub len: u64,
}

/// One part of the multipart body: the file's name, length and media type.
#[derive(Clone, Debug)]
pub struct Part {
    pub file_name: String,
    pub length: u64,
    pub content_type: String,
}

/// Why a batch failed.
#[derive(Clone, Debug)]
pub enum ClientError {
    /// A path does not name an existing file.
    MissingFile,
    /// A path has no usable file name.
    InvalidFileName,
    /// The server answered with a status other than success, and this body.
    UploadFailed(String),
    /// The server returned a different number of paths than files were sent.
    ProtocolMismatch { expected: usize, received: usize },
}

/// What `mime_guess::from_path(name).first()` gives, as text.
pub uninterp spec fn mime_guess_of(name: Seq<char>) -> Option<Seq<char>>;

/// The media type sent for a file: the first guess from its extension, or
/// plain text where there is none.
pub open spec fn content_type_spec(name: Seq<char>) -> Seq<char> {
    match mime_guess_of(name) {
        Some(m) => m,
        None => "text/plain"@,
    }
}

/// Relies on mime_guess::from_path and MimeGuess::first, which look the
/// extension up in a fixed table.
#[verifier::external_body]
fn guess_mime(name: &str) -> (r: Option<String>)
    ensures
        match r {
            Some(m) => mime_guess_of(name@) == Some(m@),
            None => mime_guess_of(name@) is None,
        },
{
    mime_guess::from_path(name).first().map(|m| m.to_string())
}

/// Relies on mime::TEXT_PLAIN, whose text form is `text/plain`.
#[verifier::external_body]
fn text_plain() -> (r: String)
    ensures
        r@ == "text/plain"@,
{
    mime::TEXT_PLAIN.to_string()
}

/// The media type to send for a file named `name`.
pub fn content_type(name: &str) -> (r: String)
    ensures
        r@ == content_type_spec(name@),
{
    match guess_mime(name) {
        Some(m) => m,
        None => text_plain(),
    }
}

/// The index of the first file that cannot be sent, if any.
pub open spec fn first_bad(files: Seq<LocalFile>, i: int) -> bool {
    &&& 0 <= i < files.len()
    &&& (!files[i].exists || files[i].name is None)
    &&& forall|j: int| 0 <= j < i ==> files[j].exists && files[j].name is Some
}

/// Checks every file of a batch before anything is sent, and describes each
/// as a part, in the order given. The first file that is missing, or has no
/// usable name, fails the whole batch.
pub fn plan_upload(files: &Vec<LocalFile>) -> (r: Result<Vec<Part>, ClientError>)
    ensures
        match r {
            Ok(parts) => {
                &&& forall|j: int| 0 <= j < files@.len() ==> files@[j].exists && (
                #[trigger] files@[j]).name is Some
                &&& parts@.len() == files@.len()
                &&& forall|j: int|
                    0 <= j < parts@.len() ==> {
                        &&& (#[trigger] parts@[j]).file_name@ == files@[j].name.unwrap()@
                        &&& parts@[j].length == files@[j].len
                        &&& parts@[j].content_type@ == content_type_spec(
                            files@[j].name.unwrap()@,
                        )
                    }
            },
            Err(e) => exists|i: int|
                first_bad(files@, i) && (if !files@[i].exists {
                    e is MissingFile
                } else {
                    e is InvalidFileName
                }),
        },
{
    let mut parts: Vec<Part> = Vec::new();
    let mut i: usize = 0;
    while i < files.len()
        invariant
            i <= files@.len(),
            parts@.len() == i,
            forall|j: int| 0 <= j < i ==> files@[j].exists && (#[trigger] files@[j]).name is Some,
            forall|j: int|
                0 <= j < i ==> {
                    &&& (#[trigger] parts@[j]).file_name@ == files@[j].name.unwrap()@
                    &&& parts@[j].length == files@[j].len
                    &&& parts@[j].content_type@ == content_type_spec(files@[j].name.unwrap()@)
                },
        decreases files@.len() - i,
    {
        let f = &files[i];
        if !f.exists {
            assert(first_bad(files@, i as int));
            return Err(ClientError::MissingFile);
        }
        match &f.name {
            None => {
                assert(first_bad(files@, i as int));
                return Err(ClientError::InvalidFileName);
            },
            Some(name) => {
                let ct = content_type(name.as_str());
                parts.push(Part { file_name: name.clone(), length: f.len, content_type: ct });
            },
        }
        i = i + 1;
    }
    Ok(parts)
}

/// Bytes of one file sent so far, never counted past its length.
#[derive(Clone, Copy, Debug)]
pub struct Progress {
    pub sent: u64,
    pub total: u64,
}

impl Progress {
    pub open spec fn wf(self) -> bool {
        self.sent <= self.total
    }

    pub fn new(total: u64) -> (r: Progress)
        ensures
            r.wf(),
            r.sent == 0,
            r.total == total,
    {
        Progress { sent: 0, total }
    }

    /// Counts a chunk of `n` bytes; the count stops at the total. Returns
    /// whether the file is now fully sent.
    pub fn advance(&mut self, n: u64) -> (done: bool)
        requires
            old(self).wf(),
        ensures
            final(self).wf(),
            final(self).total == old(self).total,
            final(self).sent as int == if old(self).sent + n < old(self).total {
                old(self).sent + n
            } else {
                old(self).total as int
            },
            done == (final(self).sent == final(self).total),
    {
        if n < self.total - self.sent {
            self.sent = self.sent + n;
        } else {
            self.sent = self.total;
        }
        self.sent == self.total
    }
}

/// Where uploads are sent.
pub fn upload_url(base: &str) -> (r: String)
    ensures
        r@ == join_spec(base@, "upload"@),
{
    join_path(base, "upload")
}

/// The public URL of a file stored at `relative`.
pub open spec fn file_url_spec(base: Seq<char>, relative: Seq<char>) -> Seq<char> {
    join_spec(join_spec(base, "files"@), relative)
}

pub open spec fn urls_spec(base: Seq<char>, rel: Seq<Seq<char>>) -> Seq<Seq<char>> {
    rel.map_values(|w: Seq<char>| file_url_spec(base, w))
}

/// The public URL of a file stored at `relative`.
pub fn file_url(base: &str, relative: &str) -> (r: String)
    ensures
        r@ == file_url_spec(base@, relative@),
{
    let files = join_path(base, "files");
    join_path(files.as_str(), relative)
}

/// Reads the server's answer to a batch of `sent` files: on success, one URL
/// per returned path, in the order returned.
pub fn resolve_urls(base: &str, success: bool, body: &str, sent: usize) -> (r: Result<
    Vec<String>,
    ClientError,
>)
    ensures
        !success ==> (r matches Err(ClientError::UploadFailed(m)) && m@ == body@),
        success && words(body@).len() != sent ==> (r matches Err(
            ClientError::ProtocolMismatch { expected, received },
        ) && expected == sent && received == words(body@).len()),
        success && words(body@).len() == sent ==> (r matches Ok(urls) && views(urls@) == urls_spec(
            base@,
            words(body@),
        )),
{
    if !success {
        return Err(ClientError::UploadFailed(body.to_owned()));
    }
    let paths = split_words(body);
    if paths.len() != sent {
        return Err(ClientError::ProtocolMismatch { expected: sent, received: paths.len() });
    }
    let mut urls: Vec<String> = Vec::new();
    let mut i: usize = 0;
    while i < paths.len()
        invariant
            i <= paths@.len(),
            views(paths@) == words(body@),
            urls@.len() == i,
            views(urls@) == urls_spec(base@, views(paths@).subrange(0, i as int)),
        decreases paths@.len() - i,
    {
        let u = file_url(base, paths[i].as_str());
        proof {
            assert(views(paths@)[i as int] == paths@[i as int]@);
        }
        let ghost prev = urls@;
        urls.push(u);
        proof {
            let target = urls_spec(base@, views(paths@).subrange(0, i + 1));
            let before = urls_spec(base@, views(paths@).subrange(0, i as int));
            assert forall|j: int| 0 <= j < i + 1 implies views(urls@)[j] == target[j] by {
                if j < i {
                    assert(urls@[j] == prev[j]);
                    assert(views(prev)[j] == before[j]);
                }
            }
            assert(views(urls@) =~= target);
        }
        i = i + 1;
    }
    assert(views(paths@).subrange(0, paths@.len() as int) =~= views(paths@));
    Ok(urls)
}

/// A batch whose files were all stored gets back exactly one URL per file,
/// in the order the files were sent: the server joins the stored paths and the
/// client splits them again.
pub proof fn lemma_batch_urls(base: Seq<char>, stored: Seq<Seq<char>>)
    requires
        forall|i: int| 0 <= i < stored.len() ==> is_word(#[trigger] stored[i]),
    ensures
        words(joined(stored)).len() == stored.len(),
        urls_spec(base, words(joined(stored))) == urls_spec(base, stored),
        forall|i: int|
            0 <= i < stored.len() ==> #[trigger] urls_spec(base, words(joined(stored)))[i]
                == file_url_spec(base, stored[i]),
{
    lemma_split_joined(stored);
}

} // verus!
