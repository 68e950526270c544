//! Storage names: a random identifier under a day bucket, keeping the
//! extension of the name the file was sent with.
use crate::timestamp::CalendarTime;
use vstd::prelude::*;

verus! {

/// The name given to a part that arrives without a file name.
pub const UNNAMED: &'static str = "unnamed.txt";

/// The length of a generated identifier.
pub const ID_LEN: usize = 21;

/// What `Path::extension` gives for a file name: the text after the last dot of
/// its final component, if there is one.
pub uninterp spec fn path_extension(s: Seq<char>) -> Option<Seq<char>>;

/// A character of the URL-safe identifier alphabet.
pub open spec fn is_id_char(c: char) -> bool {
    c == '_' || c == '-' || ('0' <= c && c <= '9') || ('a' <= c && c <= 'z') || ('A' <= c
        && c <= 'Z')
}

pub open spec fn is_identifier(id: Seq<char>) -> bool {
    &&& id.len() == ID_LEN
    &&& forall|i: int| 0 <= i < id.len() ==> is_id_char(#[trigger] id[i])
}

/// The file name kept on disk: the identifier, then a dot and the extension
/// where the original name has a non-empty one.
pub open spec fn stored_name_spec(id: Seq<char>, ext: Option<Seq<char>>) -> Seq<char> {
    match ext {
        Some(e) => if e.len() > 0 {
            id + seq!['.'] + e
        } else {
            id
        },
        None => id,
    }
}

/// The text of an optional string.
pub open spec fn opt_view(o: Option<&str>) -> Option<Seq<char>> {
    match o {
        Some(f) => Some(f@),
        None => None,
    }
}

/// The name a part is handled under.
pub open spec fn part_name(filename: Option<Seq<char>>) -> Seq<char> {
    match filename {
        Some(f) => f,
        None => UNNAMED@,
    }
}

/// The relative path of a stored file: its bucket, a slash, its stored name.
pub open spec fn stored_path_spec(bucket: Seq<char>, id: Seq<char>, filename: Option<Seq<char>>) -> Seq<char> {
    bucket + seq!['/'] + stored_name_spec(id, path_extension(part_name(filename)))
}

/// Relies on std::path::Path::extension; the name is valid UTF-8, so the
/// extension converts without loss.
#[verifier::external_body]
fn extension_of(name: &str) -> (r: Option<String>)
    ensures
        match r {
            Some(e) => path_extension(name@) == Some(e@),
            None => path_extension(name@) is None,
        },
{
    std::path::Path::new(name).extension().map(|e| e.to_string_lossy().into_owned())
}

/// Relies on nanoid::format with nanoid's default random source and its `SAFE`
/// alphabet: the result has the requested length and only alphabet characters,
/// all of them ASCII.
#[verifier::external_body]
fn new_identifier() -> (r: String)
    ensures
        is_identifier(r@),
{
    nanoid::format(nanoid::rngs::default, &nanoid::alphabet::SAFE, ID_LEN)
}

/// The name kept on disk for a file sent as `filename`, with identifier `id`.
pub fn stored_name(id: &str, filename: &str) -> (r: String)
    ensures
        r@ == stored_name_spec(id@, path_extension(filename@)),
{
    let mut s = id.to_owned();
    match extension_of(filename) {
        Some(e) => {
            if e.as_str().unicode_len() > 0 {
                s.append(".");
                s.append(e.as_str());
                proof {
                    reveal_strlit(".");
                }
                assert(s@ =~= stored_name_spec(id@, path_extension(filename@)));
            }
        },
        None => {},
    }
    s
}

/// The relative path, under the storage root, of a part named `filename`
/// (or unnamed) stored with identifier `id` in day bucket `bucket`.
pub fn stored_path(bucket: &str, id: &str, filename: Option<&str>) -> (r: String)
    ensures
        r@ == stored_path_spec(bucket@, id@, opt_view(filename)),
{
    let name = match filename {
        Some(f) => f,
        None => UNNAMED,
    };
    let file = stored_name(id, name);
    let mut s = bucket.to_owned();
    s.append("/");
    s.append(file.as_str());
    proof {
        reveal_strlit("/");
    }
    assert(s@ =~= stored_path_spec(bucket@, id@, opt_view(filename)));
    s
}

/// Names a part that arrives at time `when`: a fresh identifier under the
/// day bucket of `when`.
pub fn name_for(filename: Option<&str>, when: &CalendarTime) -> (r: String)
    ensures
        exists|id: Seq<char>|
            is_identifier(id) && r@ == #[trigger] stored_path_spec(when.bucket_spec(), id, opt_view(filename)),
{
    let bucket = when.bucket();
    let id = new_identifier();
    let r = stored_path(bucket.as_str(), id.as_str(), filename);
    assert(is_identifier(id@));
    r
}

/// The extension of the name a file was sent with is kept: where it is
/// non-empty the stored path ends in a dot and that extension; where there is
/// none, or it is empty, the stored name after the bucket holds no dot at all.
pub proof fn lemma_extension_kept(bucket: Seq<char>, id: Seq<char>, filename: Option<Seq<char>>)
    requires
        is_identifier(id),
    ensures
        ({
            let p = stored_path_spec(bucket, id, filename);
            match path_extension(part_name(filename)) {
                Some(e) => if e.len() > 0 {
                    p.len() > e.len() && p.subrange(p.len() - e.len() - 1, p.len() as int) == seq!['.'] + e
                } else {
                    p.subrange(bucket.len() + 1int, p.len() as int) == id
                        && forall|i: int| bucket.len() + 1 <= i < p.len() ==> p[i] != '.'
                },
                None => p.subrange(bucket.len() + 1int, p.len() as int) == id
                    && forall|i: int| bucket.len() + 1 <= i < p.len() ==> p[i] != '.',
            }
        }),
{
    let p = stored_path_spec(bucket, id, filename);
    match path_extension(part_name(filename)) {
        Some(e) => {
            if e.len() > 0 {
                assert(p.subrange(p.len() - e.len() - 1, p.len() as int) =~= seq!['.'] + e);
            } else {
                assert(p.subrange(bucket.len() + 1int, p.len() as int) =~= id);
                assert forall|i: int| bucket.len() + 1 <= i < p.len() implies p[i] != '.' by {
                    assert(p[i] == id[i - bucket.len() - 1]);
                }
            }
        },
        None => {
            assert(p.subrange(bucket.len() + 1int, p.len() as int) =~= id);
            assert forall|i: int| bucket.len() + 1 <= i < p.len() implies p[i] != '.' by {
                assert(p[i] == id[i - bucket.len() - 1]);
            }
        },
    }
}

/// Joins `tail` onto `head` as a path: an absolute `tail` replaces `head`,
/// otherwise a single slash separates them unless `head` is empty or already
/// ends in one.
pub open spec fn join_spec(head: Seq<char>, tail: Seq<char>) -> Seq<char> {
    if tail.len() > 0 && tail[0] == '/' {
        tail
    } else if head.len() == 0 || head.last() == '/' {
        head + tail
    } else {
        head + seq!['/'] + tail
    }
}

/// Path join as `PathBuf::push` does it on Unix.
pub fn join_path(head: &str, tail: &str) -> (r: String)
    ensures
        r@ == join_spec(head@, tail@),
{
    let tl = tail.unicode_len();
    if tl > 0 && tail.get_char(0) == '/' {
        return tail.to_owned();
    }
    let hl = head.unicode_len();
    let mut s = head.to_owned();
    if hl > 0 && head.get_char(hl - 1) != '/' {
        s.append("/");
        proof {
            reveal_strlit("/");
        }
    }
    s.append(tail);
    assert(s@ =~= join_spec(head@, tail@));
    s
}

} // verus!
