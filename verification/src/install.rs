//! The asset installer's rules: where a download is staged, how its body is
//! judged, and where it is published.

use vstd::prelude::*;
use crate::text::{chain, is_separator, char_is_separator};

verus! {

/// The least size of a believable archive, in bytes.
pub const MIN_ARCHIVE_BYTES: u64 = 1000;

/// The greatest size of a believable archive, in bytes.
pub const MAX_ARCHIVE_BYTES: u64 = 100_000_000;

/// What kind of file a download is expected to be.
#[derive(Clone, Copy, Debug, PartialEq, Eq, Structural)]
pub enum ArtifactKind {
    /// A native module, installed as a single file.
    Binary,
    /// A ZIP archive, unpacked after the download.
    Archive,
}

/// Why an installation did not take place.
#[derive(Clone, Copy, Debug, PartialEq, Eq, Structural)]
pub enum InstallError {
    /// The address could not be reached, or did not answer in time.
    Network,
    /// The server answered with a status other than success.
    HttpStatus,
    /// The body was empty.
    Empty,
    /// An archive was expected and the body does not start like one.
    InvalidFormat,
    /// An archive was expected and the body is too small or too large.
    SizeOutOfBounds,
    /// The staging file could not be written or published.
    Io,
}

/// What came back from a download that was to be staged in a file.
#[derive(Clone, Debug, PartialEq, Eq)]
pub enum DownloadReply {
    /// No answer: transport failure or timeout.
    Unreachable,
    /// An answer with a status other than success; nothing was written.
    Refused { status: u16 },
    /// The staging file could not be created or filled.
    WriteFailed,
    /// The body was written to the staging file: its length in bytes and its
    /// first bytes, at least four of them where the body has that many.
    Stored { len: u64, head: Vec<u8> },
}

/// What a [`DownloadReply`] stands for.
pub enum DownloadView {
    Unreachable,
    Refused { status: u16 },
    WriteFailed,
    Stored { len: u64, head: Seq<u8> },
}

impl View for DownloadReply {
    type V = DownloadView;

    open spec fn view(&self) -> DownloadView {
        match *self {
            DownloadReply::Unreachable => DownloadView::Unreachable,
            DownloadReply::Refused { status } => DownloadView::Refused { status },
            DownloadReply::WriteFailed => DownloadView::WriteFailed,
            DownloadReply::Stored { len, head } => DownloadView::Stored { len, head: head@ },
        }
    }
}

/// Whether `body` begins with the signature of a ZIP local file header,
/// `PK\x03\x04`.
pub open spec fn starts_like_zip(body: Seq<u8>) -> bool {
    &&& body.len() >= 4
    &&& body[0] == 0x50
    &&& body[1] == 0x4B
    &&& body[2] == 0x03
    &&& body[3] == 0x04
}

/// Executable form of [`starts_like_zip`].
pub fn has_zip_signature(body: &[u8]) -> (r: bool)
    ensures
        r == starts_like_zip(body@),
{
    body.len() >= 4 && body[0] == 0x50 && body[1] == 0x4B && body[2] == 0x03 && body[3] == 0x04
}

/// The signature is a matter of the first four bytes alone.
pub proof fn lemma_signature_is_in_the_head(body: Seq<u8>, n: int)
    requires
        4 <= n <= body.len(),
    ensures
        starts_like_zip(body.take(n)) == starts_like_zip(body),
{
}

/// The judgement of a stored body of `len` bytes that begins with `head`.
pub open spec fn judge_body(kind: ArtifactKind, len: u64, head: Seq<u8>) -> Result<
    (),
    InstallError,
> {
    if len == 0 {
        Err(InstallError::Empty)
    } else if kind == ArtifactKind::Archive {
        if len < MIN_ARCHIVE_BYTES || len > MAX_ARCHIVE_BYTES {
            Err(InstallError::SizeOutOfBounds)
        } else if !starts_like_zip(head) {
            Err(InstallError::InvalidFormat)
        } else {
            Ok(())
        }
    } else {
        Ok(())
    }
}

/// Judges a stored body, see [`judge_body`].
pub fn validate_body(kind: ArtifactKind, len: u64, head: &[u8]) -> (r: Result<(), InstallError>)
    ensures
        r == judge_body(kind, len, head@),
{
    if len == 0 {
        Err(InstallError::Empty)
    } else {
        match kind {
            ArtifactKind::Archive => {
                if len < MIN_ARCHIVE_BYTES || len > MAX_ARCHIVE_BYTES {
                    Err(InstallError::SizeOutOfBounds)
                } else if !has_zip_signature(head) {
                    Err(InstallError::InvalidFormat)
                } else {
                    Ok(())
                }
            },
            ArtifactKind::Binary => Ok(()),
        }
    }
}

/// The judgement of a download as a whole.
pub open spec fn judge_download(kind: ArtifactKind, reply: DownloadView) -> Result<
    (),
    InstallError,
> {
    match reply {
        DownloadView::Unreachable => Err(InstallError::Network),
        DownloadView::Refused { status } => Err(InstallError::HttpStatus),
        DownloadView::WriteFailed => Err(InstallError::Io),
        DownloadView::Stored { len, head } => judge_body(kind, len, head),
    }
}

/// Whether a staging file may exist after such a reply.
pub open spec fn leaves_staging_file(reply: DownloadView) -> bool {
    reply is WriteFailed || reply is Stored
}

/// Judges a download, see [`judge_download`].
pub fn validate_download(kind: ArtifactKind, reply: &DownloadReply) -> (r: Result<
    (),
    InstallError,
>)
    ensures
        r == judge_download(kind, reply@),
{
    match reply {
        DownloadReply::Unreachable => Err(InstallError::Network),
        DownloadReply::Refused { status } => Err(InstallError::HttpStatus),
        DownloadReply::WriteFailed => Err(InstallError::Io),
        DownloadReply::Stored { len, head } => validate_body(kind, *len, head.as_slice()),
    }
}

/// Executable form of [`leaves_staging_file`].
pub fn reply_leaves_staging_file(reply: &DownloadReply) -> (r: bool)
    ensures
        r == leaves_staging_file(reply@),
{
    match reply {
        DownloadReply::WriteFailed => true,
        DownloadReply::Stored { .. } => true,
        _ => false,
    }
}

/// No body is accepted as an archive unless it starts with the ZIP
/// signature, has at least [`MIN_ARCHIVE_BYTES`] and at most
/// [`MAX_ARCHIVE_BYTES`] bytes.
pub proof fn lemma_accepted_archive(reply: DownloadView)
    requires
        judge_download(ArtifactKind::Archive, reply) is Ok,
    ensures
        reply is Stored,
        starts_like_zip(reply->head),
        MIN_ARCHIVE_BYTES <= reply->len <= MAX_ARCHIVE_BYTES,
{
}

/// The position of the last separator of `path`, if it has one.
pub open spec fn last_separator(path: Seq<char>) -> Option<int>
    decreases path.len(),
{
    if path.len() == 0 {
        None
    } else if is_separator(path.last()) {
        Some(path.len() - 1)
    } else {
        last_separator(path.drop_last())
    }
}

/// The directory a path lies in: what stands before its last separator, and
/// nothing where it has none.
pub open spec fn parent_of(path: Seq<char>) -> Seq<char> {
    match last_separator(path) {
        Some(i) => path.take(i),
        None => Seq::empty(),
    }
}

proof fn lemma_last_separator_bounds(path: Seq<char>)
    ensures
        last_separator(path) matches Some(i) ==> 0 <= i < path.len(),
    decreases path.len(),
{
    if path.len() > 0 && !is_separator(path.last()) {
        lemma_last_separator_bounds(path.drop_last());
    }
}

/// Finds the directory a path lies in, see [`parent_of`].
pub fn parent_dir(path: &str) -> (r: String)
    ensures
        r@ == parent_of(path@),
{
    let total = path.unicode_len();
    let mut pos: usize = 0;
    let mut cut: Option<usize> = None;
    for c in it: path.chars()
        invariant
            it.seq() == path@,
            path@.len() == total,
            pos == it.index(),
            match cut {
                Some(i) => last_separator(path@.take(pos as int)) == Some(i as int),
                None => last_separator(path@.take(pos as int)) is None,
            },
    {
        proof {
            assert(path@.take(pos + 1).drop_last() =~= path@.take(pos as int));
            assert(path@.take(pos + 1).last() == c);
        }
        if char_is_separator(c) {
            cut = Some(pos);
        }
        pos = pos + 1;
    }
    proof {
        assert(path@.take(total as int) =~= path@);
        lemma_last_separator_bounds(path@);
    }
    match cut {
        Some(i) => String::from_str(path.substring_char(0, i)),
        None => String::new(),
    }
}

/// The extension of every staging file.
pub open spec fn staging_extension() -> Seq<char> {
    seq!['.', 't', 'm', 'p']
}

/// The position of the dot with which the extension of the last component
/// of `path` begins. A dot that is the first character of the component
/// begins no extension, and a path that ends with a separator has none.
pub open spec fn extension_dot(path: Seq<char>) -> Option<int>
    decreases path.len(),
{
    if path.len() == 0 {
        None
    } else if is_separator(path.last()) {
        None
    } else if path.last() == '.' && path.len() >= 2 && !is_separator(path[path.len() - 2]) {
        Some(path.len() - 1)
    } else {
        extension_dot(path.drop_last())
    }
}

/// Whether `extension`, dot included, is that of a staging file, in
/// whatever case its letters are written.
pub open spec fn is_staging_extension(extension: Seq<char>) -> bool {
    &&& extension.len() == 4
    &&& extension[0] == '.'
    &&& (extension[1] == 't' || extension[1] == 'T')
    &&& (extension[2] == 'm' || extension[2] == 'M')
    &&& (extension[3] == 'p' || extension[3] == 'P')
}

/// The staging file of a destination: the destination with the extension
/// of its last component replaced by `tmp`. Where the last component has no
/// extension, or has the extension of a staging file already, `.tmp` is
/// put behind the whole destination instead, so that the staging file is
/// never the destination itself.
pub open spec fn staging_path(destination: Seq<char>) -> Seq<char> {
    match extension_dot(destination) {
        Some(i) => if is_staging_extension(destination.skip(i)) {
            destination + staging_extension()
        } else {
            destination.take(i) + staging_extension()
        },
        None => destination + staging_extension(),
    }
}

/// What [`extension_dot`] finds: a dot behind the first character of the
/// last component, with no separator and no other dot behind it.
pub proof fn lemma_extension_dot(path: Seq<char>)
    ensures
        match extension_dot(path) {
            Some(i) => {
                &&& 1 <= i < path.len()
                &&& path[i] == '.'
                &&& !is_separator(path[i - 1])
                &&& forall|j: int| i <= j < path.len() ==> !is_separator(#[trigger] path[j])
                &&& forall|j: int| i < j < path.len() ==> #[trigger] path[j] != '.'
            },
            None => true,
        },
    decreases path.len(),
{
    if path.len() > 0 && !is_separator(path.last()) && !(path.last() == '.' && path.len() >= 2
        && !is_separator(path[path.len() - 2])) {
        lemma_extension_dot(path.drop_last());
        match extension_dot(path) {
            Some(i) => {
                assert forall|j: int| i <= j < path.len() implies !is_separator(
                    #[trigger] path[j],
                ) by {
                    if j < path.len() - 1 {
                        assert(path.drop_last()[j] == path[j]);
                    }
                }
                assert forall|j: int| i < j < path.len() implies #[trigger] path[j] != '.' by {
                    if j < path.len() - 1 {
                        assert(path.drop_last()[j] == path[j]);
                    } else {
                        assert(path[j] == path.last());
                        if path.last() == '.' {
                            assert(path.len() >= 2);
                            assert(path.drop_last()[path.len() - 2] == path[path.len() - 2]);
                            assert(is_separator(path[path.len() - 2]));
                            assert(i <= path.len() - 2);
                            assert(!is_separator(path.drop_last()[path.len() - 2]));
                        }
                    }
                }
            },
            None => {},
        }
    }
}

/// Builds the path of the staging file, see [`staging_path`].
pub fn staging_path_for(destination: &str) -> (r: String)
    ensures
        r@ == staging_path(destination@),
{
    let total = destination.unicode_len();
    let mut pos: usize = 0;
    let mut dot: Option<usize> = None;
    let mut behind_separator = true;
    for c in it: destination.chars()
        invariant
            it.seq() == destination@,
            destination@.len() == total,
            pos == it.index(),
            behind_separator == (pos == 0 || is_separator(destination@[pos - 1])),
            match dot {
                Some(i) => extension_dot(destination@.take(pos as int)) == Some(i as int),
                None => extension_dot(destination@.take(pos as int)) is None,
            },
    {
        proof {
            let upto = destination@.take(pos + 1);
            assert(upto.drop_last() =~= destination@.take(pos as int));
            assert(upto.last() == c);
            if pos >= 1 {
                assert(upto[upto.len() - 2] == destination@[pos - 1]);
            }
        }
        let separator = char_is_separator(c);
        if separator {
            dot = None;
        } else if c == '.' && !behind_separator {
            dot = Some(pos);
        }
        behind_separator = separator;
        pos = pos + 1;
    }
    proof {
        assert(destination@.take(total as int) =~= destination@);
        lemma_extension_dot(destination@);
        reveal_strlit(".tmp");
        assert(".tmp"@ =~= staging_extension());
    }
    match dot {
        Some(i) => {
            proof {
                let extension = destination@.skip(i as int);
                assert(extension.len() == total - i);
                if total - i == 4 {
                    assert(extension[1] == destination@[i + 1]);
                    assert(extension[2] == destination@[i + 2]);
                    assert(extension[3] == destination@[i + 3]);
                    assert(extension[0] == destination@[i as int]);
                }
            }
            let taken = total - i == 4 && one_of(destination.get_char(i + 1), 't', 'T') && one_of(
                destination.get_char(i + 2),
                'm',
                'M',
            ) && one_of(destination.get_char(i + 3), 'p', 'P');
            if taken {
                chain(destination, ".tmp")
            } else {
                chain(destination.substring_char(0, i), ".tmp")
            }
        },
        None => chain(destination, ".tmp"),
    }
}

/// Whether `c` is one of two characters.
fn one_of(c: char, a: char, b: char) -> (r: bool)
    ensures
        r == (c == a || c == b),
{
    c == a || c == b
}

proof fn lemma_last_separator_ignores_tail(head: Seq<char>, tail: Seq<char>)
    requires
        forall|j: int| 0 <= j < tail.len() ==> !is_separator(#[trigger] tail[j]),
    ensures
        last_separator(head + tail) == last_separator(head),
    decreases tail.len(),
{
    if tail.len() == 0 {
        assert(head + tail =~= head);
    } else {
        assert((head + tail).drop_last() =~= head + tail.drop_last());
        assert((head + tail).last() == tail[tail.len() - 1]);
        assert forall|j: int| 0 <= j < tail.drop_last().len() implies !is_separator(
            #[trigger] tail.drop_last()[j],
        ) by {
            assert(tail.drop_last()[j] == tail[j]);
        }
        lemma_last_separator_ignores_tail(head, tail.drop_last());
    }
}

/// A staging file lies in the directory of its destination, so that
/// publishing it is a move within one file system.
pub proof fn lemma_staging_file_is_colocated(destination: Seq<char>)
    ensures
        parent_of(staging_path(destination)) == parent_of(destination),
{
    let ext = staging_extension();
    lemma_extension_dot(destination);
    let replaced = extension_dot(destination) matches Some(i) && !is_staging_extension(
        destination.skip(i),
    );
    let stem = if replaced {
        destination.take(extension_dot(destination).unwrap())
    } else {
        destination
    };
    let rest = if replaced {
        destination.skip(extension_dot(destination).unwrap())
    } else {
        Seq::<char>::empty()
    };
    assert(destination =~= stem + rest);
    assert(staging_path(destination) == stem + ext);
    assert forall|j: int| 0 <= j < rest.len() implies !is_separator(#[trigger] rest[j]) by {
        if replaced {
            assert(rest[j] == destination[extension_dot(destination).unwrap() + j]);
        }
    }
    lemma_last_separator_ignores_tail(stem, rest);
    lemma_last_separator_ignores_tail(stem, ext);
    lemma_last_separator_bounds(stem);
    match last_separator(stem) {
        Some(k) => {
            assert((stem + ext).take(k) =~= stem.take(k));
            assert((stem + rest).take(k) =~= stem.take(k));
        },
        None => {},
    }
}

/// A staging file is never its own destination: the body of a download is
/// never written into the installed file, and removing the staging file
/// never removes what is installed.
pub proof fn lemma_staging_file_differs(destination: Seq<char>)
    ensures
        staging_path(destination) != destination,
{
    let ext = staging_extension();
    lemma_extension_dot(destination);
    assert((destination + ext).len() == destination.len() + 4);
    match extension_dot(destination) {
        Some(i) => {
            if !is_staging_extension(destination.skip(i)) && destination.take(i) + ext
                == destination {
                assert(destination.skip(i) =~= (destination.take(i) + ext).skip(i));
                assert((destination.take(i) + ext).skip(i) =~= ext);
                assert(is_staging_extension(ext));
            }
        },
        None => {},
    }
}

} // verus!
