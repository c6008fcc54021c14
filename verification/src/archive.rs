//! Reading the directory of a ZIP archive that is held in memory.
//!
//! The archive format itself is the business of the `zip` crate. This module
//! declares the crate's reader, states what its calls are trusted to do, and
//! builds the verified listing on top of them.

use vstd::prelude::*;
use crate::text::is_separator;
use crate::extract::ExtractError;

verus! {

/// The `zip` crate's archive reader, opaque to the verifier.
#[verifier::external_type_specification]
#[verifier::external_body]
#[verifier::reject_recursive_types(R)]
pub struct ExZipArchive<R>(zip::ZipArchive<R>);

/// The `zip` crate's error, opaque to the verifier.
#[verifier::external_type_specification]
#[verifier::external_body]
pub struct ExZipError(zip::result::ZipError);

/// The standard library's in-memory reader, opaque to the verifier.
#[verifier::external_type_specification]
#[verifier::external_body]
#[verifier::reject_recursive_types(T)]
pub struct ExCursor<T>(std::io::Cursor<T>);

/// What `zip::ZipArchive::new` makes of `bytes`: nothing where it refuses
/// them, else the listing of the archive it returns.
pub uninterp spec fn zip_directory(bytes: Seq<u8>) -> Option<Seq<Option<Seq<char>>>>;

/// The listing of an open archive: for each entry of its central directory,
/// in the directory's order, the stored name, or nothing where the entry
/// cannot be opened for reading.
pub uninterp spec fn archive_listing(archive: zip::ZipArchive<std::io::Cursor<Vec<u8>>>) -> Seq<
    Option<Seq<char>>,
>;

/// One entry of an archive, as the extraction rules read it.
#[derive(Clone, Debug, PartialEq, Eq)]
pub struct ArchiveEntry {
    /// The name stored in the archive, not yet checked in any way.
    pub name: String,
    /// Whether the entry stands for a directory.
    pub is_dir: bool,
}

/// What an [`ArchiveEntry`] stands for.
pub struct EntryView {
    pub name: Seq<char>,
    pub is_dir: bool,
}

impl View for ArchiveEntry {
    type V = EntryView;

    open spec fn view(&self) -> EntryView {
        EntryView { name: self.name@, is_dir: self.is_dir }
    }
}

/// The entries of a listing, each by its view.
pub open spec fn entries_view(entries: Seq<ArchiveEntry>) -> Seq<EntryView> {
    Seq::new(entries.len(), |i: int| entries[i]@)
}

/// A name that marks a directory: it ends with a separator.
pub open spec fn names_directory(name: Seq<char>) -> bool {
    name.len() > 0 && is_separator(name.last())
}

/// Calls `zip::ZipArchive::new` on an in-memory reader over `bytes`.
///
/// Trusted: the call succeeds exactly where [`zip_directory`] is defined on
/// the bytes, and the archive it returns has that listing.
#[verifier::external_body]
fn open_archive(bytes: Vec<u8>) -> (r: Result<
    zip::ZipArchive<std::io::Cursor<Vec<u8>>>,
    zip::result::ZipError,
>)
    ensures
        match r {
            Ok(archive) => zip_directory(bytes@) == Some(archive_listing(archive)),
            Err(_) => zip_directory(bytes@) is None,
        },
{
    zip::ZipArchive::new(std::io::Cursor::new(bytes))
}

/// Calls `zip::ZipArchive::len`.
///
/// Trusted: the result is the number of entries of the central directory.
#[verifier::external_body]
fn archive_len(archive: &zip::ZipArchive<std::io::Cursor<Vec<u8>>>) -> (n: usize)
    ensures
        n == archive_listing(*archive).len(),
{
    archive.len()
}

/// Calls `zip::ZipArchive::by_index_decrypt` with an empty password, then
/// `ZipFile::name` and `ZipFile::is_dir` on the entry.
///
/// With an empty password the call opens an entry that is not encrypted as
/// `by_index` does, and it reports an entry it cannot open instead of
/// panicking. Trusted: the listing is left as it was; an entry is returned
/// exactly where the listing has a name at `index`, with that name; and
/// `is_dir` says whether the name ends with `/` or `\`.
#[verifier::external_body]
fn open_entry(archive: &mut zip::ZipArchive<std::io::Cursor<Vec<u8>>>, index: usize) -> (r: Option<
    ArchiveEntry,
>)
    ensures
        archive_listing(*final(archive)) == archive_listing(*old(archive)),
        match r {
            Some(entry) => {
                &&& index < archive_listing(*old(archive)).len()
                &&& archive_listing(*old(archive))[index as int] == Some(entry.name@)
                &&& entry.is_dir == names_directory(entry.name@)
            },
            None => index < archive_listing(*old(archive)).len() ==> archive_listing(
                *old(archive),
            )[index as int] is None,
        },
{
    match archive.by_index_decrypt(index, b"") {
        Ok(Ok(file)) => Some(ArchiveEntry { name: file.name().to_string(), is_dir: file.is_dir() }),
        _ => None,
    }
}

/// What a directory yields as a listing: the entries in the directory's
/// order, provided the archive was accepted and every entry can be opened.
pub open spec fn read_listing(directory: Option<Seq<Option<Seq<char>>>>) -> Result<
    Seq<EntryView>,
    ExtractError,
> {
    match directory {
        None => Err(ExtractError::Corrupt),
        Some(names) => {
            if forall|i: int| 0 <= i < names.len() ==> (#[trigger] names[i]) is Some {
                Ok(
                    Seq::new(
                        names.len(),
                        |i: int|
                            EntryView {
                                name: names[i].unwrap(),
                                is_dir: names_directory(names[i].unwrap()),
                            },
                    ),
                )
            } else {
                Err(ExtractError::Corrupt)
            }
        },
    }
}

/// The view of a listing or of the reason why there is none.
pub open spec fn listing_view(r: Result<Vec<ArchiveEntry>, ExtractError>) -> Result<
    Seq<EntryView>,
    ExtractError,
> {
    match r {
        Ok(entries) => Ok(entries_view(entries@)),
        Err(e) => Err(e),
    }
}

/// Lists the entries of the archive held in `bytes`.
///
/// Fails with [`ExtractError::Corrupt`] where the bytes are no archive the
/// reader accepts, or where one of its entries cannot be opened.
pub fn list_entries(bytes: Vec<u8>) -> (r: Result<Vec<ArchiveEntry>, ExtractError>)
    ensures
        listing_view(r) == read_listing(zip_directory(bytes@)),
{
    let ghost raw = bytes@;
    let mut archive = match open_archive(bytes) {
        Ok(archive) => archive,
        Err(_) => {
            return Err(ExtractError::Corrupt);
        },
    };
    let ghost names = archive_listing(archive);
    let count = archive_len(&archive);
    let mut entries: Vec<ArchiveEntry> = Vec::new();
    let mut i: usize = 0;
    while i < count
        invariant
            raw == bytes@,
            zip_directory(raw) == Some(names),
            archive_listing(archive) == names,
            count == names.len(),
            i <= count,
            entries@.len() == i,
            forall|j: int| 0 <= j < i ==> (#[trigger] names[j]) is Some,
            forall|j: int|
                0 <= j < i ==> (#[trigger] entries@[j])@ == (EntryView {
                    name: names[j].unwrap(),
                    is_dir: names_directory(names[j].unwrap()),
                }),
        decreases count - i,
    {
        match open_entry(&mut archive, i) {
            Some(entry) => {
                entries.push(entry);
            },
            None => {
                assert(names[i as int] is None);
                return Err(ExtractError::Corrupt);
            },
        }
        i = i + 1;
    }
    assert(entries_view(entries@) =~= read_listing(Some(names)).unwrap());
    Ok(entries)
}

} // verus!
