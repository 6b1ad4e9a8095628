//! The text of a law, out of the zip container that holds it as its only
//! entry.

use std::io::Cursor;
use std::io::Read;
use std::string::FromUtf8Error;
use vstd::prelude::*;
use vstd::utf8::{decode_utf8, valid_utf8};
use zip::result::ZipError;
use zip::ZipArchive;
use crate::error::{outcome, ArchiveFault, ErrorKind, Failure};

verus! {

/// `zip::ZipArchive`: an opened container. Its inside is not looked at here;
/// `archive_entries` names what it holds.
#[verifier::external_type_specification]
#[verifier::external_body]
#[verifier::reject_recursive_types(R)]
pub struct ExZipArchive<R>(ZipArchive<R>);

/// `std::io::Cursor`: the bytes of the container, as the zip reader reads
/// them.
#[verifier::external_type_specification]
#[verifier::external_body]
#[verifier::reject_recursive_types(T)]
pub struct ExCursor<T>(Cursor<T>);

/// `zip::result::ZipError`: why the zip reader failed. Nothing is read off
/// it.
#[verifier::external_type_specification]
#[verifier::external_body]
pub struct ExZipError(ZipError);

/// `std::string::FromUtf8Error`: why bytes are no UTF-8. Nothing is read off
/// it.
#[verifier::external_type_specification]
#[verifier::external_body]
pub struct ExFromUtf8Error(FromUtf8Error);

/// What the zip reader finds in the container `data`: for each entry that it
/// lists (entries of one name are listed once), in its order, the content
/// that reading the entry gives, or `None` where reading it fails; `None` in
/// all where the reader does not accept `data` as a container.
pub uninterp spec fn zip_directory(data: Seq<u8>) -> Option<Seq<Option<Seq<u8>>>>;

/// The entries of an opened container, as `zip_directory` lists them.
pub uninterp spec fn archive_entries(archive: ZipArchive<Cursor<Vec<u8>>>) -> Seq<
    Option<Seq<u8>>,
>;

/// Opens the container with `zip::ZipArchive::new`, which reads its
/// directory and refuses it where an offset or a length in it does not fit.
/// The result depends on `data` alone.
#[verifier::external_body]
fn open_archive(data: Vec<u8>) -> (r: Result<ZipArchive<Cursor<Vec<u8>>>, ZipError>)
    ensures
        match r {
            Ok(archive) => zip_directory(data@) == Some(archive_entries(archive)),
            Err(_) => zip_directory(data@) is None,
        },
{
    ZipArchive::new(Cursor::new(data))
}

/// The number of entries, from `zip::ZipArchive::len`.
#[verifier::external_body]
fn entry_count(archive: &ZipArchive<Cursor<Vec<u8>>>) -> (n: usize)
    ensures
        n == archive_entries(*archive).len(),
{
    archive.len()
}

/// Reads the entry at `index` to its end: `zip::ZipArchive::by_index`, then
/// `read_to_end` on the file it gives. Reading fails where the entry is
/// encrypted, packed in a way the reader does not know, or damaged. It leaves
/// what the container holds as it was.
#[verifier::external_body]
fn read_entry(archive: &mut ZipArchive<Cursor<Vec<u8>>>, index: usize) -> (r: Result<
    Vec<u8>,
    ZipError,
>)
    requires
        index < archive_entries(*old(archive)).len(),
    ensures
        archive_entries(*final(archive)) == archive_entries(*old(archive)),
        match r {
            Ok(content) => archive_entries(*old(archive))[index as int] == Some(content@),
            Err(_) => archive_entries(*old(archive))[index as int] is None,
        },
{
    let mut file = archive.by_index(index)?;
    let mut content = Vec::new();
    file.read_to_end(&mut content)?;
    Ok(content)
}

/// `String::from_utf8` of std: the text that the bytes encode, and an error
/// exactly where they are not UTF-8.
#[verifier::external_body]
fn string_from_utf8(data: Vec<u8>) -> (r: Result<String, FromUtf8Error>)
    ensures
        match r {
            Ok(text) => valid_utf8(data@) && text@ == decode_utf8(data@),
            Err(_) => !valid_utf8(data@),
        },
{
    String::from_utf8(data)
}

/// The contents that a vector of entries stands for.
pub open spec fn contents_of(entries: Seq<Option<Vec<u8>>>) -> Seq<Option<Seq<u8>>> {
    entries.map_values(
        |entry: Option<Vec<u8>>|
            match entry {
                Some(content) => Some(content@),
                None => None,
            },
    )
}

/// The text that `bytes` encode in UTF-8, or `EncodingError`.
pub open spec fn decoded(bytes: Seq<u8>) -> Result<Seq<char>, Failure> {
    if valid_utf8(bytes) {
        Ok(decode_utf8(bytes))
    } else {
        Err(Failure::EncodingError)
    }
}

/// The text of a container with these entries: that of its only entry. A
/// container with no entry or with several is refused, whatever they hold.
pub open spec fn single_text(entries: Seq<Option<Seq<u8>>>) -> Result<Seq<char>, Failure> {
    if entries.len() != 1 {
        Err(
            Failure::ArchiveFormatError(
                ArchiveFault::UnexpectedEntryCount(entries.len() as usize),
            ),
        )
    } else {
        match entries[0] {
            Some(bytes) => decoded(bytes),
            None => Err(Failure::ArchiveFormatError(ArchiveFault::CorruptArchive)),
        }
    }
}

/// The text of a container, given what the zip reader finds in it.
pub open spec fn archive_text(directory: Option<Seq<Option<Seq<u8>>>>) -> Result<
    Seq<char>,
    Failure,
> {
    match directory {
        Some(entries) => single_text(entries),
        None => Err(Failure::ArchiveFormatError(ArchiveFault::CorruptArchive)),
    }
}

/// A container without entries, or with more than one, gives
/// `ArchiveFormatError` with the number of its entries.
pub proof fn entry_count_is_checked(entries: Seq<Option<Seq<u8>>>)
    requires
        entries.len() != 1,
    ensures
        single_text(entries) == Err::<Seq<char>, Failure>(
            Failure::ArchiveFormatError(
                ArchiveFault::UnexpectedEntryCount(entries.len() as usize),
            ),
        ),
        archive_text(Some(entries)) is Err,
{
}

/// A container with one readable entry gives the text of that entry where its
/// bytes are UTF-8, and `EncodingError` where they are not.
pub proof fn single_entry_is_decoded(bytes: Seq<u8>)
    ensures
        valid_utf8(bytes) ==> archive_text(Some(seq![Some(bytes)])) == Ok::<Seq<char>, Failure>(
            decode_utf8(bytes),
        ),
        !valid_utf8(bytes) ==> archive_text(Some(seq![Some(bytes)])) == Err::<
            Seq<char>,
            Failure,
        >(Failure::EncodingError),
{
}

/// Reads bytes as text. The bytes must be UTF-8, else `EncodingError`.
pub fn data_to_string(data: Vec<u8>) -> (r: Result<String, ErrorKind>)
    ensures
        outcome(r) == decoded(data@),
{
    match string_from_utf8(data) {
        Ok(text) => Ok(text),
        Err(_) => Err(ErrorKind::EncodingError),
    }
}

/// The text of a container whose entries have been read: the text of its
/// only entry.
pub fn text_of_entries(mut entries: Vec<Option<Vec<u8>>>) -> (r: Result<String, ErrorKind>)
    ensures
        outcome(r) == single_text(contents_of(entries@)),
{
    if entries.len() != 1 {
        return Err(
            ErrorKind::ArchiveFormatError(ArchiveFault::UnexpectedEntryCount(entries.len())),
        );
    }
    match entries.pop() {
        Some(Some(content)) => data_to_string(content),
        _ => Err(ErrorKind::ArchiveFormatError(ArchiveFault::CorruptArchive)),
    }
}

/// Reads every entry of the container `data`, in the order of its directory;
/// an entry that cannot be read gives `None`. Fails with `CorruptArchive`
/// where `data` is no zip container.
pub fn read_entries(data: Vec<u8>) -> (r: Result<Vec<Option<Vec<u8>>>, ErrorKind>)
    ensures
        match r {
            Ok(entries) => zip_directory(data@) == Some(contents_of(entries@)),
            Err(e) => zip_directory(data@) is None && e@ == Failure::ArchiveFormatError(
                ArchiveFault::CorruptArchive,
            ),
        },
{
    let mut archive = match open_archive(data) {
        Ok(archive) => archive,
        Err(_) => {
            return Err(ErrorKind::ArchiveFormatError(ArchiveFault::CorruptArchive));
        },
    };
    let count = entry_count(&archive);
    let ghost listed = archive_entries(archive);
    let mut entries: Vec<Option<Vec<u8>>> = Vec::new();
    let mut index: usize = 0;
    while index < count
        invariant
            index <= count == listed.len(),
            index == entries@.len(),
            archive_entries(archive) == listed,
            contents_of(entries@) == listed.take(index as int),
        decreases count - index,
    {
        let entry = match read_entry(&mut archive, index) {
            Ok(content) => Some(content),
            Err(_) => None,
        };
        let ghost before = entries@;
        entries.push(entry);
        assert(entries@[index as int] == entry);
        assert(contents_of(entries@) =~= contents_of(before).push(listed[index as int]));
        assert(listed.take(index + 1) =~= listed.take(index as int).push(listed[index as int]));
        index += 1;
    }
    assert(listed.take(index as int) =~= listed);
    Ok(entries)
}

/// Extracts the text of the only file in a zip container.
///
/// Fails with `ArchiveFormatError`: `CorruptArchive` where `data` is no zip
/// container or its entry cannot be read, `UnexpectedEntryCount` where it
/// holds no entry or more than one. Fails with `EncodingError` where the
/// entry is not UTF-8.
pub fn extract_first_file(data: Vec<u8>) -> (r: Result<String, ErrorKind>)
    ensures
        outcome(r) == archive_text(zip_directory(data@)),
{
    match read_entries(data) {
        Ok(entries) => text_of_entries(entries),
        Err(e) => Err(e),
    }
}

} // verus!
