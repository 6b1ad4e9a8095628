use gesetze_im_internet::archive::{
    data_to_string, extract_first_file, read_entries, text_of_entries,
};
use gesetze_im_internet::{ArchiveFault, ErrorKind};
use std::io::{Cursor, Write};
use zip::write::SimpleFileOptions;
use zip::{CompressionMethod, ZipWriter};

fn archive_of(entries: &[(&str, &[u8])], method: CompressionMethod) -> Vec<u8> {
    let mut writer = ZipWriter::new(Cursor::new(Vec::new()));
    for (name, content) in entries {
        writer.start_file(*name, SimpleFileOptions::default().compression_method(method)).unwrap();
        writer.write_all(content).unwrap();
    }
    writer.finish().unwrap().into_inner()
}

fn corrupt() -> Result<String, ErrorKind> {
    Err(ErrorKind::ArchiveFormatError(ArchiveFault::CorruptArchive))
}

fn count(n: usize) -> Result<String, ErrorKind> {
    Err(ErrorKind::ArchiveFormatError(ArchiveFault::UnexpectedEntryCount(n)))
}

#[test]
fn single_entry_gives_its_text() {
    let text = "<dokumente>Grundgesetz für die Bundesrepublik</dokumente>\n";
    let stored = archive_of(&[("gg.xml", text.as_bytes())], CompressionMethod::Stored);
    assert_eq!(extract_first_file(stored), Ok(text.to_string()));
    let deflated = archive_of(&[("gg.xml", text.as_bytes())], CompressionMethod::Deflated);
    assert_eq!(extract_first_file(deflated), Ok(text.to_string()));
}

#[test]
fn empty_entry_gives_empty_text() {
    let data = archive_of(&[("leer.xml", b"")], CompressionMethod::Stored);
    assert_eq!(extract_first_file(data), Ok(String::new()));
}

#[test]
fn archive_without_entries_is_refused() {
    let data = archive_of(&[], CompressionMethod::Stored);
    assert_eq!(read_entries(data.clone()), Ok(vec![]));
    assert_eq!(extract_first_file(data), count(0));
}

#[test]
fn archive_with_several_entries_is_refused() {
    let data = archive_of(&[("a.xml", b"a"), ("b.xml", b"b")], CompressionMethod::Deflated);
    assert_eq!(
        read_entries(data.clone()),
        Ok(vec![Some(b"a".to_vec()), Some(b"b".to_vec())])
    );
    assert_eq!(extract_first_file(data), count(2));
}

#[test]
fn entry_that_is_not_utf8_gives_encoding_error() {
    let data = archive_of(&[("a.xml", &[0x47, 0xff, 0xfe])], CompressionMethod::Stored);
    assert_eq!(extract_first_file(data), Err(ErrorKind::EncodingError));
}

#[test]
fn bytes_that_are_no_archive_are_corrupt() {
    assert_eq!(extract_first_file(Vec::new()), corrupt());
    assert_eq!(extract_first_file(b"this is no zip container".to_vec()), corrupt());
    assert_eq!(read_entries(b"PK".to_vec()), Err(ErrorKind::ArchiveFormatError(ArchiveFault::CorruptArchive)));
    let whole = archive_of(&[("a.xml", b"abcdefgh")], CompressionMethod::Stored);
    assert_eq!(extract_first_file(whole[..whole.len() - 10].to_vec()), corrupt());
}

#[test]
fn damaged_entry_is_corrupt() {
    let mut data = archive_of(&[("a.xml", b"abcdefgh")], CompressionMethod::Stored);
    let at = data.windows(8).position(|w| w == b"abcdefgh").unwrap();
    data[at] = b'X';
    assert_eq!(read_entries(data.clone()), Ok(vec![None]));
    assert_eq!(extract_first_file(data), corrupt());
}

#[test]
fn text_of_entries_wants_exactly_one() {
    assert_eq!(text_of_entries(vec![]), count(0));
    assert_eq!(text_of_entries(vec![Some(b"a".to_vec()), Some(b"b".to_vec())]), count(2));
    assert_eq!(text_of_entries(vec![None, None, None]), count(3));
    assert_eq!(text_of_entries(vec![None]), corrupt());
    assert_eq!(text_of_entries(vec![Some("Größe".as_bytes().to_vec())]), Ok("Größe".to_string()));
    assert_eq!(text_of_entries(vec![Some(vec![0xc3])]), Err(ErrorKind::EncodingError));
}

#[test]
fn data_to_string_decodes_utf8() {
    assert_eq!(data_to_string("§ 1 Würde".as_bytes().to_vec()), Ok("§ 1 Würde".to_string()));
    assert_eq!(data_to_string(Vec::new()), Ok(String::new()));
    assert_eq!(data_to_string(vec![0x80]), Err(ErrorKind::EncodingError));
    assert_eq!(data_to_string(vec![0xed, 0xa0, 0x80]), Err(ErrorKind::EncodingError));
}

#[test]
fn directory_with_an_offset_that_does_not_fit_is_corrupt() {
    let mut data: Vec<u8> = vec![0x00];
    data.extend_from_slice(&[0x50, 0x4b, 0x01, 0x02]);
    data.extend_from_slice(&[20, 0, 20, 0, 0, 0, 0, 0, 0, 0, 0, 0]);
    data.extend_from_slice(&[0, 0, 0, 0, 0, 0, 0, 0, 0, 0, 0, 0]);
    data.extend_from_slice(&[0, 0, 12, 0, 0, 0, 0, 0, 0, 0, 0, 0, 0, 0]);
    data.extend_from_slice(&[0xff, 0xff, 0xff, 0xff]);
    data.extend_from_slice(&[0x01, 0x00, 0x08, 0x00]);
    data.extend_from_slice(&[0xff; 8]);
    data.extend_from_slice(&[0x50, 0x4b, 0x05, 0x06, 0, 0, 0, 0, 1, 0, 1, 0]);
    data.extend_from_slice(&[58, 0, 0, 0, 0, 0, 0, 0, 0, 0]);
    assert_eq!(data.len(), 81);
    assert_eq!(read_entries(data.clone()), Err(ErrorKind::ArchiveFormatError(ArchiveFault::CorruptArchive)));
    assert_eq!(extract_first_file(data), corrupt());
}
