use gesetze_im_internet::address::{resolve, toc_url, BASE_URL_STR};
use gesetze_im_internet::{body_of, start, ArchiveFault, Command, ErrorKind, Reply, Step};
use std::io::{Cursor, Write};
use zip::write::SimpleFileOptions;
use zip::ZipWriter;

const CATALOG: &str = "<items><item><title>Abgeordnetengesetz</title><link>http://www.gesetze-im-internet.de/ABG/xml.zip</link></item></items>";

fn ok(body: &[u8]) -> Reply {
    Reply::Response { status: 200, body: body.to_vec() }
}

fn archive_with(text: &str) -> Vec<u8> {
    let mut writer = ZipWriter::new(Cursor::new(Vec::new()));
    writer.start_file("BJNR.xml", SimpleFileOptions::default()).unwrap();
    writer.write_all(text.as_bytes()).unwrap();
    writer.finish().unwrap().into_inner()
}

fn url_of(step: &Step) -> String {
    match step {
        Step::Fetch(pending) => pending.url().to_string(),
        _ => panic!("no request is pending"),
    }
}

fn resume(step: Step, reply: Reply) -> Step {
    match step {
        Step::Fetch(pending) => pending.resume(reply),
        _ => panic!("no request is pending"),
    }
}

fn failure(step: Step) -> ErrorKind {
    match step {
        Step::Fail(e) => e,
        _ => panic!("the run did not fail"),
    }
}

#[test]
fn addresses_are_joined_with_the_base() {
    assert_eq!(
        toc_url(BASE_URL_STR),
        Ok("https://www.gesetze-im-internet.de/gii-toc.xml".to_string())
    );
    assert_eq!(resolve("http://host/a/b", "c.xml"), Ok("http://host/a/c.xml".to_string()));
    assert_eq!(resolve("http://host/a/b", "/c.xml"), Ok("http://host/c.xml".to_string()));
    assert_eq!(
        resolve("http://host/a", "https://other/x"),
        Ok("https://other/x".to_string())
    );
    assert_eq!(resolve("no base", "/c.xml"), Err(ErrorKind::InvalidUrl));
    assert_eq!(resolve("http://host/", "http://[::1"), Err(ErrorKind::InvalidUrl));
}

#[test]
fn body_of_wants_a_status_of_success() {
    assert_eq!(body_of(ok(b"abc")), Ok(b"abc".to_vec()));
    assert_eq!(body_of(Reply::Response { status: 299, body: vec![1] }), Ok(vec![1]));
    assert_eq!(
        body_of(Reply::Response { status: 199, body: vec![1] }),
        Err(ErrorKind::HttpStatusError(199))
    );
    assert_eq!(
        body_of(Reply::Response { status: 300, body: vec![1] }),
        Err(ErrorKind::HttpStatusError(300))
    );
    assert_eq!(
        body_of(Reply::Response { status: 404, body: b"not found".to_vec() }),
        Err(ErrorKind::HttpStatusError(404))
    );
    assert_eq!(
        body_of(Reply::Failed { reason: "connection reset".into() }),
        Err(ErrorKind::NetworkError("connection reset".into()))
    );
}

#[test]
fn list_prints_one_line_for_each_entry() {
    let step = start("http://host", Command::List);
    assert_eq!(url_of(&step), "http://host/gii-toc.xml");
    match resume(step, ok(CATALOG.as_bytes())) {
        Step::Lines(lines) => assert_eq!(lines, vec!["[ABG] Abgeordnetengesetz"]),
        _ => panic!("no listing"),
    }
}

#[test]
fn get_fetches_the_link_and_prints_its_text() {
    let step = start("http://host", Command::Get("ABG".into()));
    assert_eq!(url_of(&step), "http://host/gii-toc.xml");
    let step = resume(step, ok(CATALOG.as_bytes()));
    assert_eq!(url_of(&step), "http://www.gesetze-im-internet.de/ABG/xml.zip");
    let text = "<norm>Abgeordnetengesetz\n§ 1</norm>";
    match resume(step, ok(&archive_with(text))) {
        Step::Text(got) => assert_eq!(got, text),
        _ => panic!("no text"),
    }
}

#[test]
fn get_of_absent_identifier_fails_without_text() {
    let step = start("http://host", Command::Get("BGB".into()));
    let step = resume(step, ok(CATALOG.as_bytes()));
    assert_eq!(failure(step), ErrorKind::IdentifierNotFound("BGB".into()));
}

#[test]
fn failures_end_the_run_unchanged() {
    assert_eq!(failure(start("kein Anfang", Command::List)), ErrorKind::InvalidUrl);
    let lost = Reply::Failed { reason: "timeout".into() };
    let step = start("http://host", Command::List);
    assert_eq!(failure(resume(step, lost.clone())), ErrorKind::NetworkError("timeout".into()));
    let step = start("http://host", Command::Get("ABG".into()));
    let denied = Reply::Response { status: 503, body: CATALOG.as_bytes().to_vec() };
    assert_eq!(failure(resume(step, denied)), ErrorKind::HttpStatusError(503));
    let step = start("http://host", Command::List);
    assert_eq!(failure(resume(step, ok(b"<items>"))), ErrorKind::MalformedCatalogError(None));
    let step = start("http://host", Command::List);
    assert_eq!(failure(resume(step, ok(&[0xff]))), ErrorKind::EncodingError);

    let document = || resume(start("http://host", Command::Get("ABG".into())), ok(CATALOG.as_bytes()));
    assert_eq!(failure(resume(document(), lost)), ErrorKind::NetworkError("timeout".into()));
    assert_eq!(
        failure(resume(document(), Reply::Response { status: 404, body: vec![] })),
        ErrorKind::HttpStatusError(404)
    );
    assert_eq!(
        failure(resume(document(), ok(b"kein Archiv"))),
        ErrorKind::ArchiveFormatError(ArchiveFault::CorruptArchive)
    );
}

#[test]
fn messages_name_the_failure() {
    assert_eq!(ErrorKind::InvalidUrl.message(), "invalid address");
    assert_eq!(ErrorKind::NetworkError("dns".into()).message(), "network error: dns");
    assert_eq!(
        ErrorKind::HttpStatusError(404).message(),
        "the server answered with status 404"
    );
    assert_eq!(
        ErrorKind::ArchiveFormatError(ArchiveFault::CorruptArchive).message(),
        "corrupt archive"
    );
    assert_eq!(
        ErrorKind::ArchiveFormatError(ArchiveFault::UnexpectedEntryCount(0)).message(),
        "archive must hold one entry, but holds 0"
    );
    assert_eq!(
        ErrorKind::ArchiveFormatError(ArchiveFault::UnexpectedEntryCount(1205)).message(),
        "archive must hold one entry, but holds 1205"
    );
    assert_eq!(ErrorKind::EncodingError.message(), "text is not UTF-8");
    assert_eq!(ErrorKind::MalformedCatalogError(None).message(), "malformed catalog");
    assert_eq!(
        ErrorKind::MalformedCatalogError(Some(10)).message(),
        "malformed catalog: item 10"
    );
    assert_eq!(
        ErrorKind::IdentifierNotFound("BGB".into()).message(),
        "no law with the identifier BGB"
    );
}

#[test]
fn errors_compare_by_what_they_hold() {
    assert_eq!(ErrorKind::HttpStatusError(404), ErrorKind::HttpStatusError(404));
    assert_ne!(ErrorKind::HttpStatusError(404), ErrorKind::HttpStatusError(500));
    assert_ne!(ErrorKind::NetworkError("a".into()), ErrorKind::IdentifierNotFound("a".into()));
    assert_ne!(ErrorKind::MalformedCatalogError(None), ErrorKind::MalformedCatalogError(Some(0)));
}
