use gesetze_im_internet::parse::items_of_tokens;
use gesetze_im_internet::xml::XmlToken;
use gesetze_im_internet::{toc_get_items, ErrorKind, Toc, TocItem};

const FIRST_TITLE: &str =
    "Gesetz über die Ausprägung einer 1-DM-Goldmünze und die Errichtung der Stiftung \"Geld und Währung\"";
const FIRST_LINK: &str = "http://www.gesetze-im-internet.de/1-dm-goldm_nzg/xml.zip";

const SAMPLE: &str = "<?xml version=\"1.0\" encoding=\"UTF-8\"?>\n<items>\n  <item>\n    <title>Gesetz über die Ausprägung einer 1-DM-Goldmünze und die Errichtung der Stiftung &quot;Geld und Währung&quot;</title>\n    <link>http://www.gesetze-im-internet.de/1-dm-goldm_nzg/xml.zip</link>\n  </item>\n  <item>\n    <title>Abgeordnetengesetz</title>\n    <link>http://www.gesetze-im-internet.de/abgg/xml.zip</link>\n  </item>\n  <item>\n    <title>Dritte</title>\n    <link>http://example.org/ohne</link>\n  </item>\n</items>\n";

fn feed_of(count: usize) -> String {
    let mut feed = String::from("<?xml version=\"1.0\" encoding=\"UTF-8\"?>\n<items>\n");
    feed.push_str("<item><title>Gesetz über die Ausprägung einer 1-DM-Goldmünze und die Errichtung der Stiftung &quot;Geld und Währung&quot;</title><link>http://www.gesetze-im-internet.de/1-dm-goldm_nzg/xml.zip</link></item>\n");
    for number in 1..count {
        feed.push_str(&format!(
            "<item><title>Gesetz {0}</title><link>http://www.gesetze-im-internet.de/g{0}/xml.zip</link></item>\n",
            number
        ));
    }
    feed.push_str("</items>\n");
    feed
}

#[test]
fn test_load_toc() {
    let feed = feed_of(6419);
    let toc = Toc::from_str(&feed).expect("can't parse toc");

    assert_eq!(toc.items.len(), 6419);

    assert_eq!(toc.items[0].title, "Gesetz über die Ausprägung einer 1-DM-Goldmünze und die Errichtung der Stiftung \"Geld und Währung\"");
    assert_eq!(
        toc.items[0].link,
        "http://www.gesetze-im-internet.de/1-dm-goldm_nzg/xml.zip"
    );
    assert_eq!(toc.items[6418].title, "Gesetz 6418");
    assert_eq!(toc.position("g6418"), Some(6418));
}

#[test]
fn load_toc_gives_every_item_in_document_order() {
    let toc = Toc::from_str(SAMPLE).expect("can't parse toc");
    assert_eq!(toc.items.len(), 3);
    assert_eq!(toc.items[0].title, FIRST_TITLE);
    assert_eq!(toc.items[0].link, FIRST_LINK);
    assert_eq!(toc.items[1].title, "Abgeordnetengesetz");
    assert_eq!(toc.items[2].title, "Dritte");
}

#[test]
fn document_without_items_gives_empty_table() {
    assert_eq!(Toc::from_str("<items></items>").unwrap().items.len(), 0);
    assert_eq!(Toc::from_str("<items/>").unwrap().items.len(), 0);
    assert_eq!(Toc::default().items.len(), 0);
}

#[test]
fn text_is_taken_without_white_space_around_it() {
    let toc = Toc::from_str(
        "<r><item><title>\n  A <![CDATA[ & ]]> B\t</title><link> L </link></item></r>",
    )
    .unwrap();
    assert_eq!(toc.items[0].title, "A  &  B");
    assert_eq!(toc.items[0].link, "L");
}

#[test]
fn empty_fields_give_empty_texts() {
    let toc = Toc::from_str("<r><item><title></title><link/></item></r>").unwrap();
    assert_eq!(toc.items[0], TocItem::new("".into(), "".into()));
}

#[test]
fn other_elements_are_passed_over() {
    let toc = Toc::from_str(
        "<r><meta><item><title>no</title></item></meta><item><x><title>no</title></x><link>L</link><title>T</title></item>text<!-- c --></r>",
    )
    .unwrap();
    assert_eq!(toc.items.len(), 1);
    assert_eq!(toc.items[0], TocItem::new("T".into(), "L".into()));
}

#[test]
fn malformed_item_is_named_by_its_index() {
    let missing = "<r><item><title>A</title><link>a</link></item><item><title>B</title></item></r>";
    assert_eq!(Toc::from_str(missing), Err(ErrorKind::MalformedCatalogError(Some(1))));
    let twice = "<r><item><title>A</title><title>B</title><link>a</link></item></r>";
    assert_eq!(Toc::from_str(twice), Err(ErrorKind::MalformedCatalogError(Some(0))));
    let nested = "<r><item><title><b>A</b></title><link>a</link></item></r>";
    assert_eq!(Toc::from_str(nested), Err(ErrorKind::MalformedCatalogError(Some(0))));
}

#[test]
fn unparseable_xml_is_malformed_without_index() {
    assert_eq!(Toc::from_str(""), Err(ErrorKind::MalformedCatalogError(None)));
    assert_eq!(Toc::from_str("<r><item>"), Err(ErrorKind::MalformedCatalogError(None)));
    assert_eq!(Toc::from_str("<r></s>"), Err(ErrorKind::MalformedCatalogError(None)));
    assert_eq!(Toc::from_str("no xml"), Err(ErrorKind::MalformedCatalogError(None)));
}

#[test]
fn bytes_must_be_utf8() {
    assert_eq!(Toc::from_bytes(vec![0x3c, 0x72, 0xff, 0x3e]), Err(ErrorKind::EncodingError));
    let toc = Toc::from_bytes(SAMPLE.as_bytes().to_vec()).unwrap();
    assert_eq!(toc.items.len(), 3);
}

#[test]
fn parsing_is_repeatable() {
    assert_eq!(Toc::from_str(SAMPLE).unwrap().items, Toc::from_str(SAMPLE).unwrap().items);
}

#[test]
fn tokens_without_closed_root_are_malformed() {
    let open = |name: &str| XmlToken::Open(name.to_string());
    assert_eq!(items_of_tokens(&vec![]), Err(ErrorKind::MalformedCatalogError(None)));
    assert_eq!(items_of_tokens(&vec![open("r")]), Err(ErrorKind::MalformedCatalogError(None)));
    assert_eq!(items_of_tokens(&vec![XmlToken::Close]), Err(ErrorKind::MalformedCatalogError(None)));
    assert_eq!(
        items_of_tokens(&vec![open("r"), XmlToken::Close, open("s")]),
        Err(ErrorKind::MalformedCatalogError(None))
    );
    let tokens = vec![
        XmlToken::Other,
        open("r"),
        open("item"),
        open("title"),
        XmlToken::Text(" T".to_string()),
        XmlToken::Text("t ".to_string()),
        XmlToken::Close,
        open("link"),
        XmlToken::Text("L".to_string()),
        XmlToken::Close,
        XmlToken::Close,
        XmlToken::Close,
        XmlToken::Other,
    ];
    assert_eq!(items_of_tokens(&tokens), Ok(vec![TocItem::new("Tt".into(), "L".into())]));
}

fn sample_toc() -> Toc {
    Toc::new(vec![
        TocItem::new("Erstes".into(), "http://www.gesetze-im-internet.de/abg/xml.zip".into()),
        TocItem::new("Ohne".into(), "http://example.org/abg".into()),
        TocItem::new("Zweites".into(), "http://www.gesetze-im-internet.de/abg/xml.zip".into()),
        TocItem::new("Anderes".into(), "http://www.gesetze-im-internet.de/bgb/xml.zip".into()),
    ])
}

#[test]
fn lookup_gives_the_first_of_equal_identifiers() {
    let toc = sample_toc();
    assert_eq!(toc.position("abg"), Some(0));
    assert_eq!(toc.item_find("abg").unwrap().title, "Erstes");
    assert_eq!(toc.position("bgb"), Some(3));
    assert_eq!(toc.item_find("bgb").unwrap().title, "Anderes");
}

#[test]
fn lookup_of_absent_identifier_fails() {
    let toc = sample_toc();
    assert_eq!(toc.position("ABG"), None);
    assert_eq!(toc.item_find("stgb"), Err(ErrorKind::IdentifierNotFound("stgb".into())));
    assert_eq!(Toc::default().item_find("abg"), Err(ErrorKind::IdentifierNotFound("abg".into())));
}

#[test]
fn listing_has_one_line_for_each_entry() {
    assert_eq!(
        sample_toc().list_lines(),
        vec!["[abg] Erstes", "[???] Ohne", "[abg] Zweites", "[bgb] Anderes"]
    );
    assert_eq!(Toc::default().list_lines().len(), 0);
}

#[test]
fn items_of_a_table_are_its_entries() {
    let items = toc_get_items(sample_toc());
    assert_eq!(items.len(), 4);
    assert_eq!(items[1].title, "Ohne");
}

#[test]
fn search_keeps_the_entries_whose_titles_match() {
    let toc = sample_toc();
    assert_eq!(toc.titles_matching("tes$"), vec![0, 2]);
    assert_eq!(toc.titles_matching("^(Ohne|Anderes)$"), vec![1, 3]);
    assert_eq!(toc.titles_matching("e"), vec![0, 1, 2, 3]);
    assert_eq!(toc.titles_matching("E"), vec![0]);
    assert_eq!(toc.titles_matching("Gesetz"), Vec::<usize>::new());
    assert_eq!(toc.titles_matching(""), vec![0, 1, 2, 3]);
    assert_eq!(Toc::default().titles_matching("e"), Vec::<usize>::new());
}

#[test]
fn search_with_refused_pattern_keeps_every_entry() {
    assert_eq!(sample_toc().titles_matching("("), vec![0, 1, 2, 3]);
    assert_eq!(sample_toc().titles_matching("[a-"), vec![0, 1, 2, 3]);
}
