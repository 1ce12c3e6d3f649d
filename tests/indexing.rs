use wiki_search::indexing::{
    next_action, on_event, outcome_of, prepare_document, truncate_text, Action, DocOutcome, Event,
    IndexFailure, IndexReport, Stage, MAX_TEXT_LEN,
};
use wiki_search::wiki_parser::{
    get_article_text, Contributor, MediaWiki, Page, Revision, TextType,
};

fn revision(text: Option<&str>) -> Revision {
    Revision {
        id: 1,
        parentid: None,
        timestamp: String::from("2024-01-01T00:00:00Z"),
        contributor: Contributor { username: None, id: None, ip: None, deleted: None },
        minor: None,
        comment: None,
        origin: 1,
        model: String::from("wikitext"),
        format: String::from("text/x-wiki"),
        text: TextType {
            value: text.map(String::from),
            xml_space: None,
            deleted: None,
            id: None,
            location: None,
            sha1: None,
            bytes: None,
        },
        content: None,
        sha1: String::from("abc"),
    }
}

fn export(revisions: Option<Vec<Revision>>) -> MediaWiki {
    MediaWiki {
        version: String::from("0.11"),
        lang: String::from("en"),
        siteinfo: None,
        pages: vec![Page {
            title: String::from("August Borsig"),
            ns: 0,
            id: 42,
            redirect: None,
            restrictions: None,
            revisions,
        }],
    }
}

#[test]
fn short_text_is_not_truncated() {
    assert_eq!(truncate_text("short", MAX_TEXT_LEN), "short");
    assert_eq!(truncate_text("", 3), "");
    assert_eq!(truncate_text("abc", 3), "abc");
}

#[test]
fn long_text_keeps_its_first_characters() {
    let long = "x".repeat(600);
    let t = truncate_text(&long, MAX_TEXT_LEN);
    assert_eq!(t.len(), 512);
    assert_eq!(truncate_text("abcdef", 4), "abcd");
}

#[test]
fn truncation_counts_bytes() {
    // Each 'é' takes two bytes: a cut at 3 falls inside the second one.
    assert_eq!(truncate_text("ééééé", 3), "é");
    assert_eq!(truncate_text("ééééé", 4), "éé");
    assert_eq!(truncate_text("aé", 2), "a");
}

#[test]
fn long_multibyte_text_keeps_its_first_bytes() {
    let text = "é".repeat(257);
    let t = truncate_text(&text, MAX_TEXT_LEN);
    assert_eq!(t.len(), 512);
    assert_eq!(t, &text[0..512]);
    let odd = format!("a{}", "é".repeat(300));
    let t = truncate_text(&odd, MAX_TEXT_LEN);
    assert_eq!(t.len(), 511);
    assert!(odd.starts_with(&t));
}

#[test]
fn article_text_is_latest_revision() {
    let mw = export(Some(vec![revision(Some("old")), revision(Some("new"))]));
    assert_eq!(get_article_text(&mw), Some(String::from("new")));
    assert_eq!(get_article_text(&export(None)), None);
    assert_eq!(get_article_text(&export(Some(vec![]))), None);
    assert_eq!(get_article_text(&export(Some(vec![revision(None)]))), None);
}

#[test]
fn prepared_document_is_truncated() {
    let text = "y".repeat(700);
    let mw = export(Some(vec![revision(Some(&text))]));
    let d = prepare_document("August_Borsig.xml", &mw, MAX_TEXT_LEN).unwrap();
    assert_eq!(d.id, "August_Borsig.xml");
    assert_eq!(d.title, "August Borsig");
    assert_eq!(d.text, "y".repeat(512));
}

#[test]
fn document_without_article_is_missing_content() {
    let r = prepare_document("empty.xml", &export(None), MAX_TEXT_LEN);
    assert!(matches!(r, Err(IndexFailure::MissingContent)));
}

#[test]
fn a_document_goes_through_every_stage() {
    let mut stage = Stage::Discovered;
    assert!(matches!(next_action(&stage), Action::Extract));
    stage = on_event(stage, Event::Extracted(Some(String::from("abcdef"))), 4);
    match next_action(&stage) {
        Action::Embed(t) => assert_eq!(t, "abcd"),
        other => panic!("unexpected {other:?}"),
    }
    stage = on_event(stage, Event::Embedded, 4);
    match next_action(&stage) {
        Action::Upsert(t) => assert_eq!(t, "abcd"),
        other => panic!("unexpected {other:?}"),
    }
    stage = on_event(stage, Event::Upserted, 4);
    assert!(matches!(stage, Stage::Upserted));
    assert!(matches!(next_action(&stage), Action::Finish));
    let o = outcome_of("doc", stage).unwrap();
    assert_eq!(o.id, "doc");
    assert!(o.result.is_ok());
}

#[test]
fn missing_article_fails_the_document() {
    let stage = on_event(Stage::Discovered, Event::Extracted(None), 512);
    assert!(matches!(stage, Stage::Failed(IndexFailure::MissingContent)));
    assert!(matches!(next_action(&stage), Action::Finish));
}

#[test]
fn failure_ends_a_document_and_is_kept() {
    let stage = on_event(
        Stage::Truncated(String::from("t")),
        Event::Failed(IndexFailure::Encoding(String::from("boom"))),
        512,
    );
    assert!(matches!(&stage, Stage::Failed(IndexFailure::Encoding(m)) if m == "boom"));
    let after = on_event(stage, Event::Upserted, 512);
    assert!(matches!(after, Stage::Failed(IndexFailure::Encoding(_))));
    let o = outcome_of("d", after).unwrap();
    assert!(matches!(o.result, Err(IndexFailure::Encoding(_))));
}

#[test]
fn out_of_order_event_leaves_stage() {
    let stage = on_event(Stage::Discovered, Event::Upserted, 512);
    assert!(matches!(stage, Stage::Discovered));
    assert!(outcome_of("d", stage).is_none());
}

#[test]
fn report_counts_outcomes() {
    let mut report = IndexReport::new();
    assert_eq!(report.failures(), 0);
    report.record(DocOutcome { id: String::from("a"), result: Ok(()) });
    report.record(DocOutcome {
        id: String::from("b"),
        result: Err(IndexFailure::Store(String::from("down"))),
    });
    report.record(DocOutcome { id: String::from("c"), result: Ok(()) });
    assert_eq!(report.outcomes.len(), 3);
    assert_eq!(report.failures(), 1);
    assert_eq!(report.successes(), 2);
    assert_eq!(report.outcomes[1].id, "b");
}
