use deepl::endpoint::glossary::languages::GlossaryLanguage;
use deepl::endpoint::glossary::{
    delete_reply, entries_failure, entries_in_body, entries_reply, glossaries_in_reply,
    glossary_entries, CreateGlossary, CreateGlossaryRequestParam, EntriesFormat,
    GlossaryLanguagePair, GlossaryResp,
};
use deepl::http::{field, HttpStatus, Method, Payload, Request};
use deepl::text::{join_text, split_text, str_eq};
use deepl::{DeepLApi, Error};

fn owned(pairs: &[(&str, &str)]) -> Vec<(String, String)> {
    pairs.iter().map(|(a, b)| (a.to_string(), b.to_string())).collect()
}

fn strings(items: &[&str]) -> Vec<String> {
    items.iter().map(|s| s.to_string()).collect()
}

fn param_of(pairs: &[(&str, &str)], format: Option<EntriesFormat>) -> CreateGlossaryRequestParam {
    let api = DeepLApi::with("k").new();
    let mut builder = api
        .create_glossary("My Glossary")
        .source_lang(GlossaryLanguage::En)
        .target_lang(GlossaryLanguage::De)
        .entries(pairs);
    if let Some(format) = format {
        builder = builder.format(format);
    }
    CreateGlossaryRequestParam::from(&builder.send().unwrap())
}

#[test]
fn format_names() {
    assert_eq!(EntriesFormat::TSV.to_string(), "tsv");
    assert_eq!(EntriesFormat::CSV.to_string(), "csv");
}

#[test]
fn split_gives_one_piece_more_than_separators() {
    assert_eq!(split_text("", ','), strings(&[""]));
    assert_eq!(split_text("a", ','), strings(&["a"]));
    assert_eq!(split_text("a,b", ','), strings(&["a", "b"]));
    assert_eq!(split_text(",", ','), strings(&["", ""]));
    assert_eq!(split_text("a,,b,", ','), strings(&["a", "", "b", ""]));
    assert_eq!(split_text(",a", ','), strings(&["", "a"]));
    assert_eq!(split_text("a\tb", ','), strings(&["a\tb"]));
    assert_eq!(split_text("ä→ö→", '→'), strings(&["ä", "ö", ""]));
}

#[test]
fn join_puts_the_separator_between_the_pieces() {
    assert_eq!(join_text(&strings(&[]), ','), "");
    assert_eq!(join_text(&strings(&["a"]), ','), "a");
    assert_eq!(join_text(&strings(&[""]), ','), "");
    assert_eq!(join_text(&strings(&["a", "b", "c"]), ','), "a,b,c");
    assert_eq!(join_text(&strings(&["", ""]), ','), ",");
    assert_eq!(join_text(&strings(&["a", "", "b", ""]), '\n'), "a\n\nb\n");
}

#[test]
fn join_undoes_split() {
    for text in ["", "a", ",", "a,b", ",,", "x,,y,", "no separator", ",lead", "trail,"] {
        assert_eq!(join_text(&split_text(text, ','), ','), text);
    }
}

#[test]
fn split_undoes_join_of_clean_pieces() {
    for pieces in [strings(&["a"]), strings(&[""]), strings(&["a", "b"]), strings(&["", "", ""])] {
        assert_eq!(split_text(&join_text(&pieces, ';'), ';'), pieces);
    }
}

#[test]
fn entries_as_tab_separated_values() {
    let param = param_of(&[("Hello", "Guten Tag"), ("Bye", "Auf Wiedersehen")], None);
    assert_eq!(
        param,
        CreateGlossaryRequestParam {
            name: "My Glossary".to_string(),
            source_lang: "en".to_string(),
            target_lang: "de".to_string(),
            entries: "Hello\tGuten Tag\nBye\tAuf Wiedersehen".to_string(),
            entries_format: "tsv".to_string(),
        }
    );
}

#[test]
fn entries_as_comma_separated_values() {
    let param =
        param_of(&[("Hello", "Guten Tag"), ("Bye", "Auf Wiedersehen")], Some(EntriesFormat::CSV));
    assert_eq!(param.entries, "Hello,Guten Tag\nBye,Auf Wiedersehen");
    assert_eq!(param.entries_format, "csv");
}

#[test]
fn chosen_tsv_is_the_default() {
    let pairs = [("a", "b")];
    assert_eq!(param_of(&pairs, Some(EntriesFormat::TSV)), param_of(&pairs, None));
}

#[test]
fn one_entry_has_no_line_feed() {
    assert_eq!(param_of(&[("a", "b")], None).entries, "a\tb");
    assert_eq!(param_of(&[("", "")], None).entries, "\t");
}

#[test]
fn no_entries_give_an_empty_text() {
    assert_eq!(param_of(&[], None).entries, "");
    assert_eq!(param_of(&[], Some(EntriesFormat::CSV)).entries, "");
}

#[test]
fn members_follow_the_fields() {
    let param = param_of(&[("a", "b"), ("c", "d")], None);
    assert_eq!(
        param.to_members(),
        vec![
            field("name", "My Glossary"),
            field("source_lang", "en"),
            field("target_lang", "de"),
            field("entries", "a\tb\nc\td"),
            field("entries_format", "tsv"),
        ]
    );
}

#[test]
fn builder_needs_languages_and_entries() {
    let api = DeepLApi::with("k").new();
    let entries = [("a", "b")];
    assert!(api.create_glossary("g").send().is_none());
    assert!(api
        .create_glossary("g")
        .source_lang(GlossaryLanguage::En)
        .target_lang(GlossaryLanguage::De)
        .send()
        .is_none());
    assert!(api
        .create_glossary("g")
        .source_lang(GlossaryLanguage::En)
        .entries(&entries)
        .format(EntriesFormat::CSV)
        .send()
        .is_none());
    assert!(api
        .create_glossary("g")
        .target_lang(GlossaryLanguage::De)
        .entries(&entries)
        .send()
        .is_none());
    assert!(api
        .create_glossary("g")
        .entries(&entries)
        .target_lang(GlossaryLanguage::De)
        .source_lang(GlossaryLanguage::En)
        .send()
        .is_some());
}

#[test]
fn builder_starts_from_the_glossary_too() {
    let api = DeepLApi::with("k").new();
    let glossary = CreateGlossary::builder(&api, "n".to_string())
        .source_lang(GlossaryLanguage::Ja)
        .target_lang(GlossaryLanguage::Zh)
        .entries(&[("x", "y")])
        .send()
        .unwrap();
    let param = CreateGlossaryRequestParam::from(&glossary);
    assert_eq!(param.name, "n");
    assert_eq!(param.source_lang, "ja");
    assert_eq!(param.target_lang, "zh");
}

#[test]
fn create_request_is_a_json_post() {
    let api = DeepLApi::with("k").new();
    let my_entries = vec![("Hello", "Guten Tag"), ("Bye", "Auf Wiedersehen")];
    let glossary = api
        .create_glossary("My Glossary")
        .source_lang(GlossaryLanguage::En)
        .target_lang(GlossaryLanguage::De)
        .entries(&my_entries)
        .format(EntriesFormat::CSV)
        .send()
        .unwrap();
    assert_eq!(
        glossary.into_request(),
        Some(Request {
            method: Method::Post,
            url: "https://api-free.deepl.com/v2/glossaries".to_string(),
            headers: vec![field("Authorization", "DeepL-Auth-Key k")],
            query: vec![],
            payload: Payload::Json(vec![
                field("name", "My Glossary"),
                field("source_lang", "en"),
                field("target_lang", "de"),
                field("entries", "Hello,Guten Tag\nBye,Auf Wiedersehen"),
                field("entries_format", "csv"),
            ]),
        })
    );
}

#[test]
fn glossary_requests() {
    let api = DeepLApi::with("k").new();
    let auth = vec![field("Authorization", "DeepL-Auth-Key k")];
    assert_eq!(
        api.list_all_glossaries(),
        Some(Request {
            method: Method::Get,
            url: "https://api-free.deepl.com/v2/glossaries".to_string(),
            headers: auth.clone(),
            query: vec![],
            payload: Payload::Empty,
        })
    );
    assert_eq!(
        api.retrieve_glossary_details("G1"),
        Some(Request {
            method: Method::Get,
            url: "https://api-free.deepl.com/v2/glossaries/G1".to_string(),
            headers: auth.clone(),
            query: vec![],
            payload: Payload::Empty,
        })
    );
    assert_eq!(
        api.delete_glossary("G1"),
        Some(Request {
            method: Method::Delete,
            url: "https://api-free.deepl.com/v2/glossaries/G1".to_string(),
            headers: auth.clone(),
            query: vec![],
            payload: Payload::Empty,
        })
    );
    assert_eq!(
        api.list_glossary_language_pairs(),
        Some(Request {
            method: Method::Get,
            url: "https://api-free.deepl.com/v2/glossary-language-pairs".to_string(),
            headers: auth,
            query: vec![],
            payload: Payload::Empty,
        })
    );
}

#[test]
fn entries_request_asks_for_tab_separated_values() {
    let api = DeepLApi::with("k").new();
    assert_eq!(
        api.retrieve_glossary_entries("G1"),
        Some(Request {
            method: Method::Get,
            url: "https://api-free.deepl.com/v2/glossaries/G1/entries".to_string(),
            headers: vec![
                field("Authorization", "DeepL-Auth-Key k"),
                field("Accept", "text/tab-separated-values"),
            ],
            query: vec![],
            payload: Payload::Empty,
        })
    );
}

#[test]
fn reply_with_glossaries() {
    let glossary = GlossaryResp {
        glossary_id: "G1".to_string(),
        name: "My Glossary".to_string(),
        ready: true,
        source_lang: GlossaryLanguage::En,
        target_lang: GlossaryLanguage::De,
        creation_time: "2021-08-03T14:16:18.329Z".to_string(),
        entry_count: 2,
    };
    assert_eq!(glossaries_in_reply(Some(vec![glossary.clone()])), Ok(vec![glossary]));
    assert_eq!(glossaries_in_reply(Some(vec![])), Ok(vec![]));
}

#[test]
fn reply_without_glossaries() {
    assert_eq!(
        glossaries_in_reply(None),
        Err(Error::InvalidResponse(
            "Unable to find key glossaries in response, please open issue on https://github.com/Avimitin/deepl-rs"
                .to_string()
        ))
    );
}

#[test]
fn entries_that_cannot_be_read() {
    assert_eq!(
        entries_failure("invalid utf-8"),
        Error::RequestFail("fail to retrieve glossary entries: invalid utf-8".to_string())
    );
}

#[test]
fn entries_are_read_line_by_line() {
    assert_eq!(
        glossary_entries("Hello\tGuten Tag\nBye\tAuf Wiedersehen"),
        Some(owned(&[("Hello", "Guten Tag"), ("Bye", "Auf Wiedersehen")]))
    );
    assert_eq!(glossary_entries("a\tb"), Some(owned(&[("a", "b")])));
    assert_eq!(glossary_entries("\t"), Some(owned(&[("", "")])));
    assert_eq!(glossary_entries("a\t\n\tb"), Some(owned(&[("a", ""), ("", "b")])));
}

#[test]
fn fields_after_the_second_are_ignored() {
    assert_eq!(glossary_entries("a\tb\tc\nd\te\t\t"), Some(owned(&[("a", "b"), ("d", "e")])));
}

#[test]
fn line_without_a_tab_holds_no_entry() {
    assert_eq!(glossary_entries(""), None);
    assert_eq!(glossary_entries("a"), None);
    assert_eq!(glossary_entries("a\tb\n"), None);
    assert_eq!(glossary_entries("a\tb\n\nc\td"), None);
    assert_eq!(glossary_entries("a,b"), None);
    assert_eq!(glossary_entries("a\tb\nc"), None);
}

const MALFORMED: &str = "glossary entries are not tab separated values: a line has no tab";

#[test]
fn body_with_entries_is_read() {
    assert_eq!(
        entries_in_body("Hello\tGuten Tag\nBye\tAuf Wiedersehen"),
        Ok(owned(&[("Hello", "Guten Tag"), ("Bye", "Auf Wiedersehen")]))
    );
    assert_eq!(entries_in_body("\t"), Ok(owned(&[("", "")])));
}

#[test]
fn body_of_another_shape_is_an_invalid_response() {
    for body in ["", "a\tb\n", "a", "a\tb\n\nc\td", "{\"message\":\"Not found\"}"] {
        assert_eq!(entries_in_body(body), Err(Error::InvalidResponse(MALFORMED.to_string())));
    }
}

#[test]
fn entries_of_a_successful_reply() {
    for code in [200u16, 204, 299] {
        let status = HttpStatus::new(code).unwrap();
        assert_eq!(
            entries_reply(status, Ok("a\tb\nc\td".to_string())),
            Ok(owned(&[("a", "b"), ("c", "d")]))
        );
        assert_eq!(
            entries_reply(status, Ok("a\tb\n".to_string())),
            Err(Error::InvalidResponse(MALFORMED.to_string()))
        );
        assert_eq!(
            entries_reply(status, Ok(String::new())),
            Err(Error::InvalidResponse(MALFORMED.to_string()))
        );
        assert_eq!(
            entries_reply(status, Err("connection reset".to_string())),
            Err(Error::RequestFail("fail to retrieve glossary entries: connection reset".to_string()))
        );
    }
}

#[test]
fn entries_of_a_failed_reply_are_never_read() {
    let status = HttpStatus::new(404).unwrap();
    assert_eq!(
        entries_reply(status, Ok("Not\tfound".to_string())),
        Err(Error::RequestFail("404 Not Found Not\tfound".to_string()))
    );
    assert_eq!(
        entries_reply(status, Ok("{\"message\":\"Not found\"}".to_string())),
        Err(Error::RequestFail("404 Not Found {\"message\":\"Not found\"}".to_string()))
    );
    assert_eq!(
        entries_reply(status, Err("connection reset".to_string())),
        Err(Error::RequestFail("404 Not Found".to_string()))
    );
    for code in (100u16..200).chain(300..=999) {
        let out = entries_reply(HttpStatus::new(code).unwrap(), Ok("a\tb".to_string()));
        assert!(matches!(out, Err(Error::RequestFail(_))));
    }
}

#[test]
fn deletion_succeeds_on_a_success_only() {
    for code in 100u16..=999 {
        let status = HttpStatus::new(code).unwrap();
        let out = delete_reply(status, Some("body".to_string()));
        if (200..=299).contains(&code) {
            assert_eq!(out, Ok(()));
        } else {
            assert_eq!(out, Err(Error::RequestFail(format!("{} body", status.to_string()))));
        }
    }
}

#[test]
fn failed_deletion_carries_status_and_message() {
    let status = HttpStatus::new(404).unwrap();
    assert_eq!(
        delete_reply(status, Some("{\"message\":\"Not found\"}".to_string())),
        Err(Error::RequestFail("404 Not Found {\"message\":\"Not found\"}".to_string()))
    );
    assert_eq!(delete_reply(status, None), Err(Error::RequestFail("404 Not Found".to_string())));
    assert_eq!(delete_reply(HttpStatus::new(204).unwrap(), None), Ok(()));
}

#[test]
fn texts_are_equal_when_all_characters_are() {
    assert!(str_eq("", ""));
    assert!(str_eq("a", "a"));
    assert!(str_eq("äö→", "äö→"));
    assert!(!str_eq("", "a"));
    assert!(!str_eq("a", ""));
    assert!(!str_eq("ab", "a"));
    assert!(!str_eq("a", "ab"));
    assert!(!str_eq("ab", "ac"));
    assert!(!str_eq("ba", "ca"));
    assert!(!str_eq("DE", "de"));
    assert!(!str_eq("e\u{301}", "\u{e9}"));
}

#[test]
fn carriage_return_stays_in_the_term() {
    assert_eq!(glossary_entries("a\tb\r\nc\td"), Some(owned(&[("a", "b\r"), ("c", "d")])));
}

#[test]
fn written_entries_are_read_back() {
    let cases: [&[(&str, &str)]; 4] = [
        &[("Hello", "Guten Tag"), ("Bye", "Auf Wiedersehen")],
        &[("a", "b")],
        &[("", "")],
        &[("x y", "z, w"), ("", "q"), ("ü", "")],
    ];
    for pairs in cases {
        assert_eq!(glossary_entries(&param_of(pairs, None).entries), Some(owned(pairs)));
    }
}

#[test]
fn language_pair_holds_both_languages() {
    let pair =
        GlossaryLanguagePair { source_lang: GlossaryLanguage::En, target_lang: GlossaryLanguage::De };
    assert_eq!(pair.source_lang.as_ref(), "en");
    assert_eq!(pair.target_lang.as_ref(), "de");
}
