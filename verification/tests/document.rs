use deepl::endpoint::document::{
    download_failure, download_step, open_file_to_write, DownloadStage, OpenEvent, OpenState, OpenStep,
};
use deepl::endpoint::ReplyStep;
use deepl::http::{field, HttpStatus, Method, Payload, Request};
use deepl::{DeepLApi, DocumentTranslateStatus, Error, Formality, Lang, UploadDocumentResp};

fn ident() -> UploadDocumentResp {
    UploadDocumentResp { document_id: "D1".to_string(), document_key: "K1".to_string() }
}

fn failed(exists: bool, cause: &str) -> OpenEvent {
    OpenEvent::Failed { exists, cause: cause.to_string() }
}

#[test]
fn only_done_is_done() {
    assert!(!DocumentTranslateStatus::Queued.is_done());
    assert!(!DocumentTranslateStatus::Translating.is_done());
    assert!(DocumentTranslateStatus::Done.is_done());
    assert!(!DocumentTranslateStatus::Error.is_done());
}

#[test]
fn status_words() {
    let all = [
        (DocumentTranslateStatus::Queued, "queued"),
        (DocumentTranslateStatus::Translating, "translating"),
        (DocumentTranslateStatus::Done, "done"),
        (DocumentTranslateStatus::Error, "error"),
    ];
    for (status, word) in all {
        assert_eq!(status.as_ref(), word);
        assert_eq!(DocumentTranslateStatus::from_token(word), Some(status));
    }
}

#[test]
fn unknown_status_word_is_no_status() {
    assert_eq!(DocumentTranslateStatus::from_token("Done"), None);
    assert_eq!(DocumentTranslateStatus::from_token("DONE"), None);
    assert_eq!(DocumentTranslateStatus::from_token(""), None);
    assert_eq!(DocumentTranslateStatus::from_token("finished"), None);
    assert_eq!(DocumentTranslateStatus::from_token("done "), None);
}

#[test]
fn upload_form_with_required_settings_only() {
    let api = DeepLApi::with("k").new();
    let requester = api.upload_document("./test.txt".to_string(), Lang::DE);
    assert_eq!(requester.to_multipart_form(), vec![field("target_lang", "DE")]);
    assert_eq!(requester.file_path(), "./test.txt");
}

#[test]
fn upload_form_keeps_the_order_of_the_settings() {
    let api = DeepLApi::with("k").new();
    let mut requester = api.upload_document("a.docx".to_string(), Lang::ZH);
    requester
        .glossary_id("def3a26b".to_string())
        .formality(Formality::PreferMore)
        .filename("Hamlet.txt".to_string())
        .source_lang(Lang::EN_GB);
    assert_eq!(
        requester.to_multipart_form(),
        vec![
            field("source_lang", "EN-GB"),
            field("target_lang", "ZH"),
            field("formality", "prefer_more"),
            field("glossary_id", "def3a26b"),
        ]
    );
}

#[test]
fn upload_form_with_some_settings() {
    let api = DeepLApi::with("k").new();
    let mut requester = api.upload_document("a.docx".to_string(), Lang::FR);
    requester.formality(Formality::Less);
    assert_eq!(
        requester.to_multipart_form(),
        vec![field("target_lang", "FR"), field("formality", "less")]
    );
    requester.source_lang(Lang::DE);
    assert_eq!(
        requester.to_multipart_form(),
        vec![field("source_lang", "DE"), field("target_lang", "FR"), field("formality", "less")]
    );
}

#[test]
fn a_later_setting_replaces_an_earlier_one() {
    let api = DeepLApi::with("k").new();
    let mut requester = api.upload_document("a.docx".to_string(), Lang::FR);
    requester.source_lang(Lang::DE).source_lang(Lang::IT);
    assert_eq!(
        requester.to_multipart_form(),
        vec![field("source_lang", "IT"), field("target_lang", "FR")]
    );
}

#[test]
fn upload_is_named_by_the_path_where_no_name_is_set() {
    let api = DeepLApi::with("k").new();
    let requester = api.upload_document("./dir/test.txt".to_string(), Lang::DE);
    assert_eq!(
        requester.send(Some("test.txt")),
        Some(Request {
            method: Method::Post,
            url: "https://api-free.deepl.com/v2/document".to_string(),
            headers: vec![field("Authorization", "DeepL-Auth-Key k")],
            query: vec![],
            payload: Payload::Multipart {
                texts: vec![field("target_lang", "DE")],
                file_name: "test.txt".to_string(),
            },
        })
    );
}

#[test]
fn upload_sends_the_name_that_was_set() {
    let api = DeepLApi::with("k").new();
    let mut requester = api.upload_document("./dir/test.txt".to_string(), Lang::DE);
    requester.filename("Hamlet.txt".to_string()).source_lang(Lang::EN);
    let expected = Payload::Multipart {
        texts: vec![
            field("source_lang", "EN"),
            field("target_lang", "DE"),
            field("filename", "Hamlet.txt"),
        ],
        file_name: "Hamlet.txt".to_string(),
    };
    assert_eq!(requester.send(Some("test.txt")).unwrap().payload, expected);
    assert_eq!(requester.send(None).unwrap().payload, expected);
}

#[test]
fn read_failure_names_the_path() {
    let api = DeepLApi::with("k").new();
    let requester = api.upload_document("./missing.txt".to_string(), Lang::DE);
    assert_eq!(
        requester.read_failure("No such file or directory (os error 2)"),
        Error::ReadFileError(
            "./missing.txt".to_string(),
            "No such file or directory (os error 2)".to_string()
        )
    );
}

#[test]
fn status_request_posts_the_key_to_the_document() {
    let api = DeepLApi::with("k").new();
    assert_eq!(
        api.check_document_status(&ident()),
        Some(Request {
            method: Method::Post,
            url: "https://api-free.deepl.com/v2/document/D1".to_string(),
            headers: vec![field("Authorization", "DeepL-Auth-Key k")],
            query: vec![],
            payload: Payload::Form(vec![field("document_key", "K1")]),
        })
    );
}

#[test]
fn download_request_posts_the_key_to_the_result() {
    let api = DeepLApi::with("k").is_pro(true).new();
    assert_eq!(
        api.download_document(&ident()),
        Some(Request {
            method: Method::Post,
            url: "https://api.deepl.com/v2/document/D1/result".to_string(),
            headers: vec![field("Authorization", "DeepL-Auth-Key k")],
            query: vec![],
            payload: Payload::Form(vec![field("document_key", "K1")]),
        })
    );
}

#[test]
fn download_of_an_unknown_document() {
    assert_eq!(
        download_step(HttpStatus::new(404).unwrap()),
        ReplyStep::Reject(Error::NonExistDocument)
    );
}

#[test]
fn download_before_the_translation_is_done() {
    assert_eq!(
        download_step(HttpStatus::new(503).unwrap()),
        ReplyStep::Reject(Error::TranslationNotDone)
    );
}

#[test]
fn download_steps_for_all_other_codes() {
    for code in 100u16..=999 {
        if code == 404 || code == 503 {
            continue;
        }
        let step = download_step(HttpStatus::new(code).unwrap());
        if (200..=299).contains(&code) {
            assert_eq!(step, ReplyStep::ReadResult);
        } else {
            assert_eq!(step, ReplyStep::ReadFailure);
        }
    }
}

#[test]
fn download_failures_name_the_stage() {
    assert_eq!(
        download_failure(DownloadStage::Receive, "reset"),
        Error::WriteFileError("fail to download part of the document: reset".to_string())
    );
    assert_eq!(
        download_failure(DownloadStage::Write, "disk full"),
        Error::WriteFileError("fail to write downloaded part into file: disk full".to_string())
    );
    assert_eq!(
        download_failure(DownloadStage::Sync, "io"),
        Error::WriteFileError("fail to sync file content: io".to_string())
    );
}

#[test]
fn file_opens_at_once() {
    assert_eq!(open_file_to_write(OpenState::Opening, "\"out.txt\"", &OpenEvent::Done), OpenStep::Ready);
}

#[test]
fn file_in_the_way_is_removed_and_the_opening_repeated() {
    let path = "\"out.txt\"";
    assert_eq!(
        open_file_to_write(OpenState::Opening, path, &failed(true, "File exists (os error 17)")),
        OpenStep::Continue(OpenState::Removing)
    );
    assert_eq!(
        open_file_to_write(OpenState::Removing, path, &OpenEvent::Done),
        OpenStep::Continue(OpenState::Reopening)
    );
    assert_eq!(open_file_to_write(OpenState::Reopening, path, &OpenEvent::Done), OpenStep::Ready);
}

#[test]
fn other_failure_of_the_first_opening_ends_it() {
    assert_eq!(
        open_file_to_write(OpenState::Opening, "\"/x/out.txt\"", &failed(false, "denied")),
        OpenStep::Fail(Error::WriteFileError("Fail to open file \"/x/out.txt\": denied".to_string()))
    );
}

#[test]
fn file_that_cannot_be_removed_ends_the_opening() {
    for exists in [false, true] {
        assert_eq!(
            open_file_to_write(OpenState::Removing, "\"out.txt\"", &failed(exists, "denied")),
            OpenStep::Fail(Error::WriteFileError(
                "There was already a file there and it is not deletable: denied".to_string()
            ))
        );
    }
}

#[test]
fn second_opening_is_the_last() {
    for exists in [false, true] {
        assert_eq!(
            open_file_to_write(OpenState::Reopening, "\"out.txt\"", &failed(exists, "File exists")),
            OpenStep::Fail(Error::WriteFileError(
                "Fail to open file for download document, even after retry: File exists".to_string()
            ))
        );
    }
}

#[test]
fn opening_ends_within_three_operations() {
    let events = [OpenEvent::Done, failed(true, "e"), failed(false, "e")];
    for first in &events {
        for second in &events {
            for third in &events {
                let mut state = OpenState::Opening;
                let mut ended = false;
                for event in [first, second, third] {
                    match open_file_to_write(state, "p", event) {
                        OpenStep::Continue(next) => state = next,
                        _ => {
                            ended = true;
                            break;
                        }
                    }
                }
                assert!(ended);
            }
        }
    }
}
