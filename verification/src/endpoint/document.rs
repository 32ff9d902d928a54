//! Translation of whole documents: upload, status poll and download.
//!
//! A document goes through the states `Queued`, `Translating` and then `Done`
//! or `Error`. The service alone moves it from one state to the next; the
//! caller polls the status, at a pace of its own, and downloads the result once
//! the status is `Done`.

use crate::endpoint::{prefixed, Error, ErrorView, Formality, ReplyStep};
use crate::http::{
    no_fields, push_field, push_optional, with_optional, Fields, HttpStatus, Method, Payload,
    PayloadView, Request,
};
use crate::lang::Lang;
use crate::text::str_eq;
use crate::DeepLApi;
use vstd::prelude::*;

verus! {

/// Response from api/v2/document
#[derive(Debug, Clone, PartialEq, Eq)]
pub struct UploadDocumentResp {
    /// A unique ID assigned to the uploaded document and the translation process.
    /// Must be used when referring to this particular document in subsequent API requests.
    pub document_id: String,
    /// A unique key that is used to encrypt the uploaded document as well as the resulting
    /// translation on the server side. Must be provided with every subsequent API request
    /// regarding this particular document.
    pub document_key: String,
}

/// Response from api/v2/document/$ID
#[derive(Debug, Clone, PartialEq, Eq)]
pub struct DocumentStatusResp {
    /// A unique ID assigned to the uploaded document and the requested translation process.
    /// The same ID that was used when requesting the translation status.
    pub document_id: String,
    /// A short description of the state the document translation process is currently in.
    /// See [`DocumentTranslateStatus`] for more.
    pub status: DocumentTranslateStatus,
    /// Estimated number of seconds until the translation is done.
    /// This parameter is only included while status is "translating".
    pub seconds_remaining: Option<u64>,
    /// The number of characters billed to your account.
    pub billed_characters: Option<u64>,
    /// A short description of the error, if available. Note that the content is subject to change.
    /// This parameter may be included if an error occurred during translation.
    pub error_message: Option<String>,
}

/// Possible value of the document translate status
#[derive(Debug, Clone, Copy, PartialEq, Eq)]
pub enum DocumentTranslateStatus {
    /// The translation job is waiting in line to be processed
    Queued,
    /// The translation is currently ongoing
    Translating,
    /// The translation is done and the translated document is ready for download
    Done,
    /// An irrecoverable error occurred while translating the document
    Error,
}

impl DocumentTranslateStatus {
    /// The word by which the service names the state.
    pub open spec fn token(self) -> Seq<char> {
        match self {
            DocumentTranslateStatus::Queued => "queued"@,
            DocumentTranslateStatus::Translating => "translating"@,
            DocumentTranslateStatus::Done => "done"@,
            DocumentTranslateStatus::Error => "error"@,
        }
    }

    /// The state that the service names by `token`, if it names one.
    pub open spec fn of_token(token: Seq<char>) -> Option<DocumentTranslateStatus> {
        if exists|status: DocumentTranslateStatus| status.token() == token {
            Some(choose|status: DocumentTranslateStatus| status.token() == token)
        } else {
            None
        }
    }

    /// Whether the translation is done and the document ready for download.
    pub fn is_done(&self) -> (done: bool)
        ensures
            done == (*self == DocumentTranslateStatus::Done),
    {
        match self {
            DocumentTranslateStatus::Done => true,
            _ => false,
        }
    }

    /// The word by which the service names the state.
    pub fn as_ref(&self) -> (token: &'static str)
        ensures
            token@ == self.token(),
    {
        match self {
            DocumentTranslateStatus::Queued => "queued",
            DocumentTranslateStatus::Translating => "translating",
            DocumentTranslateStatus::Done => "done",
            DocumentTranslateStatus::Error => "error",
        }
    }

    /// Reads the state from the word in a status reply.
    pub fn from_token(token: &str) -> (status: Option<DocumentTranslateStatus>)
        ensures
            status == DocumentTranslateStatus::of_token(token@),
    {
        proof {
            lemma_status_words_differ();
        }
        let found = if str_eq(token, "queued") {
            Some(DocumentTranslateStatus::Queued)
        } else if str_eq(token, "translating") {
            Some(DocumentTranslateStatus::Translating)
        } else if str_eq(token, "done") {
            Some(DocumentTranslateStatus::Done)
        } else if str_eq(token, "error") {
            Some(DocumentTranslateStatus::Error)
        } else {
            None
        };
        proof {
            match found {
                Some(status) => {
                    assert(status.token() == token@);
                },
                None => {
                    assert forall|status: DocumentTranslateStatus| status.token() != token@ by {}
                },
            }
        }
        found
    }
}

/// No two states share a word.
pub proof fn lemma_status_words_differ()
    ensures
        forall|a: DocumentTranslateStatus, b: DocumentTranslateStatus|
            a.token() == b.token() ==> a == b,
{
    reveal_strlit("queued");
    reveal_strlit("translating");
    reveal_strlit("done");
    reveal_strlit("error");
    assert forall|a: DocumentTranslateStatus, b: DocumentTranslateStatus|
        a.token() == b.token() implies a == b by {
        if a != b {
            assert(a.token().len() != b.token().len());
        }
    }
}

/// Each state is read back from its own word.
pub proof fn lemma_status_round_trip(status: DocumentTranslateStatus)
    ensures
        DocumentTranslateStatus::of_token(status.token()) == Some(status),
{
    lemma_status_words_differ();
}

/// Builder type for `UploadDocumentRequester`
#[derive(Debug, Clone)]
pub struct UploadDocumentRequester<'a> {
    client: &'a DeepLApi,
    file_path: String,
    target_lang: Lang,
    source_lang: Option<Lang>,
    filename: Option<String>,
    formality: Option<Formality>,
    glossary_id: Option<String>,
}

/// The settings of an `UploadDocumentRequester`.
pub struct UploadDocumentView {
    pub client: DeepLApi,
    pub file_path: Seq<char>,
    pub target_lang: Lang,
    pub source_lang: Option<Lang>,
    pub filename: Option<Seq<char>>,
    pub formality: Option<Formality>,
    pub glossary_id: Option<Seq<char>>,
}

impl UploadDocumentView {
    /// The text parts that describe the translation: the languages, the
    /// formality and the glossary, each optional one only where it was set.
    pub open spec fn text_parts(self) -> Fields {
        let source = with_optional(
            Seq::empty(),
            "source_lang"@,
            match self.source_lang {
                Some(lang) => Some(lang.code()),
                None => None,
            },
        );
        let target = source.push(("target_lang"@, self.target_lang.code()));
        let formality = with_optional(
            target,
            "formality"@,
            match self.formality {
                Some(formality) => Some(formality.token()),
                None => None,
            },
        );
        with_optional(formality, "glossary_id"@, self.glossary_id)
    }

    /// The name under which the document is sent: the one that was set, or
    /// else the last component of the path, `path_name`.
    pub open spec fn part_name(self, path_name: Option<Seq<char>>) -> Option<Seq<char>> {
        match self.filename {
            Some(name) => Some(name),
            None => path_name,
        }
    }

    /// The whole multipart form: the text parts, the part `filename` where a
    /// name was set, and the document under `name`.
    pub open spec fn form(self, name: Seq<char>) -> PayloadView {
        PayloadView::Multipart {
            texts: with_optional(self.text_parts(), "filename"@, self.filename),
            file_name: name,
        }
    }
}

impl<'a> DeepView for UploadDocumentRequester<'a> {
    type V = UploadDocumentView;

    closed spec fn deep_view(&self) -> UploadDocumentView {
        UploadDocumentView {
            client: *self.client,
            file_path: self.file_path@,
            target_lang: self.target_lang,
            source_lang: self.source_lang,
            filename: self.filename.deep_view(),
            formality: self.formality,
            glossary_id: self.glossary_id.deep_view(),
        }
    }
}

impl<'a> UploadDocumentRequester<'a> {
    /// A request to translate the document at `file_path` into `target_lang`,
    /// with no optional setting made.
    pub fn new(client: &'a DeepLApi, file_path: String, target_lang: Lang) -> (requester: Self)
        ensures
            requester.deep_view() == (UploadDocumentView {
                client: *client,
                file_path: file_path@,
                target_lang,
                source_lang: None,
                filename: None,
                formality: None,
                glossary_id: None,
            }),
    {
        Self {
            client,
            file_path,
            target_lang,
            source_lang: None,
            filename: None,
            formality: None,
            glossary_id: None,
        }
    }

    /// Setter for `source_lang`
    pub fn source_lang(&mut self, source_lang: Lang) -> (requester: &mut Self)
        ensures
            requester.deep_view() == (UploadDocumentView {
                source_lang: Some(source_lang),
                ..old(self).deep_view()
            }),
            *final(self) == *final(requester),
    {
        self.source_lang = Some(source_lang);
        self
    }

    /// Setter for `filename`
    pub fn filename(&mut self, filename: String) -> (requester: &mut Self)
        ensures
            requester.deep_view() == (UploadDocumentView {
                filename: Some(filename@),
                ..old(self).deep_view()
            }),
            *final(self) == *final(requester),
    {
        self.filename = Some(filename);
        self
    }

    /// Setter for `formality`
    pub fn formality(&mut self, formality: Formality) -> (requester: &mut Self)
        ensures
            requester.deep_view() == (UploadDocumentView {
                formality: Some(formality),
                ..old(self).deep_view()
            }),
            *final(self) == *final(requester),
    {
        self.formality = Some(formality);
        self
    }

    /// Setter for `glossary_id`
    pub fn glossary_id(&mut self, glossary_id: String) -> (requester: &mut Self)
        ensures
            requester.deep_view() == (UploadDocumentView {
                glossary_id: Some(glossary_id@),
                ..old(self).deep_view()
            }),
            *final(self) == *final(requester),
    {
        self.glossary_id = Some(glossary_id);
        self
    }

    /// The text parts of the multipart form, in the order in which they are sent.
    pub fn to_multipart_form(&self) -> (form: Vec<(String, String)>)
        ensures
            form.deep_view() == self.deep_view().text_parts(),
    {
        let mut form = no_fields();
        push_optional(
            &mut form,
            "source_lang",
            match &self.source_lang {
                Some(lang) => Some(lang.as_ref()),
                None => None,
            },
        );
        push_field(&mut form, "target_lang", self.target_lang.as_ref());
        push_optional(
            &mut form,
            "formality",
            match &self.formality {
                Some(formality) => Some(formality.as_ref()),
                None => None,
            },
        );
        push_optional(
            &mut form,
            "glossary_id",
            match &self.glossary_id {
                Some(id) => Some(id.as_str()),
                None => None,
            },
        );
        form
    }

    /// The path of the document to upload.
    pub fn file_path(&self) -> (path: &str)
        ensures
            path@ == self.deep_view().file_path,
    {
        self.file_path.as_str()
    }

    /// The name under which the document is sent: the file name that was
    /// set, or else `path_name`, the last component of the document's path,
    /// where it has one.
    pub fn file_name(&self, path_name: Option<&str>) -> (name: Option<String>)
        ensures
            name.deep_view() == self.deep_view().part_name(path_name.deep_view()),
    {
        match &self.filename {
            Some(filename) => Some(filename.clone()),
            None => match path_name {
                Some(name) => Some(String::from_str(name)),
                None => None,
            },
        }
    }

    /// The error for a document that could not be read; `cause` is what the
    /// file system said.
    pub fn read_failure(&self, cause: &str) -> (error: Error)
        ensures
            error.deep_view() == ErrorView::ReadFileError(self.deep_view().file_path, cause@),
    {
        Error::ReadFileError(self.file_path.clone(), String::from_str(cause))
    }

    /// The request that uploads the document. `path_name` is the last
    /// component of the document's path, where it has one; it names the
    /// document where no file name was set.
    ///
    /// A document needs a name: one of the two has to be there.
    pub fn send(&self, path_name: Option<&str>) -> (request: Option<Request>)
        requires
            self.deep_view().part_name(path_name.deep_view()) is Some,
        ensures
            request.deep_view() == self.deep_view().client.planned(
                Method::Post,
                "document"@,
                Seq::empty(),
                Seq::empty(),
                self.deep_view().form(self.deep_view().part_name(path_name.deep_view())->Some_0),
            ),
    {
        let mut texts = self.to_multipart_form();
        if let Some(filename) = &self.filename {
            push_field(&mut texts, "filename", filename.as_str());
        }
        let file_name = self.file_name(path_name).unwrap();
        self.client.plain_request(Method::Post, "document", Payload::Multipart { texts, file_name })
    }
}

/// The route of the document `document_id`.
pub open spec fn document_route(document_id: Seq<char>) -> Seq<char> {
    "document/"@ + document_id
}

/// The route of the translation of the document `document_id`.
pub open spec fn result_route(document_id: Seq<char>) -> Seq<char> {
    "document/"@ + document_id + "/result"@
}

/// The form that proves the right to a document: its key.
pub open spec fn key_form(document_key: Seq<char>) -> PayloadView {
    PayloadView::Form(seq![("document_key"@, document_key)])
}

/// The form that holds the key of the document `ident`.
fn document_key_form(ident: &UploadDocumentResp) -> (payload: Payload)
    ensures
        payload.deep_view() == key_form(ident.document_key@),
{
    let mut form = no_fields();
    push_field(&mut form, "document_key", ident.document_key.as_str());
    Payload::Form(form)
}

impl DeepLApi {
    /// Upload document to DeepL API server, return [`UploadDocumentResp`] for
    /// querying the translation status and to download the translated document once
    /// translation is complete.
    ///
    /// The optional settings are made on the requester that is returned; its
    /// `send` gives the request.
    pub fn upload_document(&self, fp: String, target_lang: Lang) -> (requester:
        UploadDocumentRequester<'_>)
        ensures
            requester.deep_view() == (UploadDocumentView {
                client: *self,
                file_path: fp@,
                target_lang,
                source_lang: None,
                filename: None,
                formality: None,
                glossary_id: None,
            }),
    {
        UploadDocumentRequester::new(self, fp, target_lang)
    }

    /// The request that asks for the status of the document `ident`.
    pub fn check_document_status(&self, ident: &UploadDocumentResp) -> (request: Option<Request>)
        ensures
            request.deep_view() == self.planned(
                Method::Post,
                document_route(ident.document_id@),
                Seq::empty(),
                Seq::empty(),
                key_form(ident.document_key@),
            ),
    {
        let route = prefixed("document/", ident.document_id.as_str());
        self.plain_request(Method::Post, route.as_str(), document_key_form(ident))
    }

    /// The request that downloads the translation of the document `ident`.
    pub fn download_document(&self, ident: &UploadDocumentResp) -> (request: Option<Request>)
        ensures
            request.deep_view() == self.planned(
                Method::Post,
                result_route(ident.document_id@),
                Seq::empty(),
                Seq::empty(),
                key_form(ident.document_key@),
            ),
    {
        let route = prefixed("document/", ident.document_id.as_str()).concat("/result");
        self.plain_request(Method::Post, route.as_str(), document_key_form(ident))
    }
}

/// The step after the reply to a download with the status code `code`.
pub open spec fn download_step_for(code: int) -> ReplyStep {
    if code == 404 {
        ReplyStep::Reject(Error::NonExistDocument)
    } else if code == 503 {
        ReplyStep::Reject(Error::TranslationNotDone)
    } else if 200 <= code <= 299 {
        ReplyStep::ReadResult
    } else {
        ReplyStep::ReadFailure
    }
}

/// Decides by the status of the reply to a download how it is read: 404 says
/// that the document is unknown, 503 that the translation is not finished.
pub fn download_step(status: HttpStatus) -> (step: ReplyStep)
    ensures
        step == download_step_for(status.value()),
{
    let code = status.code();
    if code == 404 {
        ReplyStep::Reject(Error::NonExistDocument)
    } else if code == 503 {
        ReplyStep::Reject(Error::TranslationNotDone)
    } else if !status.is_success() {
        ReplyStep::ReadFailure
    } else {
        ReplyStep::ReadResult
    }
}

/// What can fail while a part of the translation goes from the reply into
/// the output file.
#[derive(Debug, Clone, Copy, PartialEq, Eq)]
pub enum DownloadStage {
    /// Receiving the part.
    Receive,
    /// Writing the part into the file.
    Write,
    /// Flushing the file to the disk.
    Sync,
}

impl DownloadStage {
    /// What the error says about the stage.
    pub open spec fn complaint(self) -> Seq<char> {
        match self {
            DownloadStage::Receive => "fail to download part of the document"@,
            DownloadStage::Write => "fail to write downloaded part into file"@,
            DownloadStage::Sync => "fail to sync file content"@,
        }
    }
}

/// The error for a failure at `stage`; `cause` is what the transport or the
/// file system said.
pub fn download_failure(stage: DownloadStage, cause: &str) -> (error: Error)
    ensures
        error.deep_view() == ErrorView::WriteFileError(stage.complaint() + ": "@ + cause@),
{
    let complaint = match stage {
        DownloadStage::Receive => "fail to download part of the document",
        DownloadStage::Write => "fail to write downloaded part into file",
        DownloadStage::Sync => "fail to sync file content",
    };
    Error::WriteFileError(String::from_str(complaint).concat(": ").concat(cause))
}

/// Where the opening of the output file stands. The file is created anew and
/// never opened over an existing one: a file that is in the way is removed,
/// once, and the opening tried again.
#[derive(Debug, Clone, Copy, PartialEq, Eq)]
pub enum OpenState {
    /// The file is being created.
    Opening,
    /// The file that was in the way is being removed.
    Removing,
    /// The file is being created for the second time.
    Reopening,
}

/// How the operation of an `OpenState` ended.
#[derive(Debug, Clone, PartialEq, Eq)]
pub enum OpenEvent {
    /// It succeeded.
    Done,
    /// It failed. `exists` says whether the cause is that the file exists
    /// already; `cause` is what the file system said.
    Failed { exists: bool, cause: String },
}

/// What follows an `OpenEvent`.
#[derive(Debug, Clone, PartialEq, Eq)]
pub enum OpenStep {
    /// The file is open for writing.
    Ready,
    /// Perform the operation of this state next.
    Continue(OpenState),
    /// Give up with this error.
    Fail(Error),
}

/// An `OpenStep` with its text as a sequence of characters.
pub enum OpenStepView {
    Ready,
    Continue(OpenState),
    Fail(ErrorView),
}

impl DeepView for OpenStep {
    type V = OpenStepView;

    open spec fn deep_view(&self) -> OpenStepView {
        match self {
            OpenStep::Ready => OpenStepView::Ready,
            OpenStep::Continue(state) => OpenStepView::Continue(*state),
            OpenStep::Fail(error) => OpenStepView::Fail(error.deep_view()),
        }
    }
}

impl OpenState {
    /// How far the opening has come.
    pub open spec fn rank(self) -> nat {
        match self {
            OpenState::Opening => 0,
            OpenState::Removing => 1,
            OpenState::Reopening => 2,
        }
    }

    /// What follows when the operation of this state succeeded.
    pub open spec fn after_success(self) -> OpenStepView {
        match self {
            OpenState::Opening => OpenStepView::Ready,
            OpenState::Removing => OpenStepView::Continue(OpenState::Reopening),
            OpenState::Reopening => OpenStepView::Ready,
        }
    }

    /// What follows when the operation of this state failed. `path` is the
    /// file's path as it is shown in messages.
    pub open spec fn after_failure(
        self,
        path: Seq<char>,
        exists: bool,
        cause: Seq<char>,
    ) -> OpenStepView {
        match self {
            OpenState::Opening => if exists {
                OpenStepView::Continue(OpenState::Removing)
            } else {
                OpenStepView::Fail(
                    ErrorView::WriteFileError("Fail to open file "@ + path + ": "@ + cause),
                )
            },
            OpenState::Removing => OpenStepView::Fail(
                ErrorView::WriteFileError(
                    "There was already a file there and it is not deletable: "@ + cause,
                ),
            ),
            OpenState::Reopening => OpenStepView::Fail(
                ErrorView::WriteFileError(
                    "Fail to open file for download document, even after retry: "@ + cause,
                ),
            ),
        }
    }
}

/// One decision in the opening of the output file: `event` says how the
/// operation of `state` ended, the result what to do next. `path` is the
/// file's path as it is shown in messages.
///
/// Every `Continue` leads to a state of higher rank, so an opening ends after
/// three operations at most.
pub fn open_file_to_write(state: OpenState, path: &str, event: &OpenEvent) -> (step: OpenStep)
    ensures
        step.deep_view() == match event {
            OpenEvent::Done => state.after_success(),
            OpenEvent::Failed { exists, cause } => state.after_failure(path@, *exists, cause@),
        },
        step matches OpenStep::Continue(next) ==> next.rank() > state.rank(),
{
    match event {
        OpenEvent::Done => match state {
            OpenState::Opening => OpenStep::Ready,
            OpenState::Removing => OpenStep::Continue(OpenState::Reopening),
            OpenState::Reopening => OpenStep::Ready,
        },
        OpenEvent::Failed { exists, cause } => match state {
            OpenState::Opening => {
                if *exists {
                    OpenStep::Continue(OpenState::Removing)
                } else {
                    OpenStep::Fail(
                        Error::WriteFileError(
                            String::from_str("Fail to open file ").concat(path).concat(": ").concat(
                                cause.as_str(),
                            ),
                        ),
                    )
                }
            },
            OpenState::Removing => OpenStep::Fail(
                Error::WriteFileError(
                    prefixed(
                        "There was already a file there and it is not deletable: ",
                        cause.as_str(),
                    ),
                ),
            ),
            OpenState::Reopening => OpenStep::Fail(
                Error::WriteFileError(
                    prefixed(
                        "Fail to open file for download document, even after retry: ",
                        cause.as_str(),
                    ),
                ),
            ),
        },
    }
}

} // verus!
