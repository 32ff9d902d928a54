//! Glossaries: lists of term pairs that the service keeps and applies to later
//! translations.

pub mod languages;

use crate::endpoint::glossary::languages::GlossaryLanguage;
use crate::endpoint::{extract_deepl_error, failure_text, prefixed, Error, ErrorView, REPO_URL};
use crate::http::{
    no_fields, push_field, Fields, HttpStatus, Method, Payload, PayloadView, Request,
};
use crate::text::{
    free_of, join, join_text, lemma_split_around, lemma_split_join, lemma_split_nonempty,
    lemma_split_one_piece, push_text, split, split_text,
};
use crate::DeepLApi;
use vstd::prelude::*;

verus! {

/// Format used for glossary entries.
#[allow(clippy::upper_case_acronyms)]
#[derive(Debug, Clone, Copy, PartialEq, Eq)]
pub enum EntriesFormat {
    /// Tab separated values (TSV)
    TSV,
    /// Comma separated values (CSV)
    CSV,
}

impl EntriesFormat {
    /// The name of the format, as the service writes it.
    pub open spec fn token(self) -> Seq<char> {
        match self {
            EntriesFormat::TSV => "tsv"@,
            EntriesFormat::CSV => "csv"@,
        }
    }

    /// The character between the two terms of an entry.
    pub open spec fn separator(self) -> char {
        match self {
            EntriesFormat::TSV => '\t',
            EntriesFormat::CSV => ',',
        }
    }

    /// The name of the format, as the service writes it.
    pub fn to_string(&self) -> (token: String)
        ensures
            token@ == self.token(),
    {
        match self {
            EntriesFormat::TSV => String::from_str("tsv"),
            EntriesFormat::CSV => String::from_str("csv"),
        }
    }
}

/// A glossary that is about to be created.
#[derive(Debug, Clone)]
pub struct CreateGlossary<'a> {
    client: &'a DeepLApi,
    name: String,
    source_lang: GlossaryLanguage,
    target_lang: GlossaryLanguage,
    entries: Vec<(String, String)>,
    format: EntriesFormat,
}

/// The contents of a `CreateGlossary`.
pub struct CreateGlossaryView {
    pub client: DeepLApi,
    pub name: Seq<char>,
    pub source_lang: GlossaryLanguage,
    pub target_lang: GlossaryLanguage,
    pub entries: Fields,
    pub format: EntriesFormat,
}

impl<'a> DeepView for CreateGlossary<'a> {
    type V = CreateGlossaryView;

    closed spec fn deep_view(&self) -> CreateGlossaryView {
        CreateGlossaryView {
            client: *self.client,
            name: self.name@,
            source_lang: self.source_lang,
            target_lang: self.target_lang,
            entries: self.entries.deep_view(),
            format: self.format,
        }
    }
}

/// Collects the settings of a `CreateGlossary`. The languages and the entries
/// have to be set; the format is TSV unless another is chosen.
#[derive(Debug, Clone)]
pub struct CreateGlossaryBuilder<'a> {
    client: &'a DeepLApi,
    name: String,
    source_lang: Option<GlossaryLanguage>,
    target_lang: Option<GlossaryLanguage>,
    entries: Option<Vec<(String, String)>>,
    format: Option<EntriesFormat>,
}

/// The settings of a `CreateGlossaryBuilder`.
pub struct CreateGlossaryDraft {
    pub client: DeepLApi,
    pub name: Seq<char>,
    pub source_lang: Option<GlossaryLanguage>,
    pub target_lang: Option<GlossaryLanguage>,
    pub entries: Option<Fields>,
    pub format: Option<EntriesFormat>,
}

impl CreateGlossaryDraft {
    /// The glossary that the settings describe, where none that is needed is
    /// missing.
    pub open spec fn complete(self) -> Option<CreateGlossaryView> {
        if self.source_lang is Some && self.target_lang is Some && self.entries is Some {
            Some(
                CreateGlossaryView {
                    client: self.client,
                    name: self.name,
                    source_lang: self.source_lang->Some_0,
                    target_lang: self.target_lang->Some_0,
                    entries: self.entries->Some_0,
                    format: match self.format {
                        Some(format) => format,
                        None => EntriesFormat::TSV,
                    },
                },
            )
        } else {
            None
        }
    }
}

impl<'a> DeepView for CreateGlossaryBuilder<'a> {
    type V = CreateGlossaryDraft;

    closed spec fn deep_view(&self) -> CreateGlossaryDraft {
        CreateGlossaryDraft {
            client: *self.client,
            name: self.name@,
            source_lang: self.source_lang,
            target_lang: self.target_lang,
            entries: self.entries.deep_view(),
            format: self.format,
        }
    }
}

impl<'a> CreateGlossaryBuilder<'a> {
    /// The language in which the source texts in the glossary are specified.
    pub fn source_lang(self, source_lang: GlossaryLanguage) -> (builder: Self)
        ensures
            builder.deep_view() == (CreateGlossaryDraft {
                source_lang: Some(source_lang),
                ..self.deep_view()
            }),
    {
        let mut builder = self;
        builder.source_lang = Some(source_lang);
        builder
    }

    /// The language in which the target texts in the glossary are specified.
    pub fn target_lang(self, target_lang: GlossaryLanguage) -> (builder: Self)
        ensures
            builder.deep_view() == (CreateGlossaryDraft {
                target_lang: Some(target_lang),
                ..self.deep_view()
            }),
    {
        let mut builder = self;
        builder.target_lang = Some(target_lang);
        builder
    }

    /// The entries of the glossary.
    ///
    /// Each pair holds a term in the source language and its translation.
    ///
    /// # Example
    /// ```text
    /// let my_entries = vec![("Hello", "Guten Tag"), ("Bye", "Auf Wiedersehen")];
    /// let glossary = deepl
    ///     .create_glossary("My Glossary")
    ///     .source_lang(GlossaryLanguage::En)
    ///     .target_lang(GlossaryLanguage::De)
    ///     .entries(&my_entries)
    ///     .format(EntriesFormat::CSV) // This field is optional, we will use TSV as default.
    ///     .send();
    /// ```
    pub fn entries(self, pairs: &[(&str, &str)]) -> (builder: Self)
        ensures
            builder.deep_view() == (CreateGlossaryDraft {
                entries: Some(pairs.deep_view()),
                ..self.deep_view()
            }),
    {
        let mut entries = no_fields();
        for at in 0..pairs.len()
            invariant
                entries.deep_view() == pairs.deep_view().subrange(0, at as int),
        {
            push_field(&mut entries, pairs[at].0, pairs[at].1);
        }
        assert(pairs.deep_view().subrange(0, pairs.len() as int) =~= pairs.deep_view());
        let mut builder = self;
        builder.entries = Some(entries);
        builder
    }

    /// The format in which the entries are sent.
    pub fn format(self, format: EntriesFormat) -> (builder: Self)
        ensures
            builder.deep_view() == (CreateGlossaryDraft {
                format: Some(format),
                ..self.deep_view()
            }),
    {
        let mut builder = self;
        builder.format = Some(format);
        builder
    }

    /// The glossary as it was described, or `None` where a language or the
    /// entries were not set.
    pub fn send(self) -> (glossary: Option<CreateGlossary<'a>>)
        ensures
            glossary.deep_view() == self.deep_view().complete(),
    {
        let format = match self.format {
            Some(format) => format,
            None => EntriesFormat::TSV,
        };
        match (self.source_lang, self.target_lang, self.entries) {
            (Some(source_lang), Some(target_lang), Some(entries)) => Some(
                CreateGlossary {
                    client: self.client,
                    name: self.name,
                    source_lang,
                    target_lang,
                    entries,
                    format,
                },
            ),
            _ => None,
        }
    }
}

/// One entry as a line: the two terms with `sep` between them.
pub open spec fn entry_line(entry: (Seq<char>, Seq<char>), sep: char) -> Seq<char> {
    entry.0.push(sep) + entry.1
}

/// The entries as one text: a line for each entry, and a line feed between
/// each two lines.
pub open spec fn entries_text(entries: Fields, sep: char) -> Seq<char> {
    join(Seq::new(entries.len(), |i: int| entry_line(entries[i], sep)), '\n')
}

/// The parameters of the request that creates a glossary.
#[derive(Debug, Clone, PartialEq, Eq)]
pub struct CreateGlossaryRequestParam {
    pub name: String,
    pub source_lang: String,
    pub target_lang: String,
    pub entries: String,
    pub entries_format: String,
}

impl CreateGlossaryView {
    /// The members of the JSON object that describes the glossary.
    pub open spec fn members(self) -> Fields {
        seq![
            ("name"@, self.name),
            ("source_lang"@, self.source_lang.code()),
            ("target_lang"@, self.target_lang.code()),
            ("entries"@, entries_text(self.entries, self.format.separator())),
            ("entries_format"@, self.format.token()),
        ]
    }
}

impl CreateGlossaryRequestParam {
    /// The parameters as the members of a JSON object, in the order of the
    /// fields.
    pub open spec fn members(self) -> Fields {
        seq![
            ("name"@, self.name@),
            ("source_lang"@, self.source_lang@),
            ("target_lang"@, self.target_lang@),
            ("entries"@, self.entries@),
            ("entries_format"@, self.entries_format@),
        ]
    }

    /// The parameters that describe `value`: the languages by their codes, the
    /// entries as lines in the chosen format.
    pub fn from(value: &CreateGlossary<'_>) -> (param: CreateGlossaryRequestParam)
        ensures
            param.members() == value.deep_view().members(),
    {
        let sep = match value.format {
            EntriesFormat::TSV => '\t',
            EntriesFormat::CSV => ',',
        };
        let mut lines: Vec<String> = Vec::new();
        let ghost entries = value.entries.deep_view();
        for at in 0..value.entries.len()
            invariant
                entries == value.entries.deep_view(),
                lines.deep_view() == Seq::new(at as nat, |i: int| entry_line(entries[i], sep)),
        {
            let mut line = value.entries[at].0.clone();
            line.push(sep);
            line.append(value.entries[at].1.as_str());
            push_text(&mut lines, line);
        }
        CreateGlossaryRequestParam {
            name: value.name.clone(),
            source_lang: value.source_lang.to_string(),
            target_lang: value.target_lang.to_string(),
            entries: join_text(&lines, '\n'),
            entries_format: value.format.to_string(),
        }
    }

    /// The parameters as the members of a JSON object.
    pub fn to_members(&self) -> (members: Vec<(String, String)>)
        ensures
            members.deep_view() == self.members(),
    {
        let mut members = no_fields();
        push_field(&mut members, "name", self.name.as_str());
        push_field(&mut members, "source_lang", self.source_lang.as_str());
        push_field(&mut members, "target_lang", self.target_lang.as_str());
        push_field(&mut members, "entries", self.entries.as_str());
        push_field(&mut members, "entries_format", self.entries_format.as_str());
        members
    }
}

impl<'a> CreateGlossary<'a> {
    /// Starts the description of a glossary named `name`.
    pub fn builder(client: &'a DeepLApi, name: String) -> (builder: CreateGlossaryBuilder<'a>)
        ensures
            builder.deep_view() == (CreateGlossaryDraft {
                client: *client,
                name: name@,
                source_lang: None,
                target_lang: None,
                entries: None,
                format: None,
            }),
    {
        CreateGlossaryBuilder {
            client,
            name,
            source_lang: None,
            target_lang: None,
            entries: None,
            format: None,
        }
    }

    /// The request that creates the glossary.
    pub fn into_request(&self) -> (request: Option<Request>)
        ensures
            request.deep_view() == self.deep_view().client.planned(
                Method::Post,
                "glossaries"@,
                Seq::empty(),
                Seq::empty(),
                PayloadView::Json(self.deep_view().members()),
            ),
    {
        let fields = CreateGlossaryRequestParam::from(self);
        self.client.plain_request(Method::Post, "glossaries", Payload::Json(fields.to_members()))
    }
}

/// What the service says of a glossary.
#[derive(Debug, Clone, PartialEq, Eq)]
pub struct GlossaryResp {
    /// A unique ID assigned to a glossary.
    pub glossary_id: String,
    /// Name associated with the glossary.
    pub name: String,
    /// Indicates if the newly created glossary can already be used in translate requests.
    /// If the created glossary is not yet ready, you have to wait and check the ready status
    /// of the glossary before using it in a translate request.
    pub ready: bool,
    /// The language in which the source texts in the glossary are specified.
    pub source_lang: GlossaryLanguage,
    /// The language in which the target texts in the glossary are specified.
    pub target_lang: GlossaryLanguage,
    /// The creation time of the glossary in the ISO 8601-1:2019 format (e.g.: 2021-08-03T14:16:18.329Z).
    pub creation_time: String,
    /// The number of entries in the glossary.
    pub entry_count: u64,
}

/// A glossary language pair.
#[derive(Debug, Clone, Copy, PartialEq, Eq)]
pub struct GlossaryLanguagePair {
    /// Source language
    pub source_lang: GlossaryLanguage,
    /// Target language
    pub target_lang: GlossaryLanguage,
}

/// The route of the glossary `id`.
pub open spec fn glossary_route(id: Seq<char>) -> Seq<char> {
    "glossaries/"@ + id
}

/// The route of the entries of the glossary `id`.
pub open spec fn entries_route(id: Seq<char>) -> Seq<char> {
    "glossaries/"@ + id + "/entries"@
}

impl DeepLApi {
    /// API for endpoint: <https://www.deepl.com/de/docs-api/glossaries/create-glossary>.
    /// The function for creating a glossary returns a JSON object containing the
    /// ID of the newly created glossary and a boolean flag that indicates if the
    /// created glossary can already be used in translate requests.
    pub fn create_glossary(&self, name: &str) -> (builder: CreateGlossaryBuilder<'_>)
        ensures
            builder.deep_view() == (CreateGlossaryDraft {
                client: *self,
                name: name@,
                source_lang: None,
                target_lang: None,
                entries: None,
                format: None,
            }),
    {
        CreateGlossary::builder(self, String::from_str(name))
    }

    /// List all glossaries and their meta-information, but not the glossary entries.
    pub fn list_all_glossaries(&self) -> (request: Option<Request>)
        ensures
            request.deep_view() == self.planned(
                Method::Get,
                "glossaries"@,
                Seq::empty(),
                Seq::empty(),
                PayloadView::Empty,
            ),
    {
        self.plain_request(Method::Get, "glossaries", Payload::Empty)
    }

    /// Retrieve meta information for a single glossary, omitting the glossary entries.
    /// Require a unique ID assigned to the glossary.
    pub fn retrieve_glossary_details(&self, id: &str) -> (request: Option<Request>)
        ensures
            request.deep_view() == self.planned(
                Method::Get,
                glossary_route(id@),
                Seq::empty(),
                Seq::empty(),
                PayloadView::Empty,
            ),
    {
        let route = prefixed("glossaries/", id);
        self.plain_request(Method::Get, route.as_str(), Payload::Empty)
    }

    /// Deletes the specified glossary.
    pub fn delete_glossary(&self, id: &str) -> (request: Option<Request>)
        ensures
            request.deep_view() == self.planned(
                Method::Delete,
                glossary_route(id@),
                Seq::empty(),
                Seq::empty(),
                PayloadView::Empty,
            ),
    {
        let route = prefixed("glossaries/", id);
        self.plain_request(Method::Delete, route.as_str(), Payload::Empty)
    }

    /// List the entries of a single glossary in the format specified by the Accept header.
    /// Currently, support TSV(tab separated value) only.
    pub fn retrieve_glossary_entries(&self, id: &str) -> (request: Option<Request>)
        ensures
            request.deep_view() == self.planned(
                Method::Get,
                entries_route(id@),
                seq![("Accept"@, "text/tab-separated-values"@)],
                Seq::empty(),
                PayloadView::Empty,
            ),
    {
        let route = prefixed("glossaries/", id).concat("/entries");
        let mut headers = no_fields();
        push_field(&mut headers, "Accept", "text/tab-separated-values");
        self.plan(Method::Get, route.as_str(), headers, no_fields(), Payload::Empty)
    }

    /// Retrieve the list of language pairs supported by the glossary feature.
    pub fn list_glossary_language_pairs(&self) -> (request: Option<Request>)
        ensures
            request.deep_view() == self.planned(
                Method::Get,
                "glossary-language-pairs"@,
                Seq::empty(),
                Seq::empty(),
                PayloadView::Empty,
            ),
    {
        self.plain_request(Method::Get, "glossary-language-pairs", Payload::Empty)
    }
}

/// The list of glossaries in a reply: the member `glossaries` of its JSON
/// object, `found`. A reply without that member has not the expected shape.
pub fn glossaries_in_reply(found: Option<Vec<GlossaryResp>>) -> (out: Result<
    Vec<GlossaryResp>,
    Error,
>)
    ensures
        match found {
            Some(glossaries) => out == Ok::<Vec<GlossaryResp>, Error>(glossaries),
            None => out is Err && out->Err_0.deep_view() == ErrorView::InvalidResponse(
                "Unable to find key glossaries in response, please open issue on "@ + REPO_URL@,
            ),
        },
{
    match found {
        Some(glossaries) => Ok(glossaries),
        None => Err(
            Error::InvalidResponse(
                prefixed("Unable to find key glossaries in response, please open issue on ", REPO_URL),
            ),
        ),
    }
}

/// The error for a successful reply whose body could not be read as text;
/// `cause` is what the transport said.
pub fn entries_failure(cause: &str) -> (error: Error)
    ensures
        error.deep_view() == ErrorView::RequestFail(
            "fail to retrieve glossary entries: "@ + cause@,
        ),
{
    Error::RequestFail(prefixed("fail to retrieve glossary entries: ", cause))
}

/// The entry in a line of tab separated values: its first two fields. A line
/// without a tab holds no entry.
pub open spec fn entry_of_line(line: Seq<char>) -> Option<(Seq<char>, Seq<char>)> {
    let fields = split(line, '\t');
    if fields.len() >= 2 {
        Some((fields[0], fields[1]))
    } else {
        None
    }
}

/// The entries in a text of tab separated values, one for each line, where
/// every line holds one.
pub open spec fn entries_of(reply: Seq<char>) -> Option<Fields> {
    let lines = split(reply, '\n');
    if forall|i: int| 0 <= i < lines.len() ==> (#[trigger] entry_of_line(lines[i])) is Some {
        Some(Seq::new(lines.len(), |i: int| entry_of_line(lines[i])->Some_0))
    } else {
        None
    }
}

/// Reads the entries of a glossary from the body of the reply. Lines are
/// parted by line feeds and the terms of a line by tabs; fields after the
/// second are ignored. `None` where a line has no tab in it, as the empty
/// line after a final line feed.
pub fn glossary_entries(reply: &str) -> (entries: Option<Vec<(String, String)>>)
    ensures
        entries.deep_view() == entries_of(reply@),
{
    let lines = split_text(reply, '\n');
    let ghost all = split(reply@, '\n');
    let mut entries = no_fields();
    for at in 0..lines.len()
        invariant
            all == lines.deep_view(),
            all == split(reply@, '\n'),
            forall|i: int| 0 <= i < at ==> (#[trigger] entry_of_line(all[i])) is Some,
            entries.deep_view() == Seq::new(at as nat, |i: int| entry_of_line(all[i])->Some_0),
    {
        let fields = split_text(lines[at].as_str(), '\t');
        if fields.len() < 2 {
            assert(entry_of_line(all[at as int]) is None);
            return None;
        }
        push_field(&mut entries, fields[0].as_str(), fields[1].as_str());
    }
    Some(entries)
}

/// What a body that is no list of entries is reported as.
pub open spec fn entries_malformed() -> ErrorView {
    ErrorView::InvalidResponse(
        "glossary entries are not tab separated values: a line has no tab"@,
    )
}

/// The entries in the body of a successful reply, or the error for a body of
/// another shape: one with a line that has no tab in it.
pub fn entries_in_body(reply: &str) -> (out: Result<Vec<(String, String)>, Error>)
    ensures
        match entries_of(reply@) {
            Some(entries) => out is Ok && out->Ok_0.deep_view() == entries,
            None => out is Err && out->Err_0.deep_view() == entries_malformed(),
        },
{
    match glossary_entries(reply) {
        Some(entries) => Ok(entries),
        None => Err(
            Error::InvalidResponse(
                String::from_str("glossary entries are not tab separated values: a line has no tab"),
            ),
        ),
    }
}

/// The body of a reply as the message of a failure: the text, where it could
/// be read.
pub open spec fn body_message(body: Result<String, String>) -> Option<Seq<char>> {
    match body {
        Ok(text) => Some(text@),
        Err(_) => None,
    }
}

/// What the reply to the request for the entries of a glossary gives.
/// `body` is the body as text, or what the transport said where it could not
/// be read.
///
/// A reply that is no success (a status outside 200 to 299) is a failure that
/// carries its status and body. A success whose body could not be read is a
/// failure of the transport; one whose body was read gives the entries in it.
pub fn entries_reply(status: HttpStatus, body: Result<String, String>) -> (out: Result<
    Vec<(String, String)>,
    Error,
>)
    ensures
        !(200 <= status.value() <= 299) ==> out is Err && out->Err_0.deep_view()
            == ErrorView::RequestFail(failure_text(status.line(), body_message(body))),
        200 <= status.value() <= 299 ==> match body {
            Err(cause) => out is Err && out->Err_0.deep_view() == ErrorView::RequestFail(
                "fail to retrieve glossary entries: "@ + cause@,
            ),
            Ok(text) => match entries_of(text@) {
                Some(entries) => out is Ok && out->Ok_0.deep_view() == entries,
                None => out is Err && out->Err_0.deep_view() == entries_malformed(),
            },
        },
{
    if !status.is_success() {
        let message = match body {
            Ok(text) => Some(text),
            Err(_) => None,
        };
        Err(extract_deepl_error(status, message))
    } else {
        match body {
            Ok(text) => entries_in_body(text.as_str()),
            Err(cause) => Err(entries_failure(cause.as_str())),
        }
    }
}

/// What the reply to the request that deletes a glossary gives: nothing for
/// a success (a status from 200 to 299), else a failure that carries the
/// status and, where it could be read as text, the body `message`.
pub fn delete_reply(status: HttpStatus, message: Option<String>) -> (out: Result<(), Error>)
    ensures
        200 <= status.value() <= 299 ==> out is Ok,
        !(200 <= status.value() <= 299) ==> out is Err && out->Err_0.deep_view()
            == ErrorView::RequestFail(failure_text(status.line(), message.deep_view())),
{
    if status.is_success() {
        Ok(())
    } else {
        Err(extract_deepl_error(status, message))
    }
}

/// A body that is empty or ends with a line feed is no list of entries: its
/// last line has no tab in it.
pub proof fn lemma_last_line_needs_tab(reply: Seq<char>)
    requires
        reply.len() == 0 || reply.last() == '\n',
    ensures
        entries_of(reply) is None,
{
    let lines = split(reply, '\n');
    let empty = Seq::<char>::empty();
    if reply.len() > 0 {
        lemma_split_nonempty(reply.drop_last(), '\n');
    }
    assert(lines.last() == empty);
    assert(split(empty, '\t') == seq![empty]);
    assert(entry_of_line(lines[lines.len() - 1]) is None);
}

/// Whether neither term of any entry holds a tab or a line feed.
pub open spec fn plain_terms(entries: Fields) -> bool {
    forall|i: int|
        0 <= i < entries.len() ==> {
            &&& free_of(#[trigger] entries[i].0, '\t')
            &&& free_of(entries[i].0, '\n')
            &&& free_of(entries[i].1, '\t')
            &&& free_of(entries[i].1, '\n')
        }
}

/// Entries written as tab separated values are read back as they were,
/// where there is at least one entry and no term holds a tab or a line feed.
pub proof fn lemma_entries_round_trip(entries: Fields)
    requires
        entries.len() >= 1,
        plain_terms(entries),
    ensures
        entries_of(entries_text(entries, '\t')) == Some(entries),
{
    let lines = Seq::new(entries.len(), |i: int| entry_line(entries[i], '\t'));
    assert forall|i: int| 0 <= i < lines.len() implies free_of(#[trigger] lines[i], '\n') by {
        assert(free_of(entries[i].0, '\n'));
    }
    lemma_split_join(lines, '\n');
    assert forall|i: int| 0 <= i < lines.len() implies (#[trigger] entry_of_line(lines[i])) == Some(
        entries[i],
    ) by {
        lemma_split_around(entries[i].0, entries[i].1, '\t');
        lemma_split_one_piece(entries[i].0, '\t');
        lemma_split_one_piece(entries[i].1, '\t');
    }
}

} // verus!
