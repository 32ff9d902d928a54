//! Translation of texts.

use crate::endpoint::Formality;
use crate::http::{
    no_fields, push_field, push_optional, with_optional, Fields, Method, Payload, PayloadView,
    Request,
};
use crate::lang::Lang;
use crate::text::{join, join_text, push_text};
use crate::DeepLApi;
use vstd::prelude::*;

verus! {

/// Response from basic translation API
#[derive(Debug, Clone, PartialEq, Eq)]
pub struct TranslateTextResp {
    pub translations: Vec<Sentence>,
}

/// Translated result for a sentence
#[derive(Debug, Clone, PartialEq, Eq)]
pub struct Sentence {
    pub detected_source_language: Lang,
    pub text: String,
}

/// The texts of the first `upto` sentences, one after the other.
pub open spec fn texts_of(sentences: Seq<Sentence>, upto: int) -> Seq<char>
    decreases upto,
{
    if upto <= 0 {
        Seq::<char>::empty()
    } else {
        texts_of(sentences, upto - 1) + sentences[upto - 1].text@
    }
}

impl TranslateTextResp {
    /// The whole translation: the texts of all sentences, with nothing between
    /// them.
    pub fn to_string(&self) -> (text: String)
        ensures
            text@ == texts_of(self.translations@, self.translations@.len() as int),
    {
        let mut text = String::new();
        for at in 0..self.translations.len()
            invariant
                text@ == texts_of(self.translations@, at as int),
        {
            text.append(self.translations[at].text.as_str());
        }
        text
    }
}

///
/// Sets whether the translation engine should respect the original formatting,
/// even if it would usually correct some aspects.
/// The formatting aspects affected by this setting include:
/// - Punctuation at the beginning and end of the sentence
/// - Upper/lower case at the beginning of the sentence
///
#[derive(Debug, Clone, Copy, PartialEq, Eq)]
pub enum PreserveFormatting {
    Preserve,
    DontPreserve,
}

impl PreserveFormatting {
    /// The token the service expects for this setting.
    pub open spec fn token(self) -> Seq<char> {
        match self {
            PreserveFormatting::Preserve => "1"@,
            PreserveFormatting::DontPreserve => "0"@,
        }
    }

    /// The token the service expects for this setting.
    pub fn as_ref(&self) -> (token: &'static str)
        ensures
            token@ == self.token(),
    {
        match self {
            PreserveFormatting::Preserve => "1",
            PreserveFormatting::DontPreserve => "0",
        }
    }
}

///
/// Sets whether the translation engine should first split the input into sentences
///
/// For applications that send one sentence per text parameter, it is advisable to set this to `NoSplitting`,
/// in order to prevent the engine from splitting the sentence unintentionally.
/// Please note that newlines will split sentences. You should therefore clean files to avoid breaking sentences or set this to `PunctuationOnly`.
///
#[derive(Debug, Clone, Copy, PartialEq, Eq)]
pub enum SplitSentences {
    /// Perform no splitting at all, whole input is treated as one sentence
    NoSplitting,
    /// Split on punctuation and on newlines (default)
    PunctuationAndNewlines,
    /// Split on punctuation only, ignoring newlines
    PunctuationOnly,
}

impl SplitSentences {
    /// The token the service expects for this setting.
    pub open spec fn token(self) -> Seq<char> {
        match self {
            SplitSentences::NoSplitting => "0"@,
            SplitSentences::PunctuationAndNewlines => "1"@,
            SplitSentences::PunctuationOnly => "nonewlines"@,
        }
    }

    /// The token the service expects for this setting.
    pub fn as_ref(&self) -> (token: &'static str)
        ensures
            token@ == self.token(),
    {
        match self {
            SplitSentences::NoSplitting => "0",
            SplitSentences::PunctuationAndNewlines => "1",
            SplitSentences::PunctuationOnly => "nonewlines",
        }
    }
}

///
/// Sets which kind of tags should be handled. Options currently available
///
#[derive(Debug, Clone, Copy, PartialEq, Eq)]
pub enum TagHandling {
    /// Enable XML tag handling
    /// see: <https://www.deepl.com/docs-api/xml>
    Xml,
    /// Enable HTML tag handling
    /// see: <https://www.deepl.com/docs-api/html>
    Html,
}

impl TagHandling {
    /// The token the service expects for this setting.
    pub open spec fn token(self) -> Seq<char> {
        match self {
            TagHandling::Xml => "xml"@,
            TagHandling::Html => "html"@,
        }
    }

    /// The token the service expects for this setting.
    pub fn as_ref(&self) -> (token: &'static str)
        ensures
            token@ == self.token(),
    {
        match self {
            TagHandling::Xml => "xml",
            TagHandling::Html => "html",
        }
    }
}

/// Sets the language model to use: allows to choose an improved "next-gen" model
#[derive(Debug, Clone, Copy, PartialEq, Eq)]
pub enum ModelType {
    /// Use classic lower-latency default model
    LatencyOptimized,
    /// Use improved higher-latency model
    QualityOptimized,
    /// Use improved higher-latency model, but fallback to default model if not available for the selected language
    PreferQualityOptimized,
}

impl ModelType {
    /// The token the service expects for this setting.
    pub open spec fn token(self) -> Seq<char> {
        match self {
            ModelType::LatencyOptimized => "latency_optimized"@,
            ModelType::QualityOptimized => "quality_optimized"@,
            ModelType::PreferQualityOptimized => "prefer_quality_optimized"@,
        }
    }

    /// The token the service expects for this setting.
    pub fn as_ref(&self) -> (token: &'static str)
        ensures
            token@ == self.token(),
    {
        match self {
            ModelType::LatencyOptimized => "latency_optimized",
            ModelType::QualityOptimized => "quality_optimized",
            ModelType::PreferQualityOptimized => "prefer_quality_optimized",
        }
    }
}

/// Builder type for `TranslateRequester`
#[derive(Debug, Clone)]
pub struct TranslateRequester<'a> {
    client: &'a DeepLApi,
    text: Vec<String>,
    target_lang: Lang,
    context: Option<String>,
    source_lang: Option<Lang>,
    split_sentences: Option<SplitSentences>,
    preserve_formatting: Option<PreserveFormatting>,
    formality: Option<Formality>,
    glossary_id: Option<String>,
    tag_handling: Option<TagHandling>,
    model_type: Option<ModelType>,
    non_splitting_tags: Option<Vec<String>>,
    splitting_tags: Option<Vec<String>>,
    ignore_tags: Option<Vec<String>>,
}

/// The settings of a `TranslateRequester`.
pub struct TranslateView {
    pub client: DeepLApi,
    pub text: Seq<Seq<char>>,
    pub target_lang: Lang,
    pub context: Option<Seq<char>>,
    pub source_lang: Option<Lang>,
    pub split_sentences: Option<SplitSentences>,
    pub preserve_formatting: Option<PreserveFormatting>,
    pub formality: Option<Formality>,
    pub glossary_id: Option<Seq<char>>,
    pub tag_handling: Option<TagHandling>,
    pub model_type: Option<ModelType>,
    pub non_splitting_tags: Option<Seq<Seq<char>>>,
    pub splitting_tags: Option<Seq<Seq<char>>>,
    pub ignore_tags: Option<Seq<Seq<char>>>,
}

/// One field `text` for each of the texts.
pub open spec fn text_fields(texts: Seq<Seq<char>>) -> Fields {
    Seq::new(texts.len(), |i: int| ("text"@, texts[i]))
}

/// A list of tags as the value of one field: the tags with commas between them.
pub open spec fn tag_list(tags: Option<Seq<Seq<char>>>) -> Option<Seq<char>> {
    match tags {
        Some(tags) => Some(join(tags, ',')),
        None => None,
    }
}

impl TranslateView {
    /// The fields of the request, in the order in which they are sent: the
    /// texts, the target language, and then each optional setting that was
    /// made, by its token.
    pub open spec fn fields(self) -> Fields {
        let required = text_fields(self.text).push(("target_lang"@, self.target_lang.code()));
        let f1 = with_optional(required, "context"@, self.context);
        let f2 = with_optional(
            f1,
            "source_lang"@,
            match self.source_lang {
                Some(lang) => Some(lang.code()),
                None => None,
            },
        );
        let f3 = with_optional(
            f2,
            "split_sentences"@,
            match self.split_sentences {
                Some(split) => Some(split.token()),
                None => None,
            },
        );
        let f4 = with_optional(
            f3,
            "preserve_formatting"@,
            match self.preserve_formatting {
                Some(preserve) => Some(preserve.token()),
                None => None,
            },
        );
        let f5 = with_optional(
            f4,
            "formality"@,
            match self.formality {
                Some(formality) => Some(formality.token()),
                None => None,
            },
        );
        let f6 = with_optional(f5, "glossary_id"@, self.glossary_id);
        let f7 = with_optional(
            f6,
            "tag_handling"@,
            match self.tag_handling {
                Some(handling) => Some(handling.token()),
                None => None,
            },
        );
        let f8 = with_optional(
            f7,
            "model_type"@,
            match self.model_type {
                Some(model) => Some(model.token()),
                None => None,
            },
        );
        let f9 = with_optional(f8, "non_splitting_tags"@, tag_list(self.non_splitting_tags));
        let f10 = with_optional(f9, "splitting_tags"@, tag_list(self.splitting_tags));
        with_optional(f10, "ignore_tags"@, tag_list(self.ignore_tags))
    }
}

impl<'a> DeepView for TranslateRequester<'a> {
    type V = TranslateView;

    closed spec fn deep_view(&self) -> TranslateView {
        TranslateView {
            client: *self.client,
            text: self.text.deep_view(),
            target_lang: self.target_lang,
            context: self.context.deep_view(),
            source_lang: self.source_lang,
            split_sentences: self.split_sentences,
            preserve_formatting: self.preserve_formatting,
            formality: self.formality,
            glossary_id: self.glossary_id.deep_view(),
            tag_handling: self.tag_handling,
            model_type: self.model_type,
            non_splitting_tags: self.non_splitting_tags.deep_view(),
            splitting_tags: self.splitting_tags.deep_view(),
            ignore_tags: self.ignore_tags.deep_view(),
        }
    }
}

/// The list of tags as one text, where there is a list.
fn joined_tags(tags: &Option<Vec<String>>) -> (list: Option<String>)
    ensures
        list.deep_view() == tag_list(tags.deep_view()),
{
    match tags {
        Some(tags) => Some(join_text(tags, ',')),
        None => None,
    }
}

/// Borrows the text of an optional string.
fn as_text(value: &Option<String>) -> (text: Option<&str>)
    ensures
        text.deep_view() == value.deep_view(),
{
    match value {
        Some(value) => Some(value.as_str()),
        None => None,
    }
}

impl<'a> TranslateRequester<'a> {
    /// A request to translate `text` into `target_lang`, with no optional
    /// setting made.
    pub fn new(client: &'a DeepLApi, text: Vec<String>, target_lang: Lang) -> (requester: Self)
        ensures
            requester.deep_view() == (TranslateView {
                client: *client,
                text: text.deep_view(),
                target_lang,
                context: None,
                source_lang: None,
                split_sentences: None,
                preserve_formatting: None,
                formality: None,
                glossary_id: None,
                tag_handling: None,
                model_type: None,
                non_splitting_tags: None,
                splitting_tags: None,
                ignore_tags: None,
            }),
    {
        Self {
            client,
            text,
            target_lang,
            context: None,
            source_lang: None,
            split_sentences: None,
            preserve_formatting: None,
            formality: None,
            glossary_id: None,
            tag_handling: None,
            model_type: None,
            non_splitting_tags: None,
            splitting_tags: None,
            ignore_tags: None,
        }
    }

    /// Setter for `context`
    pub fn context(&mut self, context: String) -> (requester: &mut Self)
        ensures
            requester.deep_view() == (TranslateView {
                context: Some(context@),
                ..old(self).deep_view()
            }),
            *final(self) == *final(requester),
    {
        self.context = Some(context);
        self
    }

    /// Setter for `source_lang`
    pub fn source_lang(&mut self, source_lang: Lang) -> (requester: &mut Self)
        ensures
            requester.deep_view() == (TranslateView {
                source_lang: Some(source_lang),
                ..old(self).deep_view()
            }),
            *final(self) == *final(requester),
    {
        self.source_lang = Some(source_lang);
        self
    }

    /// Setter for `split_sentences`
    pub fn split_sentences(&mut self, split_sentences: SplitSentences) -> (requester: &mut Self)
        ensures
            requester.deep_view() == (TranslateView {
                split_sentences: Some(split_sentences),
                ..old(self).deep_view()
            }),
            *final(self) == *final(requester),
    {
        self.split_sentences = Some(split_sentences);
        self
    }

    /// Setter for `preserve_formatting`
    pub fn preserve_formatting(&mut self, preserve_formatting: PreserveFormatting) -> (requester:
        &mut Self)
        ensures
            requester.deep_view() == (TranslateView {
                preserve_formatting: Some(preserve_formatting),
                ..old(self).deep_view()
            }),
            *final(self) == *final(requester),
    {
        self.preserve_formatting = Some(preserve_formatting);
        self
    }

    /// Setter for `formality`
    pub fn formality(&mut self, formality: Formality) -> (requester: &mut Self)
        ensures
            requester.deep_view() == (TranslateView {
                formality: Some(formality),
                ..old(self).deep_view()
            }),
            *final(self) == *final(requester),
    {
        self.formality = Some(formality);
        self
    }

    /// Setter for `glossary_id`
    pub fn glossary_id(&mut self, glossary_id: String) -> (requester: &mut Self)
        ensures
            requester.deep_view() == (TranslateView {
                glossary_id: Some(glossary_id@),
                ..old(self).deep_view()
            }),
            *final(self) == *final(requester),
    {
        self.glossary_id = Some(glossary_id);
        self
    }

    /// Setter for `tag_handling`
    pub fn tag_handling(&mut self, tag_handling: TagHandling) -> (requester: &mut Self)
        ensures
            requester.deep_view() == (TranslateView {
                tag_handling: Some(tag_handling),
                ..old(self).deep_view()
            }),
            *final(self) == *final(requester),
    {
        self.tag_handling = Some(tag_handling);
        self
    }

    /// Setter for `model_type`
    pub fn model_type(&mut self, model_type: ModelType) -> (requester: &mut Self)
        ensures
            requester.deep_view() == (TranslateView {
                model_type: Some(model_type),
                ..old(self).deep_view()
            }),
            *final(self) == *final(requester),
    {
        self.model_type = Some(model_type);
        self
    }

    /// Setter for `non_splitting_tags`
    pub fn non_splitting_tags(&mut self, non_splitting_tags: Vec<String>) -> (requester: &mut Self)
        ensures
            requester.deep_view() == (TranslateView {
                non_splitting_tags: Some(non_splitting_tags.deep_view()),
                ..old(self).deep_view()
            }),
            *final(self) == *final(requester),
    {
        self.non_splitting_tags = Some(non_splitting_tags);
        self
    }

    /// Setter for `splitting_tags`
    pub fn splitting_tags(&mut self, splitting_tags: Vec<String>) -> (requester: &mut Self)
        ensures
            requester.deep_view() == (TranslateView {
                splitting_tags: Some(splitting_tags.deep_view()),
                ..old(self).deep_view()
            }),
            *final(self) == *final(requester),
    {
        self.splitting_tags = Some(splitting_tags);
        self
    }

    /// Setter for `ignore_tags`
    pub fn ignore_tags(&mut self, ignore_tags: Vec<String>) -> (requester: &mut Self)
        ensures
            requester.deep_view() == (TranslateView {
                ignore_tags: Some(ignore_tags.deep_view()),
                ..old(self).deep_view()
            }),
            *final(self) == *final(requester),
    {
        self.ignore_tags = Some(ignore_tags);
        self
    }

    /// The fields of the request, in the order in which they are sent.
    pub fn to_fields(&self) -> (fields: Vec<(String, String)>)
        ensures
            fields.deep_view() == self.deep_view().fields(),
    {
        let mut fields = no_fields();
        let ghost texts = self.text.deep_view();
        for at in 0..self.text.len()
            invariant
                texts == self.text.deep_view(),
                fields.deep_view() == text_fields(texts.subrange(0, at as int)),
        {
            push_field(&mut fields, "text", self.text[at].as_str());
        }
        proof {
            assert(texts.subrange(0, self.text.len() as int) =~= texts);
        }
        push_field(&mut fields, "target_lang", self.target_lang.as_ref());
        push_optional(&mut fields, "context", as_text(&self.context));
        push_optional(
            &mut fields,
            "source_lang",
            match &self.source_lang {
                Some(lang) => Some(lang.as_ref()),
                None => None,
            },
        );
        push_optional(
            &mut fields,
            "split_sentences",
            match &self.split_sentences {
                Some(split) => Some(split.as_ref()),
                None => None,
            },
        );
        push_optional(
            &mut fields,
            "preserve_formatting",
            match &self.preserve_formatting {
                Some(preserve) => Some(preserve.as_ref()),
                None => None,
            },
        );
        push_optional(
            &mut fields,
            "formality",
            match &self.formality {
                Some(formality) => Some(formality.as_ref()),
                None => None,
            },
        );
        push_optional(&mut fields, "glossary_id", as_text(&self.glossary_id));
        push_optional(
            &mut fields,
            "tag_handling",
            match &self.tag_handling {
                Some(handling) => Some(handling.as_ref()),
                None => None,
            },
        );
        push_optional(
            &mut fields,
            "model_type",
            match &self.model_type {
                Some(model) => Some(model.as_ref()),
                None => None,
            },
        );
        let non_splitting = joined_tags(&self.non_splitting_tags);
        push_optional(&mut fields, "non_splitting_tags", as_text(&non_splitting));
        let splitting = joined_tags(&self.splitting_tags);
        push_optional(&mut fields, "splitting_tags", as_text(&splitting));
        let ignore = joined_tags(&self.ignore_tags);
        push_optional(&mut fields, "ignore_tags", as_text(&ignore));
        fields
    }

    /// The request that asks for the translation.
    pub fn send(&self) -> (request: Option<Request>)
        ensures
            request.deep_view() == self.deep_view().client.planned(
                Method::Post,
                "translate"@,
                Seq::empty(),
                Seq::empty(),
                PayloadView::Form(self.deep_view().fields()),
            ),
    {
        self.client.plain_request(Method::Post, "translate", Payload::Form(self.to_fields()))
    }
}

/// What can be handed over for translation: one text or several.
pub trait ToTranslatable {
    /// The texts, in order.
    spec fn texts(&self) -> Seq<Seq<char>>;

    /// The texts, owned.
    fn to_translatable(&self) -> (texts: Vec<String>)
        ensures
            texts.deep_view() == self.texts(),
    ;
}

impl ToTranslatable for String {
    open spec fn texts(&self) -> Seq<Seq<char>> {
        seq![self@]
    }

    fn to_translatable(&self) -> (texts: Vec<String>) {
        let mut texts: Vec<String> = Vec::new();
        texts.push(self.clone());
        texts
    }
}

impl ToTranslatable for &str {
    open spec fn texts(&self) -> Seq<Seq<char>> {
        seq![self@]
    }

    fn to_translatable(&self) -> (texts: Vec<String>) {
        let mut texts: Vec<String> = Vec::new();
        texts.push(String::from_str(self));
        texts
    }
}

impl ToTranslatable for Vec<String> {
    open spec fn texts(&self) -> Seq<Seq<char>> {
        self.deep_view()
    }

    fn to_translatable(&self) -> (texts: Vec<String>) {
        let mut texts: Vec<String> = Vec::new();
        for at in 0..self.len()
            invariant
                texts.deep_view() == self.deep_view().subrange(0, at as int),
        {
            push_text(&mut texts, self[at].clone());
        }
        texts
    }
}

impl ToTranslatable for &[String] {
    open spec fn texts(&self) -> Seq<Seq<char>> {
        self.deep_view()
    }

    fn to_translatable(&self) -> (texts: Vec<String>) {
        let mut texts: Vec<String> = Vec::new();
        for at in 0..self.len()
            invariant
                texts.deep_view() == self.deep_view().subrange(0, at as int),
        {
            push_text(&mut texts, self[at].clone());
        }
        texts
    }
}

impl ToTranslatable for &[&str] {
    open spec fn texts(&self) -> Seq<Seq<char>> {
        self.deep_view()
    }

    fn to_translatable(&self) -> (texts: Vec<String>) {
        let mut texts: Vec<String> = Vec::new();
        for at in 0..self.len()
            invariant
                texts.deep_view() == self.deep_view().subrange(0, at as int),
        {
            push_text(&mut texts, String::from_str(self[at]));
        }
        texts
    }
}

impl DeepLApi {
    /// Translate the given text with specific target language.
    ///
    /// The optional settings are made on the requester that is returned; its
    /// `send` gives the request.
    ///
    /// # Example
    ///
    /// ```text
    /// let deepl = DeepLApi::with("Your DeepL Key").new();
    /// let request = deepl
    ///     .translate_text("Hello World <keep>This will stay exactly the way it was</keep>", Lang::DE)
    ///     .source_lang(Lang::EN)
    ///     .ignore_tags(vec!["keep".to_owned()])
    ///     .tag_handling(TagHandling::Xml)
    ///     .send();
    /// ```
    pub fn translate_text<T: ToTranslatable>(&self, input: T, target_lang: Lang) -> (requester:
        TranslateRequester<'_>)
        ensures
            requester.deep_view() == (TranslateView {
                client: *self,
                text: input.texts(),
                target_lang,
                context: None,
                source_lang: None,
                split_sentences: None,
                preserve_formatting: None,
                formality: None,
                glossary_id: None,
                tag_handling: None,
                model_type: None,
                non_splitting_tags: None,
                splitting_tags: None,
                ignore_tags: None,
            }),
    {
        TranslateRequester::new(self, input.to_translatable(), target_lang)
    }
}

} // verus!
