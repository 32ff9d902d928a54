use deepl::endpoint::translate::{
    ModelType, PreserveFormatting, Sentence, SplitSentences, ToTranslatable,
};
use deepl::http::{field, Method, Payload, Request};
use deepl::{DeepLApi, Formality, Lang, TagHandling, TranslateTextResp};

fn strings(items: &[&str]) -> Vec<String> {
    items.iter().map(|s| s.to_string()).collect()
}

#[test]
fn split_sentences_tokens() {
    assert_eq!(SplitSentences::NoSplitting.as_ref(), "0");
    assert_eq!(SplitSentences::PunctuationAndNewlines.as_ref(), "1");
    assert_eq!(SplitSentences::PunctuationOnly.as_ref(), "nonewlines");
}

#[test]
fn preserve_formatting_tokens() {
    assert_eq!(PreserveFormatting::Preserve.as_ref(), "1");
    assert_eq!(PreserveFormatting::DontPreserve.as_ref(), "0");
}

#[test]
fn tag_handling_tokens() {
    assert_eq!(TagHandling::Xml.as_ref(), "xml");
    assert_eq!(TagHandling::Html.as_ref(), "html");
}

#[test]
fn model_type_tokens() {
    assert_eq!(ModelType::LatencyOptimized.as_ref(), "latency_optimized");
    assert_eq!(ModelType::QualityOptimized.as_ref(), "quality_optimized");
    assert_eq!(ModelType::PreferQualityOptimized.as_ref(), "prefer_quality_optimized");
}

#[test]
fn one_text_is_a_list_of_one() {
    assert_eq!("Hello World".to_translatable(), strings(&["Hello World"]));
    assert_eq!("Hello World".to_string().to_translatable(), strings(&["Hello World"]));
    assert_eq!("".to_translatable(), strings(&[""]));
}

#[test]
fn lists_of_texts_keep_their_order() {
    let owned = strings(&["a", "b", "c"]);
    assert_eq!(owned.to_translatable(), owned);
    assert_eq!(owned.as_slice().to_translatable(), owned);
    let borrowed: &[&str] = &["a", "b", "c"];
    assert_eq!(borrowed.to_translatable(), owned);
    let empty: &[&str] = &[];
    assert_eq!(empty.to_translatable(), Vec::<String>::new());
    assert_eq!(Vec::<String>::new().to_translatable(), Vec::<String>::new());
}

#[test]
fn simple_translation() {
    let api = DeepLApi::with("k").new();
    let requester = api.translate_text("Hello World", Lang::ZH);
    assert_eq!(requester.to_fields(), vec![field("text", "Hello World"), field("target_lang", "ZH")]);
    assert_eq!(
        requester.send(),
        Some(Request {
            method: Method::Post,
            url: "https://api-free.deepl.com/v2/translate".to_string(),
            headers: vec![field("Authorization", "DeepL-Auth-Key k")],
            query: vec![],
            payload: Payload::Form(vec![field("text", "Hello World"), field("target_lang", "ZH")]),
        })
    );
}

#[test]
fn several_texts_are_several_fields() {
    let api = DeepLApi::with("k").new();
    let requester = api.translate_text(strings(&["one", "two, three", ""]), Lang::EN_US);
    assert_eq!(
        requester.to_fields(),
        vec![
            field("text", "one"),
            field("text", "two, three"),
            field("text", ""),
            field("target_lang", "EN-US"),
        ]
    );
}

#[test]
fn no_text_leaves_the_target_language() {
    let api = DeepLApi::with("k").new();
    let requester = api.translate_text(Vec::<String>::new(), Lang::DE);
    assert_eq!(requester.to_fields(), vec![field("target_lang", "DE")]);
}

#[test]
fn translation_with_tags() {
    let api = DeepLApi::with("k").new();
    let mut requester = api.translate_text(
        "Hello World <keep additionalarg=\"test0\">This will stay exactly the way it was</keep>",
        Lang::DE,
    );
    requester.source_lang(Lang::EN).ignore_tags(vec!["keep".to_string()]).tag_handling(TagHandling::Xml);
    assert_eq!(
        requester.to_fields(),
        vec![
            field(
                "text",
                "Hello World <keep additionalarg=\"test0\">This will stay exactly the way it was</keep>"
            ),
            field("target_lang", "DE"),
            field("source_lang", "EN"),
            field("tag_handling", "xml"),
            field("ignore_tags", "keep"),
        ]
    );
}

#[test]
fn all_settings_in_order() {
    let api = DeepLApi::with("k").new();
    let mut requester = api.translate_text("t", Lang::ES);
    requester
        .ignore_tags(strings(&["i1", "i2"]))
        .splitting_tags(strings(&["s1", "s2", "s3"]))
        .non_splitting_tags(strings(&["n1"]))
        .model_type(ModelType::PreferQualityOptimized)
        .tag_handling(TagHandling::Html)
        .glossary_id("G".to_string())
        .formality(Formality::More)
        .preserve_formatting(PreserveFormatting::Preserve)
        .split_sentences(SplitSentences::PunctuationOnly)
        .source_lang(Lang::EN)
        .context("about cooking".to_string());
    assert_eq!(
        requester.to_fields(),
        vec![
            field("text", "t"),
            field("target_lang", "ES"),
            field("context", "about cooking"),
            field("source_lang", "EN"),
            field("split_sentences", "nonewlines"),
            field("preserve_formatting", "1"),
            field("formality", "more"),
            field("glossary_id", "G"),
            field("tag_handling", "html"),
            field("model_type", "prefer_quality_optimized"),
            field("non_splitting_tags", "n1"),
            field("splitting_tags", "s1,s2,s3"),
            field("ignore_tags", "i1,i2"),
        ]
    );
}

#[test]
fn each_setting_alone() {
    let api = DeepLApi::with("k").new();
    let base = vec![field("text", "t"), field("target_lang", "FR")];
    let with = |extra: (String, String)| {
        let mut all = base.clone();
        all.push(extra);
        all
    };
    let mut r = api.translate_text("t", Lang::FR);
    r.split_sentences(SplitSentences::NoSplitting);
    assert_eq!(r.to_fields(), with(field("split_sentences", "0")));
    let mut r = api.translate_text("t", Lang::FR);
    r.split_sentences(SplitSentences::PunctuationAndNewlines);
    assert_eq!(r.to_fields(), with(field("split_sentences", "1")));
    let mut r = api.translate_text("t", Lang::FR);
    r.preserve_formatting(PreserveFormatting::DontPreserve);
    assert_eq!(r.to_fields(), with(field("preserve_formatting", "0")));
    let mut r = api.translate_text("t", Lang::FR);
    r.formality(Formality::PreferLess);
    assert_eq!(r.to_fields(), with(field("formality", "prefer_less")));
    let mut r = api.translate_text("t", Lang::FR);
    r.model_type(ModelType::LatencyOptimized);
    assert_eq!(r.to_fields(), with(field("model_type", "latency_optimized")));
    let mut r = api.translate_text("t", Lang::FR);
    r.context(String::new());
    assert_eq!(r.to_fields(), with(field("context", "")));
}

#[test]
fn empty_tag_list_is_an_empty_field() {
    let api = DeepLApi::with("k").new();
    let mut requester = api.translate_text("t", Lang::FR);
    requester.splitting_tags(vec![]);
    assert_eq!(
        requester.to_fields(),
        vec![field("text", "t"), field("target_lang", "FR"), field("splitting_tags", "")]
    );
}

#[test]
fn whole_translation_is_the_texts_in_a_row() {
    let resp = TranslateTextResp {
        translations: vec![
            Sentence { detected_source_language: Lang::EN, text: "Hallo".to_string() },
            Sentence { detected_source_language: Lang::EN, text: " ".to_string() },
            Sentence { detected_source_language: Lang::FR, text: "Welt".to_string() },
        ],
    };
    assert_eq!(resp.to_string(), "Hallo Welt");
    assert_eq!(TranslateTextResp { translations: vec![] }.to_string(), "");
}
