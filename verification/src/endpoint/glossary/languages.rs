//! The languages that glossaries are kept in.

use crate::lang::LangConvertError;
use crate::text::str_eq;
use vstd::prelude::*;

verus! {

/// Glossary languages.
#[derive(Debug, Clone, Copy, PartialEq, Eq)]
pub enum GlossaryLanguage {
    /// Arabic
    Ar,
    /// Bulgarian
    Bg,
    /// Czech
    Cs,
    /// Danish
    Da,
    /// German
    De,
    /// Greek
    El,
    /// English
    En,
    /// Spanish
    Es,
    /// Estonian
    Et,
    /// Finnish
    Fi,
    /// French
    Fr,
    /// Hebrew
    He,
    /// Hungarian
    Hu,
    /// Indonesian
    Id,
    /// Italian
    It,
    /// Japanese
    Ja,
    /// Korean
    Ko,
    /// Lithuanian
    Lt,
    /// Latvian
    Lv,
    /// Norwegian
    Nb,
    /// Dutch
    Nl,
    /// Polish
    Pl,
    /// Portuguese
    Pt,
    /// Romanian
    Ro,
    /// Russian
    Ru,
    /// Slovak
    Sk,
    /// Slovenian
    Sl,
    /// Swedish
    Sv,
    /// Thai
    Th,
    /// Turkish
    Tr,
    /// Ukrainian
    Uk,
    /// Vietnamese
    Vi,
    /// Chinese
    Zh,
}

impl GlossaryLanguage {
    /// The code of the language, in lower case, as the service writes it.
    pub open spec fn code(self) -> Seq<char> {
        match self {
            GlossaryLanguage::Ar => "ar"@,
            GlossaryLanguage::Bg => "bg"@,
            GlossaryLanguage::Cs => "cs"@,
            GlossaryLanguage::Da => "da"@,
            GlossaryLanguage::De => "de"@,
            GlossaryLanguage::El => "el"@,
            GlossaryLanguage::En => "en"@,
            GlossaryLanguage::Es => "es"@,
            GlossaryLanguage::Et => "et"@,
            GlossaryLanguage::Fi => "fi"@,
            GlossaryLanguage::Fr => "fr"@,
            GlossaryLanguage::He => "he"@,
            GlossaryLanguage::Hu => "hu"@,
            GlossaryLanguage::Id => "id"@,
            GlossaryLanguage::It => "it"@,
            GlossaryLanguage::Ja => "ja"@,
            GlossaryLanguage::Ko => "ko"@,
            GlossaryLanguage::Lt => "lt"@,
            GlossaryLanguage::Lv => "lv"@,
            GlossaryLanguage::Nb => "nb"@,
            GlossaryLanguage::Nl => "nl"@,
            GlossaryLanguage::Pl => "pl"@,
            GlossaryLanguage::Pt => "pt"@,
            GlossaryLanguage::Ro => "ro"@,
            GlossaryLanguage::Ru => "ru"@,
            GlossaryLanguage::Sk => "sk"@,
            GlossaryLanguage::Sl => "sl"@,
            GlossaryLanguage::Sv => "sv"@,
            GlossaryLanguage::Th => "th"@,
            GlossaryLanguage::Tr => "tr"@,
            GlossaryLanguage::Uk => "uk"@,
            GlossaryLanguage::Vi => "vi"@,
            GlossaryLanguage::Zh => "zh"@,
        }
    }

    /// The language that `code` stands for, if there is one. Codes are matched
    /// exactly: a code in upper case stands for no language.
    pub open spec fn of_code(code: Seq<char>) -> Option<GlossaryLanguage> {
        if exists|lang: GlossaryLanguage| lang.code() == code {
            Some(choose|lang: GlossaryLanguage| lang.code() == code)
        } else {
            None
        }
    }

    /// What reading `code` gives: the language it stands for, or the error that
    /// holds the code.
    pub open spec fn parsed(
        code: Seq<char>,
        out: Result<GlossaryLanguage, LangConvertError>,
    ) -> bool {
        match GlossaryLanguage::of_code(code) {
            Some(lang) => out == Ok::<GlossaryLanguage, LangConvertError>(lang),
            None => out is Err && out->Err_0.rejected() == code,
        }
    }

    /// Reads a glossary language from its code in lower case.
    pub fn from_str(s: &str) -> (out: Result<GlossaryLanguage, LangConvertError>)
        ensures
            GlossaryLanguage::parsed(s@, out),
    {
        proof {
            lemma_glossary_codes_differ();
        }
        match GlossaryLanguage::lookup(s) {
            Some(lang) => Ok(lang),
            None => Err(LangConvertError::InvalidLang(String::from_str(s))),
        }
    }

    /// The code of the language, in lower case.
    pub fn as_ref(&self) -> (code: &'static str)
        ensures
            code@ == self.code(),
    {
        match self {
            GlossaryLanguage::Ar => "ar",
            GlossaryLanguage::Bg => "bg",
            GlossaryLanguage::Cs => "cs",
            GlossaryLanguage::Da => "da",
            GlossaryLanguage::De => "de",
            GlossaryLanguage::El => "el",
            GlossaryLanguage::En => "en",
            GlossaryLanguage::Es => "es",
            GlossaryLanguage::Et => "et",
            GlossaryLanguage::Fi => "fi",
            GlossaryLanguage::Fr => "fr",
            GlossaryLanguage::He => "he",
            GlossaryLanguage::Hu => "hu",
            GlossaryLanguage::Id => "id",
            GlossaryLanguage::It => "it",
            GlossaryLanguage::Ja => "ja",
            GlossaryLanguage::Ko => "ko",
            GlossaryLanguage::Lt => "lt",
            GlossaryLanguage::Lv => "lv",
            GlossaryLanguage::Nb => "nb",
            GlossaryLanguage::Nl => "nl",
            GlossaryLanguage::Pl => "pl",
            GlossaryLanguage::Pt => "pt",
            GlossaryLanguage::Ro => "ro",
            GlossaryLanguage::Ru => "ru",
            GlossaryLanguage::Sk => "sk",
            GlossaryLanguage::Sl => "sl",
            GlossaryLanguage::Sv => "sv",
            GlossaryLanguage::Th => "th",
            GlossaryLanguage::Tr => "tr",
            GlossaryLanguage::Uk => "uk",
            GlossaryLanguage::Vi => "vi",
            GlossaryLanguage::Zh => "zh",
        }
    }

    /// The code, owned.
    pub fn to_string(&self) -> (code: String)
        ensures
            code@ == self.code(),
    {
        String::from_str(self.as_ref())
    }

    /// Goes through the codes until one equals `code`.
    fn lookup(code: &str) -> (found: Option<GlossaryLanguage>)
        ensures
            match found {
                Some(lang) => lang.code() == code@,
                None => forall|lang: GlossaryLanguage| lang.code() != code@,
            },
    {
        if str_eq(code, "ar") {
            Some(GlossaryLanguage::Ar)
        } else if str_eq(code, "bg") {
            Some(GlossaryLanguage::Bg)
        } else if str_eq(code, "cs") {
            Some(GlossaryLanguage::Cs)
        } else if str_eq(code, "da") {
            Some(GlossaryLanguage::Da)
        } else if str_eq(code, "de") {
            Some(GlossaryLanguage::De)
        } else if str_eq(code, "el") {
            Some(GlossaryLanguage::El)
        } else if str_eq(code, "en") {
            Some(GlossaryLanguage::En)
        } else if str_eq(code, "es") {
            Some(GlossaryLanguage::Es)
        } else if str_eq(code, "et") {
            Some(GlossaryLanguage::Et)
        } else if str_eq(code, "fi") {
            Some(GlossaryLanguage::Fi)
        } else if str_eq(code, "fr") {
            Some(GlossaryLanguage::Fr)
        } else if str_eq(code, "he") {
            Some(GlossaryLanguage::He)
        } else if str_eq(code, "hu") {
            Some(GlossaryLanguage::Hu)
        } else if str_eq(code, "id") {
            Some(GlossaryLanguage::Id)
        } else if str_eq(code, "it") {
            Some(GlossaryLanguage::It)
        } else if str_eq(code, "ja") {
            Some(GlossaryLanguage::Ja)
        } else if str_eq(code, "ko") {
            Some(GlossaryLanguage::Ko)
        } else if str_eq(code, "lt") {
            Some(GlossaryLanguage::Lt)
        } else if str_eq(code, "lv") {
            Some(GlossaryLanguage::Lv)
        } else if str_eq(code, "nb") {
            Some(GlossaryLanguage::Nb)
        } else if str_eq(code, "nl") {
            Some(GlossaryLanguage::Nl)
        } else if str_eq(code, "pl") {
            Some(GlossaryLanguage::Pl)
        } else if str_eq(code, "pt") {
            Some(GlossaryLanguage::Pt)
        } else if str_eq(code, "ro") {
            Some(GlossaryLanguage::Ro)
        } else if str_eq(code, "ru") {
            Some(GlossaryLanguage::Ru)
        } else if str_eq(code, "sk") {
            Some(GlossaryLanguage::Sk)
        } else if str_eq(code, "sl") {
            Some(GlossaryLanguage::Sl)
        } else if str_eq(code, "sv") {
            Some(GlossaryLanguage::Sv)
        } else if str_eq(code, "th") {
            Some(GlossaryLanguage::Th)
        } else if str_eq(code, "tr") {
            Some(GlossaryLanguage::Tr)
        } else if str_eq(code, "uk") {
            Some(GlossaryLanguage::Uk)
        } else if str_eq(code, "vi") {
            Some(GlossaryLanguage::Vi)
        } else if str_eq(code, "zh") {
            Some(GlossaryLanguage::Zh)
        } else {
            None
        }
    }
}

/// No two glossary languages share a code.
pub proof fn lemma_glossary_codes_differ()
    ensures
        forall|a: GlossaryLanguage, b: GlossaryLanguage| a.code() == b.code() ==> a == b,
{
    reveal_strlit("ar");
    reveal_strlit("bg");
    reveal_strlit("cs");
    reveal_strlit("da");
    reveal_strlit("de");
    reveal_strlit("el");
    reveal_strlit("en");
    reveal_strlit("es");
    reveal_strlit("et");
    reveal_strlit("fi");
    reveal_strlit("fr");
    reveal_strlit("he");
    reveal_strlit("hu");
    reveal_strlit("id");
    reveal_strlit("it");
    reveal_strlit("ja");
    reveal_strlit("ko");
    reveal_strlit("lt");
    reveal_strlit("lv");
    reveal_strlit("nb");
    reveal_strlit("nl");
    reveal_strlit("pl");
    reveal_strlit("pt");
    reveal_strlit("ro");
    reveal_strlit("ru");
    reveal_strlit("sk");
    reveal_strlit("sl");
    reveal_strlit("sv");
    reveal_strlit("th");
    reveal_strlit("tr");
    reveal_strlit("uk");
    reveal_strlit("vi");
    reveal_strlit("zh");
    assert forall|a: GlossaryLanguage, b: GlossaryLanguage| a.code() == b.code() implies a == b by {
        if a != b {
            assert(a.code()[0] != b.code()[0] || a.code()[1] != b.code()[1]);
        }
    }
}

/// Reading the code of a glossary language gives the language back.
pub proof fn lemma_glossary_code_round_trip(lang: GlossaryLanguage)
    ensures
        GlossaryLanguage::of_code(lang.code()) == Some(lang),
{
    lemma_glossary_codes_differ();
}

} // verus!
