//! The languages of the translation API and their codes.

use crate::text::{str_eq, to_uppercase, uppercase};
use vstd::prelude::*;

verus! {

/// Why a text could not be read as a language.
#[derive(Debug, Clone, PartialEq, Eq)]
pub enum LangConvertError {
    /// The text, as it was given, is no code of a supported language.
    InvalidLang(String),
}

impl LangConvertError {
    /// The rejected text.
    pub open spec fn rejected(self) -> Seq<char> {
        match self {
            LangConvertError::InvalidLang(code) => code@,
        }
    }

    /// The message for this error.
    pub open spec fn message(self) -> Seq<char> {
        "invalid language code "@ + self.rejected()
    }

    /// The message for this error.
    pub fn to_string(&self) -> (message: String)
        ensures
            message@ == self.message(),
    {
        match self {
            LangConvertError::InvalidLang(code) => {
                String::from_str("invalid language code ").concat(code.as_str())
            },
        }
    }
}

/// Languages
#[allow(non_camel_case_types)]
#[derive(Debug, Clone, Copy, Hash, PartialEq, Eq)]
pub enum Lang {
    /// Arabic
    AR,
    /// Bulgarian
    BG,
    /// Czech
    CS,
    /// Danish
    DA,
    /// German
    DE,
    /// Greek
    EL,
    /// English (Unspecified variant)
    EN,
    /// English (American)
    EN_GB,
    /// English (British)
    EN_US,
    /// Spanish
    ES,
    /// Estonian
    ET,
    /// Finnish
    FI,
    /// French
    FR,
    /// Hungarian
    HU,
    /// Indonesian
    ID,
    /// Italian
    IT,
    /// Japanese
    JA,
    /// Korean
    KO,
    /// Lithuanian
    LT,
    /// Latvian
    LV,
    /// Norwegian
    NB,
    /// Dutch
    NL,
    /// Polish
    PL,
    /// Portuguese (all Portuguese varieties mixed)
    PT,
    /// Portuguese (Brazilian)
    PT_BR,
    /// Portuguese (All Portuguese varieties excluding Brazilian)
    PT_PT,
    /// Romanian
    RO,
    /// Russian
    RU,
    /// Slovak
    SK,
    /// Slovenian
    SL,
    /// Swedish
    SV,
    /// Turkish
    TR,
    /// Ukrainian
    UK,
    /// Chinese
    ZH,
}

impl Lang {
    /// The code of the language, in upper case, as the service writes it.
    pub open spec fn code(self) -> Seq<char> {
        match self {
            Lang::AR => "AR"@,
            Lang::BG => "BG"@,
            Lang::CS => "CS"@,
            Lang::DA => "DA"@,
            Lang::DE => "DE"@,
            Lang::EL => "EL"@,
            Lang::EN => "EN"@,
            Lang::EN_GB => "EN-GB"@,
            Lang::EN_US => "EN-US"@,
            Lang::ES => "ES"@,
            Lang::ET => "ET"@,
            Lang::FI => "FI"@,
            Lang::FR => "FR"@,
            Lang::HU => "HU"@,
            Lang::ID => "ID"@,
            Lang::IT => "IT"@,
            Lang::JA => "JA"@,
            Lang::KO => "KO"@,
            Lang::LT => "LT"@,
            Lang::LV => "LV"@,
            Lang::NB => "NB"@,
            Lang::NL => "NL"@,
            Lang::PL => "PL"@,
            Lang::PT => "PT"@,
            Lang::PT_BR => "PT-BR"@,
            Lang::PT_PT => "PT-PT"@,
            Lang::RO => "RO"@,
            Lang::RU => "RU"@,
            Lang::SK => "SK"@,
            Lang::SL => "SL"@,
            Lang::SV => "SV"@,
            Lang::TR => "TR"@,
            Lang::UK => "UK"@,
            Lang::ZH => "ZH"@,
        }
    }

    /// The full name of the language.
    pub open spec fn name(self) -> Seq<char> {
        match self {
            Lang::AR => "Arabic"@,
            Lang::BG => "Bulgarian"@,
            Lang::CS => "Czech"@,
            Lang::DA => "Danish"@,
            Lang::DE => "German"@,
            Lang::EL => "Greek"@,
            Lang::EN => "English (Unspecified variant)"@,
            Lang::EN_GB => "English (American)"@,
            Lang::EN_US => "English (British)"@,
            Lang::ES => "Spanish"@,
            Lang::ET => "Estonian"@,
            Lang::FI => "Finnish"@,
            Lang::FR => "French"@,
            Lang::HU => "Hungarian"@,
            Lang::ID => "Indonesian"@,
            Lang::IT => "Italian"@,
            Lang::JA => "Japanese"@,
            Lang::KO => "Korean"@,
            Lang::LT => "Lithuanian"@,
            Lang::LV => "Latvian"@,
            Lang::NB => "Norwegian"@,
            Lang::NL => "Dutch"@,
            Lang::PL => "Polish"@,
            Lang::PT => "Portuguese (all Portuguese varieties mixed)"@,
            Lang::PT_BR => "Portuguese (Brazilian)"@,
            Lang::PT_PT => "Portuguese (All Portuguese varieties excluding Brazilian)"@,
            Lang::RO => "Romanian"@,
            Lang::RU => "Russian"@,
            Lang::SK => "Slovak"@,
            Lang::SL => "Slovenian"@,
            Lang::SV => "Swedish"@,
            Lang::TR => "Turkish"@,
            Lang::UK => "Ukrainian"@,
            Lang::ZH => "Chinese"@,
        }
    }

    /// The language that `code` stands for, if there is one. Codes are matched
    /// exactly: a code in lower case stands for no language.
    pub open spec fn of_code(code: Seq<char>) -> Option<Lang> {
        if exists|lang: Lang| lang.code() == code {
            Some(choose|lang: Lang| lang.code() == code)
        } else {
            None
        }
    }

    /// What reading `code` gives: the language it stands for, or the error that
    /// holds the code.
    pub open spec fn parsed(code: Seq<char>, out: Result<Lang, LangConvertError>) -> bool {
        match Lang::of_code(code) {
            Some(lang) => out == Ok::<Lang, LangConvertError>(lang),
            None => out is Err && out->Err_0.rejected() == code,
        }
    }

    /// Return full language name for the code
    pub fn description(&self) -> (name: String)
        ensures
            name@ == self.name(),
    {
        let name = match self {
            Lang::AR => "Arabic",
            Lang::BG => "Bulgarian",
            Lang::CS => "Czech",
            Lang::DA => "Danish",
            Lang::DE => "German",
            Lang::EL => "Greek",
            Lang::EN => "English (Unspecified variant)",
            Lang::EN_GB => "English (American)",
            Lang::EN_US => "English (British)",
            Lang::ES => "Spanish",
            Lang::ET => "Estonian",
            Lang::FI => "Finnish",
            Lang::FR => "French",
            Lang::HU => "Hungarian",
            Lang::ID => "Indonesian",
            Lang::IT => "Italian",
            Lang::JA => "Japanese",
            Lang::KO => "Korean",
            Lang::LT => "Lithuanian",
            Lang::LV => "Latvian",
            Lang::NB => "Norwegian",
            Lang::NL => "Dutch",
            Lang::PL => "Polish",
            Lang::PT => "Portuguese (all Portuguese varieties mixed)",
            Lang::PT_BR => "Portuguese (Brazilian)",
            Lang::PT_PT => "Portuguese (All Portuguese varieties excluding Brazilian)",
            Lang::RO => "Romanian",
            Lang::RU => "Russian",
            Lang::SK => "Slovak",
            Lang::SL => "Slovenian",
            Lang::SV => "Swedish",
            Lang::TR => "Turkish",
            Lang::UK => "Ukrainian",
            Lang::ZH => "Chinese",
        };
        String::from_str(name)
    }

    /// The code of the language, in upper case.
    pub fn as_ref(&self) -> (code: &'static str)
        ensures
            code@ == self.code(),
    {
        match self {
            Lang::AR => "AR",
            Lang::BG => "BG",
            Lang::CS => "CS",
            Lang::DA => "DA",
            Lang::DE => "DE",
            Lang::EL => "EL",
            Lang::EN => "EN",
            Lang::EN_GB => "EN-GB",
            Lang::EN_US => "EN-US",
            Lang::ES => "ES",
            Lang::ET => "ET",
            Lang::FI => "FI",
            Lang::FR => "FR",
            Lang::HU => "HU",
            Lang::ID => "ID",
            Lang::IT => "IT",
            Lang::JA => "JA",
            Lang::KO => "KO",
            Lang::LT => "LT",
            Lang::LV => "LV",
            Lang::NB => "NB",
            Lang::NL => "NL",
            Lang::PL => "PL",
            Lang::PT => "PT",
            Lang::PT_BR => "PT-BR",
            Lang::PT_PT => "PT-PT",
            Lang::RO => "RO",
            Lang::RU => "RU",
            Lang::SK => "SK",
            Lang::SL => "SL",
            Lang::SV => "SV",
            Lang::TR => "TR",
            Lang::UK => "UK",
            Lang::ZH => "ZH",
        }
    }

    /// The code, owned.
    pub fn to_string(&self) -> (code: String)
        ensures
            code@ == self.code(),
    {
        String::from_str(self.as_ref())
    }

    /// Convert literal to enum `Lang`
    ///
    /// # Error
    ///
    /// Return `LangConvertError::InvalidLang` when given language code is not in the support list.
    pub fn try_from(value: &str) -> (out: Result<Lang, LangConvertError>)
        ensures
            Lang::parsed(value@, out),
    {
        proof {
            lemma_codes_differ();
        }
        let found = Lang::lookup(value);
        match found {
            Some(lang) => Ok(lang),
            None => Err(LangConvertError::InvalidLang(String::from_str(value))),
        }
    }

    /// What reading the code `upper` of a reply gives: the language it stands
    /// for, or a message that holds the code.
    pub open spec fn decoded(upper: Seq<char>, out: Result<Lang, String>) -> bool {
        match Lang::of_code(upper) {
            Some(lang) => out == Ok::<Lang, String>(lang),
            None => out is Err && out->Err_0@ == "invalid language code "@ + upper
                + ". This is an internal issue with the lib, please open issue"@,
        }
    }

    /// Reads a language from a code that is in upper case already.
    pub fn from_upper(upper: &str) -> (out: Result<Lang, String>)
        ensures
            Lang::decoded(upper@, out),
    {
        match Lang::try_from(upper) {
            Ok(lang) => Ok(lang),
            Err(_) => Err(
                String::from_str("invalid language code ").concat(upper).concat(
                    ". This is an internal issue with the lib, please open issue",
                ),
            ),
        }
    }

    /// Reads a language from the code in a reply, whatever its case: the code
    /// is put into upper case first.
    pub fn deserialize(code: &str) -> (out: Result<Lang, String>)
        ensures
            Lang::decoded(uppercase(code@), out),
    {
        let upper = to_uppercase(code);
        Lang::from_upper(upper.as_str())
    }

    /// Reads a language from its code; the same as `try_from`.
    pub fn from_str(s: &str) -> (out: Result<Lang, LangConvertError>)
        ensures
            Lang::parsed(s@, out),
    {
        Lang::try_from(s)
    }

    /// Goes through the codes until one equals `value`.
    fn lookup(value: &str) -> (found: Option<Lang>)
        ensures
            match found {
                Some(lang) => lang.code() == value@,
                None => forall|lang: Lang| lang.code() != value@,
            },
    {
        if str_eq(value, "AR") {
            Some(Lang::AR)
        } else if str_eq(value, "BG") {
            Some(Lang::BG)
        } else if str_eq(value, "CS") {
            Some(Lang::CS)
        } else if str_eq(value, "DA") {
            Some(Lang::DA)
        } else if str_eq(value, "DE") {
            Some(Lang::DE)
        } else if str_eq(value, "EL") {
            Some(Lang::EL)
        } else if str_eq(value, "EN") {
            Some(Lang::EN)
        } else if str_eq(value, "EN-GB") {
            Some(Lang::EN_GB)
        } else if str_eq(value, "EN-US") {
            Some(Lang::EN_US)
        } else if str_eq(value, "ES") {
            Some(Lang::ES)
        } else if str_eq(value, "ET") {
            Some(Lang::ET)
        } else if str_eq(value, "FI") {
            Some(Lang::FI)
        } else if str_eq(value, "FR") {
            Some(Lang::FR)
        } else if str_eq(value, "HU") {
            Some(Lang::HU)
        } else if str_eq(value, "ID") {
            Some(Lang::ID)
        } else if str_eq(value, "IT") {
            Some(Lang::IT)
        } else if str_eq(value, "JA") {
            Some(Lang::JA)
        } else if str_eq(value, "KO") {
            Some(Lang::KO)
        } else if str_eq(value, "LT") {
            Some(Lang::LT)
        } else if str_eq(value, "LV") {
            Some(Lang::LV)
        } else if str_eq(value, "NB") {
            Some(Lang::NB)
        } else if str_eq(value, "NL") {
            Some(Lang::NL)
        } else if str_eq(value, "PL") {
            Some(Lang::PL)
        } else if str_eq(value, "PT") {
            Some(Lang::PT)
        } else if str_eq(value, "PT-BR") {
            Some(Lang::PT_BR)
        } else if str_eq(value, "PT-PT") {
            Some(Lang::PT_PT)
        } else if str_eq(value, "RO") {
            Some(Lang::RO)
        } else if str_eq(value, "RU") {
            Some(Lang::RU)
        } else if str_eq(value, "SK") {
            Some(Lang::SK)
        } else if str_eq(value, "SL") {
            Some(Lang::SL)
        } else if str_eq(value, "SV") {
            Some(Lang::SV)
        } else if str_eq(value, "TR") {
            Some(Lang::TR)
        } else if str_eq(value, "UK") {
            Some(Lang::UK)
        } else if str_eq(value, "ZH") {
            Some(Lang::ZH)
        } else {
            None
        }
    }
}

/// No two languages share a code.
pub proof fn lemma_codes_differ()
    ensures
        forall|a: Lang, b: Lang| a.code() == b.code() ==> a == b,
{
    reveal_strlit("AR");
    reveal_strlit("BG");
    reveal_strlit("CS");
    reveal_strlit("DA");
    reveal_strlit("DE");
    reveal_strlit("EL");
    reveal_strlit("EN");
    reveal_strlit("EN-GB");
    reveal_strlit("EN-US");
    reveal_strlit("ES");
    reveal_strlit("ET");
    reveal_strlit("FI");
    reveal_strlit("FR");
    reveal_strlit("HU");
    reveal_strlit("ID");
    reveal_strlit("IT");
    reveal_strlit("JA");
    reveal_strlit("KO");
    reveal_strlit("LT");
    reveal_strlit("LV");
    reveal_strlit("NB");
    reveal_strlit("NL");
    reveal_strlit("PL");
    reveal_strlit("PT");
    reveal_strlit("PT-BR");
    reveal_strlit("PT-PT");
    reveal_strlit("RO");
    reveal_strlit("RU");
    reveal_strlit("SK");
    reveal_strlit("SL");
    reveal_strlit("SV");
    reveal_strlit("TR");
    reveal_strlit("UK");
    reveal_strlit("ZH");
    assert forall|a: Lang, b: Lang| a.code() == b.code() implies a == b by {
        if a != b {
            assert(a.code().len() != b.code().len() || a.code()[0] != b.code()[0] || a.code()[1]
                != b.code()[1] || a.code()[3] != b.code()[3]);
        }
    }
}

/// Reading the code of a language gives the language back.
pub proof fn lemma_code_round_trip(lang: Lang)
    ensures
        Lang::of_code(lang.code()) == Some(lang),
{
    lemma_codes_differ();
}

} // verus!
