//! Choosing the interface language on a first launch.

use vstd::prelude::*;
use crate::text::has_prefix;
use crate::text::lowercase_of;
use crate::text::starts_with;
use crate::text::str_eq;
use crate::text::to_lowercase;
use crate::text::trim;
use crate::text::trimmed_of;

verus! {

/// An interface language that the application ships.
#[derive(Debug, Clone, Copy, PartialEq, Eq, Structural)]
pub enum Language {
    Polish,
    English,
}

/// The tag of a language.
pub open spec fn tag_of(language: Language) -> Seq<char> {
    match language {
        Language::Polish => "pl"@,
        Language::English => "en"@,
    }
}

impl Language {
    /// The tag under which the language is configured.
    pub fn tag(&self) -> (r: &'static str)
        ensures
            r@ == tag_of(*self),
    {
        match self {
            Language::Polish => "pl",
            Language::English => "en",
        }
    }
}

/// The language that the note left by the installer asks for, given the
/// note trimmed and in lower case: English for `en` or `english`; any
/// other note asks for nothing.
pub open spec fn installer_choice(note: Seq<char>) -> Option<Language> {
    if note == "en"@ || note == "english"@ {
        Some(Language::English)
    } else {
        None
    }
}

/// The language that a trimmed, lower-case installer's note asks for.
pub fn normalized_installer_language(note: &str) -> (r: Option<Language>)
    ensures
        r == installer_choice(note@),
{
    if str_eq(note, "en") || str_eq(note, "english") {
        Some(Language::English)
    } else {
        None
    }
}

/// The language that the installer's note asks for, if it asks for one.
/// White space around the note and the case of its letters do not matter.
pub fn installer_language(note: &str) -> (r: Option<Language>)
    ensures
        r == installer_choice(lowercase_of(trimmed_of(note@))),
{
    let lowered = to_lowercase(trim(note));
    normalized_installer_language(lowered.as_str())
}

/// The language that a locale name in lower case stands for: Polish if it
/// begins with `pl`, English if it begins with `en`.
pub open spec fn locale_choice(lower: Seq<char>) -> Option<Language> {
    if has_prefix(lower, "pl"@) {
        Some(Language::Polish)
    } else if has_prefix(lower, "en"@) {
        Some(Language::English)
    } else {
        None
    }
}

/// The language that a locale name in lower case stands for.
pub fn lowered_locale_language(lower: &str) -> (r: Option<Language>)
    ensures
        r == locale_choice(lower@),
{
    if starts_with(lower, "pl") {
        Some(Language::Polish)
    } else if starts_with(lower, "en") {
        Some(Language::English)
    } else {
        None
    }
}

/// The language that the value of a locale variable stands for, if it
/// stands for one that is shipped. The case of its letters does not matter.
pub fn locale_language(value: &str) -> (r: Option<Language>)
    ensures
        r == locale_choice(lowercase_of(value@)),
{
    let lowered = to_lowercase(value);
    lowered_locale_language(lowered.as_str())
}

/// The language that a two-letter culture name, trimmed and in lower case,
/// stands for.
pub open spec fn culture_choice(name: Seq<char>) -> Option<Language> {
    if name == "pl"@ {
        Some(Language::Polish)
    } else if name == "en"@ {
        Some(Language::English)
    } else {
        None
    }
}

/// The language that a trimmed, lower-case culture name stands for.
pub fn normalized_culture_language(name: &str) -> (r: Option<Language>)
    ensures
        r == culture_choice(name@),
{
    if str_eq(name, "pl") {
        Some(Language::Polish)
    } else if str_eq(name, "en") {
        Some(Language::English)
    } else {
        None
    }
}

/// The language that the system's two-letter culture name stands for, if
/// it stands for one that is shipped. White space around the name and the
/// case of its letters do not matter.
pub fn culture_language(name: &str) -> (r: Option<Language>)
    ensures
        r == culture_choice(lowercase_of(trimmed_of(name@))),
{
    let lowered = to_lowercase(trim(name));
    normalized_culture_language(lowered.as_str())
}

/// The first language that one of the locale values stands for, the values
/// taken in order.
pub open spec fn first_locale_choice(values: Seq<Seq<char>>) -> Option<Language>
    decreases values.len(),
{
    if values.len() == 0 {
        None
    } else {
        match locale_choice(lowercase_of(values[0])) {
            Some(language) => Some(language),
            None => first_locale_choice(values.drop_first()),
        }
    }
}

/// The texts of a list of values.
pub open spec fn value_texts(values: Seq<String>) -> Seq<Seq<char>> {
    values.map_values(|v: String| v@)
}

/// The language of the system: the first that one of the locale values
/// stands for, else that of the culture name if one is given, else English.
pub open spec fn system_choice(values: Seq<Seq<char>>, culture: Option<Seq<char>>) -> Language {
    match first_locale_choice(values) {
        Some(language) => language,
        None => match culture {
            Some(name) => match culture_choice(lowercase_of(trimmed_of(name))) {
                Some(language) => language,
                None => Language::English,
            },
            None => Language::English,
        },
    }
}

/// Detects the language of the system from the values of the locale
/// variables that are set, in their order of precedence, and the system's
/// culture name where the platform has one.
pub fn detect_system_language(locale_values: &Vec<String>, culture: Option<&str>) -> (r: Language)
    ensures
        r == system_choice(
            value_texts(locale_values@),
            match culture {
                Some(name) => Some(name@),
                None => None,
            },
        ),
{
    let mut i: usize = 0;
    assert(value_texts(locale_values@).skip(0) =~= value_texts(locale_values@));
    while i < locale_values.len()
        invariant
            i <= locale_values@.len(),
            first_locale_choice(value_texts(locale_values@)) == first_locale_choice(
                value_texts(locale_values@).skip(i as int),
            ),
        decreases locale_values@.len() - i,
    {
        proof {
            let rest = value_texts(locale_values@).skip(i as int);
            assert(rest[0] == locale_values@[i as int]@);
            assert(rest.drop_first() =~= value_texts(locale_values@).skip(i + 1));
        }
        match locale_language(locale_values[i].as_str()) {
            Some(language) => {
                return language;
            },
            None => {},
        }
        i += 1;
    }
    match culture {
        Some(name) => match culture_language(name) {
            Some(language) => language,
            None => Language::English,
        },
        None => Language::English,
    }
}

} // verus!
