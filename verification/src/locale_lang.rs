//! The interface language: either one chosen by the user or the system's.
use vstd::prelude::*;

verus! {

/// A language tag of the `unic-langid` crate (re-exported by `fluent-templates`), carried
/// through as an opaque value.
#[verifier::external_type_specification]
#[verifier::external_body]
pub struct ExLanguageIdentifier(fluent_templates::LanguageIdentifier);

/// `Clone` of `LanguageIdentifier`, which is derived: the copy is the same value.
#[verifier::external_body]
fn clone_language(lang: &fluent_templates::LanguageIdentifier) -> (r: fluent_templates::LanguageIdentifier)
    ensures
        r == *lang,
{
    lang.clone()
}

/// What `str::parse::<LanguageIdentifier>` reads from a text; `None` where the text is not a
/// language tag.
pub uninterp spec fn language_from_text(text: Seq<char>) -> Option<fluent_templates::LanguageIdentifier>;

/// `str::parse::<LanguageIdentifier>`, its error dropped. The parse depends on the text
/// alone; its result is named.
#[verifier::external_body]
fn parse_language(text: &str) -> (r: Option<fluent_templates::LanguageIdentifier>)
    ensures
        r == language_from_text(text@),
{
    text.parse::<fluent_templates::LanguageIdentifier>().ok()
}

/// The system's locale, `locale_config::Locale::current`, as text. It depends on the
/// environment, so nothing is stated of it.
#[verifier::external_body]
fn system_locale_name() -> (r: String) {
    locale_config::Locale::current().to_string()
}

/// `LanguageIdentifier::default`, the undetermined language.
#[verifier::external_body]
fn undetermined_language() -> (r: fluent_templates::LanguageIdentifier) {
    fluent_templates::LanguageIdentifier::default()
}

/// The text of the fallback language's tag.
pub open spec fn fallback_tag() -> Seq<char> {
    seq!['e', 'n', '-', 'U', 'S']
}

/// `r` is the fallback language: `en-US` as read by the language tag parser.
pub open spec fn is_fallback(r: fluent_templates::LanguageIdentifier) -> bool {
    language_from_text(fallback_tag()) matches Some(l) ==> r == l
}

/// A language read from a text, or the fallback language when the text was not a tag.
pub open spec fn is_language_or_fallback(
    parsed: Option<fluent_templates::LanguageIdentifier>,
    r: fluent_templates::LanguageIdentifier,
) -> bool {
    match parsed {
        Some(l) => r == l,
        None => is_fallback(r),
    }
}

/// The language used when the system's cannot be read: American English.
pub fn get_fallback_lang() -> (r: fluent_templates::LanguageIdentifier)
    ensures
        is_fallback(r),
{
    let tag = "en-US";
    proof {
        reveal_strlit("en-US");
        assert(tag@ =~= fallback_tag());
    }
    match parse_language(tag) {
        Some(lang) => lang,
        None => undetermined_language(),
    }
}

/// The language a parse gave, or the fallback language when it gave none.
pub fn language_or_fallback(parsed: Option<fluent_templates::LanguageIdentifier>) -> (r: fluent_templates::LanguageIdentifier)
    ensures
        is_language_or_fallback(parsed, r),
{
    match parsed {
        Some(lang) => lang,
        None => get_fallback_lang(),
    }
}

/// The chosen interface language; `None` follows the system.
#[derive(Debug)]
pub struct LocaleLang {
    lang: Option<fluent_templates::LanguageIdentifier>,
}

impl View for LocaleLang {
    type V = Option<fluent_templates::LanguageIdentifier>;

    closed spec fn view(&self) -> Option<fluent_templates::LanguageIdentifier> {
        self.lang
    }
}

impl LocaleLang {
    /// The given language, or the system's for `None`.
    pub fn new(lang: Option<fluent_templates::LanguageIdentifier>) -> (r: Self)
        ensures
            r@ == lang,
    {
        LocaleLang { lang }
    }

    /// The language in use: the chosen one, or else the system's, or American English when
    /// the system's cannot be read.
    pub fn get_lang(&self) -> (r: fluent_templates::LanguageIdentifier)
        ensures
            self@ matches Some(l) ==> r == l,
            self@ is None ==> exists|locale_text: Seq<char>|
                is_language_or_fallback(#[trigger] language_from_text(locale_text), r),
    {
        match &self.lang {
            Some(lang) => clone_language(lang),
            None => {
                let name = system_locale_name();
                let r = language_or_fallback(parse_language(name.as_str()));
                assert(is_language_or_fallback(language_from_text(name@), r));
                r
            },
        }
    }

    /// Chooses a language.
    pub fn set_lang(&mut self, lang: &fluent_templates::LanguageIdentifier)
        ensures
            final(self)@ == Some(*lang),
    {
        self.lang = Some(clone_language(lang));
    }

    /// Follows the system's language again.
    pub fn use_system_lang(&mut self)
        ensures
            final(self)@ is None,
    {
        self.lang = None;
    }

    /// Whether the system's language is followed.
    pub fn is_using_system_lang(&self) -> (r: bool)
        ensures
            r == (self@ is None),
    {
        self.lang.is_none()
    }

    /// A copy of the setting.
    pub fn copy(&self) -> (r: Self)
        ensures
            r@ == self@,
    {
        match &self.lang {
            Some(lang) => LocaleLang { lang: Some(clone_language(lang)) },
            None => LocaleLang { lang: None },
        }
    }
}

} // verus!
