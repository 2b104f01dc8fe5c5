//! The locales a client can ask for by name.
use vstd::prelude::*;
use vstd::string::StringExecFns;

verus! {

/// A locale of the request message.
#[derive(PartialEq, Eq, Structural, Clone, Copy, Debug)]
pub enum Locale {
    Unspecified,
    BrazilianPortuguese,
    English,
    French,
    German,
    Japanese,
    Russian,
    SimplifiedChinese,
    Spanish,
}

/// The locale code that keys display names in the database.
pub open spec fn locale_code(l: Locale) -> Seq<char> {
    match l {
        Locale::Unspecified => Seq::empty(),
        Locale::BrazilianPortuguese => "pt-BR"@,
        Locale::English => "en"@,
        Locale::French => "fr"@,
        Locale::German => "de"@,
        Locale::Japanese => "ja"@,
        Locale::Russian => "ru"@,
        Locale::SimplifiedChinese => "zh-CN"@,
        Locale::Spanish => "es"@,
    }
}

impl Locale {
    /// The locale code of this locale; the unspecified locale has the empty code.
    pub fn code(&self) -> (r: String)
        ensures
            r@ == locale_code(*self),
    {
        match self {
            Locale::Unspecified => String::new(),
            Locale::BrazilianPortuguese => String::from_str("pt-BR"),
            Locale::English => String::from_str("en"),
            Locale::French => String::from_str("fr"),
            Locale::German => String::from_str("de"),
            Locale::Japanese => String::from_str("ja"),
            Locale::Russian => String::from_str("ru"),
            Locale::SimplifiedChinese => String::from_str("zh-CN"),
            Locale::Spanish => String::from_str("es"),
        }
    }
}

/// The codes of the requested locales, in request order.
pub fn locale_codes(locales: &Vec<Locale>) -> (r: Vec<String>)
    ensures
        r@.len() == locales@.len(),
        forall|i: int| 0 <= i < r@.len() ==> #[trigger] r@[i]@ == locale_code(locales@[i]),
{
    let mut r: Vec<String> = Vec::new();
    let mut i: usize = 0;
    while i < locales.len()
        invariant
            i <= locales.len(),
            r@.len() == i,
            forall|j: int| 0 <= j < i ==> #[trigger] r@[j]@ == locale_code(locales@[j]),
        decreases locales.len() - i,
    {
        r.push(locales[i].code());
        i = i + 1;
    }
    r
}

} // verus!
