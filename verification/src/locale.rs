//! The language of the interface, from the system's locale.
use vstd::prelude::*;
use crate::text::{contains_text, str_contains};

verus! {

/// The preferred locale of the system, if one can be found
/// (`sys_locale::get_locale`). It depends on the environment, so nothing
/// is stated of it.
#[verifier::external_body]
fn system_locale() -> Option<String> {
    sys_locale::get_locale()
}

/// Whether a locale asks for Chinese: it contains `zh` (no locale counts
/// as the empty one, which does not).
pub open spec fn chinese_locale(locale: Option<Seq<char>>) -> bool {
    match locale {
        Some(l) => contains_text(l, "zh"@),
        None => false,
    }
}

/// Whether a locale asks for Chinese.
pub fn is_chinese_locale(locale: &Option<String>) -> (r: bool)
    ensures
        r == chinese_locale(crate::state::opt_view(*locale)),
{
    match locale {
        Some(l) => {
            let ls = l.as_str();
            str_contains(ls, "zh")
        },
        None => false,
    }
}

/// Whether the interface shows Chinese: the system's locale asks for it.
pub fn interface_is_chinese() -> bool {
    let locale = system_locale();
    is_chinese_locale(&locale)
}

/// The language to ask the news in for a locale: `zh` when the locale
/// asks for Chinese, else `en`.
pub fn news_language_for(locale: &Option<String>) -> (r: String)
    ensures
        r@ == (if chinese_locale(crate::state::opt_view(*locale)) { "zh"@ } else { "en"@ }),
{
    if is_chinese_locale(locale) {
        String::from_str("zh")
    } else {
        String::from_str("en")
    }
}

/// The language to ask the news in, from the system's locale: `zh` or `en`.
pub fn news_language() -> (r: String)
    ensures
        r@ == "zh"@ || r@ == "en"@,
{
    let locale = system_locale();
    news_language_for(&locale)
}

} // verus!
