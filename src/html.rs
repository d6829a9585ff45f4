//! The HTML parser and the CSS selector engine of the `scraper` crate.
use vstd::prelude::*;
use scraper::{Html, Selector};
use scraper::error::SelectorErrorKind;

verus! {

#[verifier::external_type_specification]
#[verifier::external_body]
pub struct ExSelectorErrorKind<'a>(SelectorErrorKind<'a>);

/// Whether `scraper::Selector::parse` accepts a selector string.
pub uninterp spec fn selector_compiles(s: Seq<char>) -> bool;

/// What scraper's query yields for a text, a selector string and an attribute
/// name: for each element that `Html::select` yields on the parsed fragment,
/// in that order, the value of the attribute, or `None` where the element
/// lacks it.
pub uninterp spec fn selected_attrs(text: Seq<char>, selector: Seq<char>, attr: Seq<char>) -> Seq<
    Option<Seq<char>>,
>;

/// Relies on `scraper::Selector::parse` (success depends on the selector
/// string alone), `scraper::Html::parse_fragment` (parses any text, never
/// fails), `scraper::Html::select` and `scraper::ElementRef::attr`; each of
/// them depends on its arguments alone.
#[verifier::external_body]
pub(crate) fn select_attrs<'s>(text: &str, selector: &'s str, attr: &str) -> (r: Result<
    Vec<Option<String>>,
    SelectorErrorKind<'s>,
>)
    ensures
        r is Ok <==> selector_compiles(selector@),
        r matches Ok(v) ==> v.deep_view() == selected_attrs(text@, selector@, attr@),
{
    let sel = Selector::parse(selector)?;
    let doc = Html::parse_fragment(text);
    Ok(doc.select(&sel).map(|e| e.attr(attr).map(str::to_owned)).collect())
}

} // verus!
