//! The link pipeline on the attribute values of the matched elements.
use vstd::prelude::*;
use crate::model::{present, links_of};
use crate::dedup::dedup_first_seen;
use crate::format::format_lines;
use crate::html::{select_attrs, selected_attrs, selector_compiles};
use scraper::error::SelectorErrorKind;

verus! {

/// The `href` values that are present, in order; an element without the
/// attribute (`None`) contributes nothing, not an empty string.
pub fn hrefs_present(attrs: &Vec<Option<String>>) -> (r: Vec<String>)
    ensures
        r.deep_view() == present(attrs.deep_view()),
{
    let ghost all = attrs.deep_view();
    let mut out: Vec<String> = Vec::new();
    let mut i: usize = 0;
    while i < attrs.len()
        invariant
            i <= attrs.len(),
            all == attrs.deep_view(),
            out.deep_view() == present(all.take(i as int)),
        decreases attrs.len() - i,
    {
        let ghost before = out.deep_view();
        assert(all.take(i + 1).drop_last() =~= all.take(i as int));
        match &attrs[i] {
            Some(v) => {
                out.push(v.clone());
                assert(out.deep_view() =~= before.push(v@));
            },
            None => {},
        }
        i = i + 1;
    }
    assert(all.take(attrs.len() as int) =~= all);
    out
}

/// The output lines for the `href` values (or their absence) of the matched
/// elements, in document order: the present values, first occurrences only,
/// each prefixed by the base when one is given.
pub fn links_from(attrs: &Vec<Option<String>>, base: Option<&str>) -> (r: Vec<String>)
    ensures
        r.deep_view() == links_of(attrs.deep_view(), base.deep_view()),
{
    let hrefs = hrefs_present(attrs);
    let unique = dedup_first_seen(&hrefs);
    format_lines(base, &unique)
}

/// Why a run of the pipeline failed.
#[derive(Debug)]
pub enum Error<'a> {
    /// The selector string is not a valid CSS selector.
    Scraper(SelectorErrorKind<'a>),
}

/// The selector string that is compiled: the one given, else `a`.
pub open spec fn selector_text(style: Option<Seq<char>>) -> Seq<char> {
    match style {
        Some(s) => s,
        None => seq!['a'],
    }
}

/// Runs the pipeline on a document: parses `text` as an HTML fragment,
/// compiles the selector (`a` when none is given), and returns the output
/// lines for the `href` values of the matched elements, in the order
/// `Html::select` yields them. It fails exactly when the selector does not
/// compile. The lines depend on `text`, `style` and `base` alone.
pub fn extract_links<'s>(text: &str, style: Option<&'s str>, base: Option<&str>) -> (r: Result<
    Vec<String>,
    Error<'s>,
>)
    ensures
        r is Err <==> !selector_compiles(selector_text(style.deep_view())),
        r matches Ok(lines) ==> lines.deep_view() == links_of(
            selected_attrs(text@, selector_text(style.deep_view()), seq!['h', 'r', 'e', 'f']),
            base.deep_view(),
        ),
{
    let default_style = "a";
    let href = "href";
    proof {
        reveal_strlit("a");
        reveal_strlit("href");
    }
    let source = style.unwrap_or(default_style);
    assert(source@ == selector_text(style.deep_view()));
    assert(href@ =~= seq!['h', 'r', 'e', 'f']);
    match select_attrs(text, source, href) {
        Ok(attrs) => Ok(links_from(&attrs, base)),
        Err(e) => Err(Error::Scraper(e)),
    }
}

} // verus!
