//! Composition of output lines.
use vstd::prelude::*;
use vstd::string::StringExecFns;
use crate::model::{line_of, lines_of};

verus! {

/// The output line for one link: the base, when given, immediately followed
/// by the link, with no separator.
pub fn format_line(base: Option<&str>, link: &str) -> (r: String)
    ensures
        r@ == line_of(base.deep_view(), link@),
{
    match base {
        Some(b) => b.to_owned().concat(link),
        None => link.to_owned(),
    }
}

} // verus!

verus! {

/// The output lines for `links`, one per link, in order.
pub fn format_lines(base: Option<&str>, links: &Vec<String>) -> (r: Vec<String>)
    ensures
        r.deep_view() == lines_of(base.deep_view(), links.deep_view()),
{
    let mut out: Vec<String> = Vec::new();
    let mut i: usize = 0;
    while i < links.len()
        invariant
            i <= links.len(),
            out.deep_view() =~= lines_of(base.deep_view(), links.deep_view().take(i as int)),
        decreases links.len() - i,
    {
        let ghost before = out.deep_view();
        let line = format_line(base, links[i].as_str());
        out.push(line);
        let ghost prefix = links.deep_view().take(i as int);
        assert(links.deep_view().take(i + 1) =~= prefix.push(links[i as int]@));
        assert(out.deep_view() =~= before.push(line@));
        assert(lines_of(base.deep_view(), prefix.push(links[i as int]@)) =~= lines_of(
            base.deep_view(),
            prefix,
        ).push(line@));
        i = i + 1;
    }
    assert(links.deep_view().take(links.len() as int) =~= links.deep_view());
    out
}

} // verus!
