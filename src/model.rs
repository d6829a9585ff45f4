//! The mathematical model of the link pipeline.
use vstd::prelude::*;

verus! {

/// The values that are present, in order: `None` entries are dropped.
pub open spec fn present(attrs: Seq<Option<Seq<char>>>) -> Seq<Seq<char>>
    decreases attrs.len(),
{
    if attrs.len() == 0 {
        Seq::empty()
    } else {
        let rest = present(attrs.drop_last());
        match attrs.last() {
            Some(v) => rest.push(v),
            None => rest,
        }
    }
}

/// The first occurrence of each distinct value, in the order of first appearance.
pub open spec fn first_seen(values: Seq<Seq<char>>) -> Seq<Seq<char>>
    decreases values.len(),
{
    if values.len() == 0 {
        Seq::empty()
    } else {
        let rest = first_seen(values.drop_last());
        if values.drop_last().contains(values.last()) {
            rest
        } else {
            rest.push(values.last())
        }
    }
}

/// One output line: the link, with the base (if any) immediately before it.
pub open spec fn line_of(base: Option<Seq<char>>, link: Seq<char>) -> Seq<char> {
    match base {
        Some(b) => b + link,
        None => link,
    }
}

/// The output lines for a sequence of links.
pub open spec fn lines_of(base: Option<Seq<char>>, links: Seq<Seq<char>>) -> Seq<Seq<char>> {
    links.map_values(|l: Seq<char>| line_of(base, l))
}

/// What the pipeline prints for the `href` values (or their absence) of the
/// matched elements, in document order.
pub open spec fn links_of(attrs: Seq<Option<Seq<char>>>, base: Option<Seq<char>>) -> Seq<Seq<char>> {
    lines_of(base, first_seen(present(attrs)))
}

} // verus!
