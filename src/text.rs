//! Joining a list of strings with a separator.
use vstd::prelude::*;
use vstd::string::*;

verus! {

/// The views of a list of strings.
pub open spec fn views(items: Seq<String>) -> Seq<Seq<char>> {
    items.map_values(|s: String| s@)
}

/// The items in order with `sep` between neighbours; empty for no items.
pub open spec fn join(items: Seq<Seq<char>>, sep: Seq<char>) -> Seq<char>
    decreases items.len(),
{
    if items.len() == 0 {
        Seq::empty()
    } else if items.len() == 1 {
        items[0]
    } else {
        join(items.drop_last(), sep) + sep + items.last()
    }
}

/// Joins `items` with `sep` between each two neighbours.
pub fn join_with(items: &Vec<String>, sep: &str) -> (r: String)
    ensures
        r@ == join(views(items@), sep@),
{
    let mut acc = String::new();
    let mut i: usize = 0;
    while i < items.len()
        invariant
            i <= items.len(),
            acc@ == join(views(items@).subrange(0, i as int), sep@),
        decreases items.len() - i,
    {
        let ghost before = views(items@).subrange(0, i as int);
        if i > 0 {
            acc.append(sep);
        }
        acc.append(items[i].as_str());
        proof {
            let after = views(items@).subrange(0, i + 1);
            assert(after.drop_last() =~= before);
            assert(i == 0 ==> after =~= seq![items@[0]@]);
        }
        i = i + 1;
    }
    assert(views(items@).subrange(0, items@.len() as int) =~= views(items@));
    acc
}

} // verus!
