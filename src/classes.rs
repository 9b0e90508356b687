//! Ordered lists of CSS class names.
use vstd::prelude::*;
use crate::text::{join, join_with, views};

verus! {

/// A list of CSS class names, in the order they were supplied. Repeats are
/// kept.
pub struct Classes(Vec<String>);

impl View for Classes {
    type V = Seq<Seq<char>>;

    closed spec fn view(&self) -> Seq<Seq<char>> {
        views(self.0@)
    }
}

impl Classes {
    /// An empty list of classes.
    pub fn new() -> (r: Self)
        ensures
            r@ == Seq::<Seq<char>>::empty(),
    {
        let r = Classes(Vec::new());
        assert(r@ =~= Seq::<Seq<char>>::empty());
        r
    }

    /// Appends the classes of `other` after those of `self`.
    pub fn extend(&mut self, other: Self)
        ensures
            final(self)@ == old(self)@ + other@,
    {
        let mut other = other;
        let ghost before = self.0@;
        let ghost added = other.0@;
        self.0.append(&mut other.0);
        assert(views(before + added) =~= views(before) + views(added));
    }

    /// A single class name. The text is taken as one token even where it
    /// holds spaces.
    pub fn from_str(value: &str) -> (r: Self)
        ensures
            r@ == seq![value@],
    {
        let mut v: Vec<String> = Vec::new();
        v.push(value.to_owned());
        let r = Classes(v);
        assert(r@ =~= seq![value@]);
        r
    }

    /// A single class name, taken over from an owned string.
    pub fn from_string(value: String) -> (r: Self)
        ensures
            r@ == seq![value@],
    {
        let ghost s = value@;
        let mut v: Vec<String> = Vec::new();
        v.push(value);
        let r = Classes(v);
        assert(r@ =~= seq![s]);
        r
    }

    /// The classes of an optional value: none where it is absent.
    pub fn from_option(value: Option<Classes>) -> (r: Self)
        ensures
            r@ == match value {
                Some(c) => c@,
                None => Seq::<Seq<char>>::empty(),
            },
    {
        match value {
            Some(c) => c,
            None => Classes::new(),
        }
    }

    /// The classes of each list element, concatenated in list order.
    pub fn from_vec(values: Vec<Classes>) -> (r: Self)
        ensures
            r@ == values@.map_values(|c: Classes| c@).flatten(),
    {
        let ghost all = values@.map_values(|c: Classes| c@);
        let mut result = Classes::new();
        let mut rest = values;
        while rest.len() > 0
            invariant
                rest@.len() <= all.len(),
                all.len() == values@.len(),
                forall|j: int| 0 <= j < rest@.len() ==> #[trigger] rest@[j]@ == all[j],
                result@ == all.subrange(rest@.len() as int, all.len() as int).flatten(),
            decreases rest.len(),
        {
            let ghost k = rest@.len() - 1;
            let mut c = rest.pop().unwrap();
            proof {
                let tail = all.subrange(k, all.len() as int);
                assert(tail.drop_first() =~= all.subrange(k + 1, all.len() as int));
                assert(tail.first() == c@);
            }
            c.extend(result);
            result = c;
        }
        assert(all.subrange(0, all.len() as int) =~= all);
        result
    }

    /// The classes produced by `producer`, which is called at once.
    pub fn from_fn<F: FnOnce() -> Classes>(producer: F) -> (r: Self)
        requires
            producer.requires(()),
        ensures
            producer.ensures((), r),
    {
        producer()
    }

    /// The class attribute: the names joined with single spaces; empty
    /// where there are none.
    pub fn to_string(&self) -> (r: String)
        ensures
            r@ == join(self@, " "@),
    {
        join_with(&self.0, " ")
    }
}

} // verus!
