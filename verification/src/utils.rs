use vstd::prelude::*;

verus! {

/// The text of `v` in its `Debug` form.
///
/// Calls `format!("{:?}", v)`.  The text depends on the `Debug` impl of
/// `T`, which nothing here reads: the contract states nothing of it.
#[verifier::external_body]
fn debug_text<T: core::fmt::Debug>(v: &T) -> (r: String) {
    format!("{:?}", v)
}

/// The texts of `texts` separated by `", "`.
pub open spec fn join_entries(texts: Seq<Seq<char>>) -> Seq<char>
    decreases texts.len(),
{
    if texts.len() == 0 {
        Seq::empty()
    } else if texts.len() == 1 {
        texts[0]
    } else {
        join_entries(texts.drop_last()) + seq![',', ' '] + texts.last()
    }
}

/// A debug list of the entry texts `texts`: `[a, b, c]`.
pub open spec fn debug_list(texts: Seq<Seq<char>>) -> Seq<char> {
    seq!['['] + join_entries(texts) + seq![']']
}

/// Prints the items of a list as a debug list, `[a, b, c]`.
pub struct DebugIter<T> {
    items: Vec<T>,
}

impl<T: core::fmt::Debug> DebugIter<T> {
    /// The number of items.
    pub closed spec fn spec_len(&self) -> nat {
        self.items@.len()
    }

    /// A printer of the items of `value`.
    pub fn new(value: Vec<T>) -> (r: Self)
        ensures
            r.spec_len() == value@.len(),
    {
        DebugIter { items: value }
    }

    /// The debug list of the items: each item in its `Debug` form, the
    /// forms separated by `", "`, the whole between brackets.  Printing
    /// consumes the items: a second call prints `[]`.
    pub fn debug_string(&mut self) -> (r: String)
        ensures
            exists|texts: Seq<Seq<char>>|
                texts.len() == old(self).spec_len() && r@ == debug_list(texts),
            final(self).spec_len() == 0,
    {
        let mut items: Vec<T> = Vec::new();
        std::mem::swap(&mut items, &mut self.items);
        let mut out = String::new();
        let open = "[";
        let sep = ", ";
        let close = "]";
        proof {
            reveal_strlit("[");
            reveal_strlit(", ");
            reveal_strlit("]");
        }
        out.append(open);
        let ghost mut texts: Seq<Seq<char>> = Seq::empty();
        let mut i: usize = 0;
        while i < items.len()
            invariant
                i <= items@.len(),
                texts.len() == i,
                sep@ == seq![',', ' '],
                out@ == seq!['['] + join_entries(texts),
            decreases items.len() - i,
        {
            let text = debug_text(&items[i]);
            if i > 0 {
                out.append(sep);
            }
            out.append(text.as_str());
            proof {
                let prev = texts;
                texts = texts.push(text@);
                assert(texts.drop_last() =~= prev);
                assert(out@ =~= seq!['['] + join_entries(texts));
            }
            i = i + 1;
        }
        out.append(close);
        assert(out@ =~= debug_list(texts));
        out
    }
}

} // verus!
