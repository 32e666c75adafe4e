//! Rendering a list of items as one natural-language sentence.

use vstd::prelude::*;
use vstd::string::StringExecFns;

verus! {

/// Items joined with `", "`, the last pair joined with `" and "`:
/// one item stands alone, two become `a and b`, three become `a, b and c`.
pub open spec fn sentence_list_seq(items: Seq<Seq<char>>) -> Seq<char>
    decreases items.len(),
{
    if items.len() == 0 {
        Seq::<char>::empty()
    } else if items.len() == 1 {
        items[0]
    } else if items.len() == 2 {
        items[0] + " and "@ + items[1]
    } else {
        items[0] + ", "@ + sentence_list_seq(items.skip(1))
    }
}

fn sentence_list_from(items: &Vec<String>, start: usize) -> (r: String)
    requires
        start <= items@.len(),
    ensures
        r@ == sentence_list_seq(items.deep_view().skip(start as int)),
    decreases items@.len() - start,
{
    let ghost rest = items.deep_view().skip(start as int);
    if start == items.len() {
        proof {
            assert(rest =~~= Seq::<Seq<char>>::empty());
        }
        String::new()
    } else if start + 1 == items.len() {
        let r = items[start].clone();
        proof {
            assert(rest[0] == items.deep_view()[start as int]);
        }
        r
    } else if start + 2 == items.len() {
        let mut r = items[start].clone();
        r.append(" and ");
        r.append(items[start + 1].as_str());
        proof {
            assert(rest[0] == items.deep_view()[start as int]);
            assert(rest[1] == items.deep_view()[start + 1]);
        }
        r
    } else {
        let mut r = items[start].clone();
        r.append(", ");
        let tail = sentence_list_from(items, start + 1);
        r.append(tail.as_str());
        proof {
            assert(rest[0] == items.deep_view()[start as int]);
            assert(rest.skip(1) =~~= items.deep_view().skip(start + 1));
        }
        r
    }
}

/// The items as one sentence, in their given order.
pub fn sentence_list(items: &Vec<String>) -> (r: String)
    ensures
        r@ == sentence_list_seq(items.deep_view()),
{
    let r = sentence_list_from(items, 0);
    proof {
        assert(items.deep_view().skip(0) =~~= items.deep_view());
    }
    r
}

} // verus!
