//! Compact JSON text for the messages the worker sends.
//!
//! String literals are encoded by `serde_json`; arrays and objects are
//! framed here, in the compact form with no white space.

use crate::text::{decimal, push_decimal};
use crate::model::{Pair, Pairs};
use vstd::prelude::*;
use vstd::string::StringExecFns;

verus! {

/// The JSON string literal for `text`, quotes included, as `serde_json`
/// writes it.
pub uninterp spec fn json_string(text: Seq<char>) -> Seq<char>;

/// Encodes `text` as a JSON string literal.
///
/// Wraps `serde_json::Value::to_string` on a `Value::String`. The result
/// depends on the text alone; the contract gives it the name `json_string`
/// and claims nothing else about it.
#[verifier::external_body]
pub(crate) fn quote(text: &str) -> (quoted: String)
    ensures
        quoted@ == json_string(text@),
{
    serde_json::Value::String(text.to_owned()).to_string()
}

/// The numerals of `bytes`, separated by commas.
pub open spec fn byte_items(bytes: Seq<u8>) -> Seq<char>
    decreases bytes.len(),
{
    if bytes.len() == 0 {
        Seq::empty()
    } else if bytes.len() == 1 {
        decimal(bytes[0] as nat)
    } else {
        byte_items(bytes.drop_last()) + ","@ + decimal(bytes.last() as nat)
    }
}

/// A JSON array of numbers, one per byte.
pub open spec fn byte_array(bytes: Seq<u8>) -> Seq<char> {
    "["@ + byte_items(bytes) + "]"@
}

/// A JSON array of two string literals.
pub open spec fn pair_entry(pair: Pair) -> Seq<char> {
    "["@ + pair.0 + ","@ + pair.1 + "]"@
}

/// The entries of `pairs`, separated by commas.
pub open spec fn pair_items(pairs: Pairs) -> Seq<char>
    decreases pairs.len(),
{
    if pairs.len() == 0 {
        Seq::empty()
    } else if pairs.len() == 1 {
        pair_entry(pairs[0])
    } else {
        pair_items(pairs.drop_last()) + ","@ + pair_entry(pairs.last())
    }
}

/// A JSON array of two-element arrays. The pairs hold string literals that
/// are already encoded.
pub open spec fn pair_array(pairs: Pairs) -> Seq<char> {
    "["@ + pair_items(pairs) + "]"@
}

/// Each half of each pair as a JSON string literal.
pub open spec fn quoted_pairs(pairs: Pairs) -> Pairs {
    Seq::new(pairs.len(), |i: int| (json_string(pairs[i].0), json_string(pairs[i].1)))
}

/// Appends the JSON array of the numbers of `bytes`.
pub fn push_byte_array(out: &mut String, bytes: &[u8])
    ensures
        final(out)@ == old(out)@ + byte_array(bytes@),
{
    out.append("[");
    let mut i: usize = 0;
    while i < bytes.len()
        invariant
            i <= bytes.len(),
            out@ == old(out)@ + "["@ + byte_items(bytes@.take(i as int)),
        decreases bytes.len() - i,
    {
        let ghost before = out@;
        let ghost done = bytes@.take(i as int);
        let ghost next = bytes@.take(i as int + 1);
        if i > 0 {
            out.append(",");
        }
        push_decimal(out, bytes[i] as u64);
        proof {
            assert(next.drop_last() =~= done);
            assert(next.last() == bytes@[i as int]);
            assert(out@ =~= old(out)@ + "["@ + byte_items(next));
        }
        i += 1;
    }
    proof {
        assert(bytes@.take(bytes.len() as int) =~= bytes@);
    }
    out.append("]");
    assert(final(out)@ =~= old(out)@ + byte_array(bytes@));
}

/// Appends the JSON array of `pairs`, whose halves are encoded already.
pub fn push_pair_array(out: &mut String, pairs: &Vec<(String, String)>)
    ensures
        final(out)@ == old(out)@ + pair_array(pairs.deep_view()),
{
    out.append("[");
    let ghost all = pairs.deep_view();
    let mut i: usize = 0;
    while i < pairs.len()
        invariant
            i <= pairs.len(),
            all == pairs.deep_view(),
            out@ == old(out)@ + "["@ + pair_items(all.take(i as int)),
        decreases pairs.len() - i,
    {
        let ghost done = all.take(i as int);
        let ghost next = all.take(i as int + 1);
        if i > 0 {
            out.append(",");
        }
        out.append("[");
        out.append(pairs[i].0.as_str());
        out.append(",");
        out.append(pairs[i].1.as_str());
        out.append("]");
        proof {
            assert(next.drop_last() =~= done);
            assert(next.last() == all[i as int]);
            assert(all[i as int] == (pairs@[i as int].0@, pairs@[i as int].1@));
            assert(out@ =~= old(out)@ + "["@ + pair_items(next));
        }
        i += 1;
    }
    proof {
        assert(all.take(pairs.len() as int) =~= all);
    }
    out.append("]");
    assert(final(out)@ =~= old(out)@ + pair_array(all));
}

/// Encodes each half of each pair as a JSON string literal.
pub fn quote_pairs(pairs: &Vec<(String, String)>) -> (quoted: Vec<(String, String)>)
    ensures
        quoted.deep_view() == quoted_pairs(pairs.deep_view()),
{
    let mut quoted: Vec<(String, String)> = Vec::new();
    let mut i: usize = 0;
    while i < pairs.len()
        invariant
            i <= pairs.len(),
            quoted.len() == i,
            forall|k: int|
                #![trigger quoted@[k]]
                0 <= k < i ==> quoted@[k].0@ == json_string(pairs@[k].0@) && quoted@[k].1@
                    == json_string(pairs@[k].1@),
        decreases pairs.len() - i,
    {
        let id = quote(pairs[i].0.as_str());
        let hash = quote(pairs[i].1.as_str());
        let ghost before = quoted@;
        quoted.push((id, hash));
        assert forall|k: int| 0 <= k < i + 1 implies (#[trigger] quoted@[k]).0@ == json_string(
            pairs@[k].0@,
        ) && quoted@[k].1@ == json_string(pairs@[k].1@) by {
            if k < i {
                assert(quoted@[k] == before[k]);
            }
        }
        i += 1;
    }
    assert(quoted.deep_view() =~= quoted_pairs(pairs.deep_view()));
    quoted
}

} // verus!
