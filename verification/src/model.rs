//! The mathematical values the contracts speak of.

use vstd::prelude::*;

verus! {

/// An entity id and the hash of the entity's content.
pub type Pair = (Seq<char>, Seq<char>);

/// A list of `(id, hash)` pairs.
pub type Pairs = Seq<Pair>;

/// A hash table of the ledger: the hash recorded for each id.
pub type Table = Map<Seq<char>, Seq<char>>;

/// The cache: the bytes held under each key.
pub type Slots = Map<Seq<char>, Seq<u8>>;

} // verus!
