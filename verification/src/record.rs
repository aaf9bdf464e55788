//! The decoded record: a mapping from field name to the field's raw text.
//!
//! The mapping is represented as the list of `(name, value)` pairs in the
//! order they were decoded; when one name is inserted twice, the later value
//! wins, exactly as a map insert would.

use vstd::prelude::*;

verus! {

/// The text that lossy UTF-8 decoding turns a byte sequence into: a function
/// of the bytes alone, the same in every process and on every machine.
pub uninterp spec fn lossy_text(bytes: Seq<u8>) -> Seq<char>;

/// Relies on `String::from_utf8_lossy`: the decoded text depends on the bytes
/// alone; invalid sequences are replaced rather than failing, so the call is
/// total.
#[verifier::external_body]
pub(crate) fn lossy_decode(bytes: &[u8]) -> (r: String)
    ensures
        r@ == lossy_text(bytes@),
{
    String::from_utf8_lossy(bytes).into_owned()
}

/// The map that a list of `(name, value)` pairs stands for: pairs are
/// inserted in order, so a later pair with the same name overwrites an
/// earlier one.
pub open spec fn map_of_pairs(pairs: Seq<(String, String)>) -> Map<Seq<char>, Seq<char>>
    decreases pairs.len(),
{
    if pairs.len() == 0 {
        Map::empty()
    } else {
        map_of_pairs(pairs.drop_last()).insert(pairs.last().0@, pairs.last().1@)
    }
}

/// A fresh name-to-text mapping produced by one decode call. It owns its
/// strings independently of the input buffer.
#[derive(Debug, PartialEq, Eq)]
pub struct DecodedRecord {
    pairs: Vec<(String, String)>,
}

impl View for DecodedRecord {
    type V = Map<Seq<char>, Seq<char>>;

    closed spec fn view(&self) -> Map<Seq<char>, Seq<char>> {
        map_of_pairs(self.pairs@)
    }
}

impl DecodedRecord {
    pub fn new() -> (r: Self)
        ensures
            r@ == Map::<Seq<char>, Seq<char>>::empty(),
    {
        Self { pairs: Vec::new() }
    }

    /// Binds `name` to `value`, replacing any earlier binding of `name`.
    pub fn insert(&mut self, name: &str, value: String)
        ensures
            final(self)@ == old(self)@.insert(name@, value@),
    {
        let owned = name.to_owned();
        self.pairs.push((owned, value));
        proof {
            assert(self.pairs@.drop_last() =~= old(self).pairs@);
        }
    }

    /// The value bound to `name`, if any: the value of the latest pair whose
    /// name matches.
    pub fn get(&self, name: &str) -> (r: Option<&String>)
        ensures
            match r {
                Some(v) => self@.contains_key(name@) && v@ == self@[name@],
                None => !self@.contains_key(name@),
            },
    {
        let key = name.to_owned();
        let mut i = self.pairs.len();
        while i > 0
            invariant
                i <= self.pairs@.len(),
                key@ == name@,
                map_of_pairs(self.pairs@) == self@,
                forall|j: int| i <= j < self.pairs@.len() ==> self.pairs@[j].0@ != name@,
            decreases i,
        {
            i = i - 1;
            if self.pairs[i].0 == key {
                proof {
                    lemma_lookup(self.pairs@, i as int);
                }
                return Some(&self.pairs[i].1);
            }
        }
        proof {
            lemma_absent(self.pairs@, name@);
        }
        None
    }
}

/// When index `i` holds the latest pair named `pairs[i].0`, the map binds that
/// name to `pairs[i].1`.
proof fn lemma_lookup(pairs: Seq<(String, String)>, i: int)
    requires
        0 <= i < pairs.len(),
        forall|j: int| i < j < pairs.len() ==> pairs[j].0@ != pairs[i].0@,
    ensures
        map_of_pairs(pairs).contains_key(pairs[i].0@),
        map_of_pairs(pairs)[pairs[i].0@] == pairs[i].1@,
    decreases pairs.len(),
{
    if i < pairs.len() - 1 {
        assert(pairs.drop_last()[i] == pairs[i]);
        lemma_lookup(pairs.drop_last(), i);
    }
}

/// A name no pair carries is not in the map.
proof fn lemma_absent(pairs: Seq<(String, String)>, name: Seq<char>)
    requires
        forall|j: int| 0 <= j < pairs.len() ==> pairs[j].0@ != name,
    ensures
        !map_of_pairs(pairs).contains_key(name),
    decreases pairs.len(),
{
    if pairs.len() > 0 {
        lemma_absent(pairs.drop_last(), name);
    }
}

} // verus!
