//! Entries and their files. An entry is kept in a file named by its index,
//! in decimal, and `.txt`; the index of a file is what stands before the
//! first dot of its name.

use vstd::prelude::*;
use crate::number::{
    decimal, decimal_text, index_of, lemma_decimal, number_of, parse_index,
};
use crate::text::{lemma_stem_len, stem, stem_of};

verus! {

/// The name of the file that holds the entry with the index `index`.
pub open spec fn entry_file_text(index: nat) -> Seq<char> {
    decimal(index) + ".txt"@
}

/// The number that a file name carries, whatever its size: what its stem
/// spells, if that is a numeral.
pub open spec fn name_number(name: Seq<char>) -> Option<nat> {
    number_of(stem(name))
}

/// The index that a file name carries: its number, where that fits the
/// machine's word.
pub open spec fn name_index(name: Seq<char>) -> Option<usize> {
    index_of(stem(name))
}

/// Whether `index` is the display index of one of `count` entries: display
/// indices count from 1.
pub open spec fn in_range(index: nat, count: nat) -> bool {
    1 <= index <= count
}

/// The file of an index carries that index: its stem is the index's decimal
/// numeral, which reads as the index.
pub proof fn lemma_entry_file(index: nat)
    ensures
        stem(entry_file_text(index)) == decimal(index),
        name_number(entry_file_text(index)) == Some(index),
        index <= usize::MAX ==> name_index(entry_file_text(index)) == Some(index as usize),
{
    reveal_strlit(".txt");
    lemma_decimal(index);
    let base = decimal(index);
    let name = entry_file_text(index);
    assert forall|j: int| 0 <= j < base.len() implies name[j] != '.' by {
        assert(base.contains(base[j]));
    }
    assert(name[base.len() as int] == ".txt"@[0]);
    lemma_stem_len(name, base.len() as int);
    assert(name.take(base.len() as int) =~= base);
}

/// Names the file of an index.
pub fn entry_file(index: u128) -> (r: String)
    ensures
        r@ == entry_file_text(index as nat),
{
    let mut name = decimal_text(index);
    name.append(".txt");
    name
}

/// Reads the index that a file name carries.
pub fn index_of_name(name: &str) -> (r: Option<usize>)
    ensures
        r == name_index(name@),
{
    parse_index(stem_of(name).as_str())
}

/// Tells whether a display index names one of `count` entries.
pub fn is_in_range(index: usize, count: usize) -> (r: bool)
    ensures
        r == in_range(index as nat, count as nat),
{
    1 <= index && index <= count
}

} // verus!
