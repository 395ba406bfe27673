//! The devices, and the order of a word's bytes on the wire.

use vstd::prelude::*;

pub mod get_pin;
pub mod pcf8574;
pub mod pcf8575;
pub mod set_pin;

verus! {

/// The byte of a word that goes over the wire first: P0 to P7.
pub open spec fn low_byte(word: u16) -> u8 {
    (word % 256) as u8
}

/// The byte of a word that goes over the wire second: P10 to P17.
pub open spec fn high_byte(word: u16) -> u8 {
    (word / 256) as u8
}

/// The word that two bytes stand for when `low` came over the wire first.
pub open spec fn word_of(low: u8, high: u8) -> u16 {
    (low + 256 * high) as u16
}

/// A word as it goes over the wire: low byte first.
pub open spec fn wire_order(word: u16) -> Seq<u8> {
    seq![low_byte(word), high_byte(word)]
}

/// Splits a word into its two bytes in wire order.
pub fn u16_to_u8_array(input: u16) -> (bytes: [u8; 2])
    ensures
        bytes@ == wire_order(input),
{
    assert(input & 0xff == input % 256 && input >> 8 == input / 256) by (bit_vector);
    let bytes: [u8; 2] = [(input & 0xff) as u8, (input >> 8) as u8];
    assert(bytes@ =~= wire_order(input));
    bytes
}

/// Joins two bytes in wire order into the word that they stand for.
pub fn u8_array_to_u16(input: [u8; 2]) -> (word: u16)
    ensures
        word == word_of(input[0], input[1]),
{
    let low: u8 = input[0];
    let high: u8 = input[1];
    assert((low as u16) | ((high as u16) << 8) == low + 256 * high) by (bit_vector);
    (low as u16) | ((high as u16) << 8)
}

/// A word that is split into bytes and joined again is the word it was.
pub proof fn lemma_join_of_split(word: u16)
    ensures
        word_of(low_byte(word), high_byte(word)) == word,
        word_of(wire_order(word)[0], wire_order(word)[1]) == word,
{
}

/// Two bytes that are joined into a word and split again are the bytes they
/// were.
pub proof fn lemma_split_of_join(low: u8, high: u8)
    ensures
        low_byte(word_of(low, high)) == low,
        high_byte(word_of(low, high)) == high,
        wire_order(word_of(low, high)) == seq![low, high],
{
}

} // verus!
