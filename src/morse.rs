//! Morse symbols accumulated as a path in a binary trie of depth five.
use vstd::prelude::*;

verus! {

/// Trie index reserved for the transmit command. It is the path of five
/// dots, so keying five dots also commands a transmission.
pub const TRANSMIT_INDEX: u8 = 31;

/// The letter keyed so far, as an index into a binary trie of depth five.
/// Index 0 is the empty code; each symbol moves one level down the trie.
#[derive(Clone, Copy, Debug, PartialEq, Eq, Structural)]
pub struct MorseCode(pub u8);

/// Trie index after appending one symbol (a dash when `is_dash`) to `index`;
/// running off the bottom of the trie starts over at the empty code.
pub open spec fn advance(index: u8, is_dash: bool) -> u8 {
    let next = 2 * index + 1 + if is_dash { 1int } else { 0int };
    if next > 31 {
        0
    } else {
        next as u8
    }
}

/// Trie index reached from the empty code by appending the symbols of `s`
/// in order (`true` for a dash, `false` for a dot).
pub open spec fn code_after(s: Seq<bool>) -> u8
    decreases s.len(),
{
    if s.len() == 0 {
        0
    } else {
        advance(code_after(s.drop_last()), s.last())
    }
}

/// The symbols on the trie path to `index` (`true` for a dash).
pub open spec fn symbols_of(index: nat) -> Seq<bool>
    decreases index,
{
    if index == 0 {
        Seq::empty()
    } else {
        symbols_of(((index - 1) / 2) as nat).push((index - 1) % 2 == 1)
    }
}

/// The international Morse code of the letters: the lower-case ASCII letter
/// whose code is `s` (`true` for a dash), or 0 when no letter has that code.
pub open spec fn standard_letter(s: Seq<bool>) -> u8 {
    let dot = false;
    let dash = true;
    if s == seq![dot, dash] { 'a' as u8 }
    else if s == seq![dash, dot, dot, dot] { 'b' as u8 }
    else if s == seq![dash, dot, dash, dot] { 'c' as u8 }
    else if s == seq![dash, dot, dot] { 'd' as u8 }
    else if s == seq![dot] { 'e' as u8 }
    else if s == seq![dot, dot, dash, dot] { 'f' as u8 }
    else if s == seq![dash, dash, dot] { 'g' as u8 }
    else if s == seq![dot, dot, dot, dot] { 'h' as u8 }
    else if s == seq![dot, dot] { 'i' as u8 }
    else if s == seq![dot, dash, dash, dash] { 'j' as u8 }
    else if s == seq![dash, dot, dash] { 'k' as u8 }
    else if s == seq![dot, dash, dot, dot] { 'l' as u8 }
    else if s == seq![dash, dash] { 'm' as u8 }
    else if s == seq![dash, dot] { 'n' as u8 }
    else if s == seq![dash, dash, dash] { 'o' as u8 }
    else if s == seq![dot, dash, dash, dot] { 'p' as u8 }
    else if s == seq![dash, dash, dot, dash] { 'q' as u8 }
    else if s == seq![dot, dash, dot] { 'r' as u8 }
    else if s == seq![dot, dot, dot] { 's' as u8 }
    else if s == seq![dash] { 't' as u8 }
    else if s == seq![dot, dot, dash] { 'u' as u8 }
    else if s == seq![dot, dot, dot, dash] { 'v' as u8 }
    else if s == seq![dot, dash, dash] { 'w' as u8 }
    else if s == seq![dash, dot, dot, dash] { 'x' as u8 }
    else if s == seq![dash, dot, dash, dash] { 'y' as u8 }
    else if s == seq![dash, dash, dot, dot] { 'z' as u8 }
    else { 0 }
}

/// The character that trie index `index` decodes to: the letter whose Morse
/// code is the path to `index`, or 0 for the empty code, unused indices, the
/// transmit index and indices outside the trie.
pub open spec fn letter_at(index: u8) -> u8 {
    if index < 32 {
        standard_letter(symbols_of(index as nat))
    } else {
        0
    }
}

/// Evaluates `letter_at` on every index of the trie.
proof fn lemma_letter_table()
    ensures
        letter_at(0) == 0,
        letter_at(1) == 'e' as u8,
        letter_at(2) == 't' as u8,
        letter_at(3) == 'i' as u8,
        letter_at(4) == 'a' as u8,
        letter_at(5) == 'n' as u8,
        letter_at(6) == 'm' as u8,
        letter_at(7) == 's' as u8,
        letter_at(8) == 'u' as u8,
        letter_at(9) == 'r' as u8,
        letter_at(10) == 'w' as u8,
        letter_at(11) == 'd' as u8,
        letter_at(12) == 'k' as u8,
        letter_at(13) == 'g' as u8,
        letter_at(14) == 'o' as u8,
        letter_at(15) == 'h' as u8,
        letter_at(16) == 'v' as u8,
        letter_at(17) == 'f' as u8,
        letter_at(18) == 0,
        letter_at(19) == 'l' as u8,
        letter_at(20) == 0,
        letter_at(21) == 'p' as u8,
        letter_at(22) == 'j' as u8,
        letter_at(23) == 'b' as u8,
        letter_at(24) == 'x' as u8,
        letter_at(25) == 'c' as u8,
        letter_at(26) == 'y' as u8,
        letter_at(27) == 'z' as u8,
        letter_at(28) == 'q' as u8,
        letter_at(29) == 0,
        letter_at(30) == 0,
        letter_at(31) == 0,
{
    reveal_with_fuel(symbols_of, 6);
    assert(symbols_of(1) =~= seq![false]);
    assert(symbols_of(2) =~= seq![true]);
    assert(symbols_of(3) =~= seq![false, false]);
    assert(symbols_of(4) =~= seq![false, true]);
    assert(symbols_of(5) =~= seq![true, false]);
    assert(symbols_of(6) =~= seq![true, true]);
    assert(symbols_of(7) =~= seq![false, false, false]);
    assert(symbols_of(8) =~= seq![false, false, true]);
    assert(symbols_of(9) =~= seq![false, true, false]);
    assert(symbols_of(10) =~= seq![false, true, true]);
    assert(symbols_of(11) =~= seq![true, false, false]);
    assert(symbols_of(12) =~= seq![true, false, true]);
    assert(symbols_of(13) =~= seq![true, true, false]);
    assert(symbols_of(14) =~= seq![true, true, true]);
    assert(symbols_of(15) =~= seq![false, false, false, false]);
    assert(symbols_of(16) =~= seq![false, false, false, true]);
    assert(symbols_of(17) =~= seq![false, false, true, false]);
    assert(symbols_of(18) =~= seq![false, false, true, true]);
    assert(symbols_of(19) =~= seq![false, true, false, false]);
    assert(symbols_of(20) =~= seq![false, true, false, true]);
    assert(symbols_of(21) =~= seq![false, true, true, false]);
    assert(symbols_of(22) =~= seq![false, true, true, true]);
    assert(symbols_of(23) =~= seq![true, false, false, false]);
    assert(symbols_of(24) =~= seq![true, false, false, true]);
    assert(symbols_of(25) =~= seq![true, false, true, false]);
    assert(symbols_of(26) =~= seq![true, false, true, true]);
    assert(symbols_of(27) =~= seq![true, true, false, false]);
    assert(symbols_of(28) =~= seq![true, true, false, true]);
    assert(symbols_of(29) =~= seq![true, true, true, false]);
    assert(symbols_of(30) =~= seq![true, true, true, true]);
    assert(symbols_of(31) =~= seq![false, false, false, false, false]);
}

/// Smallest trie index of a code of `n` symbols.
spec fn first_index(n: nat) -> nat
    decreases n,
{
    if n == 0 { 0 } else { 2 * first_index((n - 1) as nat) + 1 }
}

/// Largest trie index of a code of `n` symbols.
spec fn last_index(n: nat) -> nat
    decreases n,
{
    if n == 0 { 0 } else { 2 * last_index((n - 1) as nat) + 2 }
}

/// Up to four symbols stay on the trie: the index lies in the band of its
/// length and its path is the symbols themselves.
proof fn lemma_path_of_short_code(s: Seq<bool>)
    requires
        s.len() <= 4,
    ensures
        first_index(s.len()) <= code_after(s) <= last_index(s.len()),
        symbols_of(code_after(s) as nat) == s,
    decreases s.len(),
{
    if s.len() == 0 {
        assert(symbols_of(0) =~= s);
    } else {
        let p = s.drop_last();
        lemma_path_of_short_code(p);
        reveal_with_fuel(last_index, 5);
        let c = code_after(p);
        assert(c <= 14);
        let next = 2 * c + 1 + if s.last() { 1int } else { 0int };
        assert(code_after(s) == next);
        assert(((next - 1) / 2) as nat == c as nat);
        assert(symbols_of(next as nat) == symbols_of(c as nat).push(s.last()));
        assert(p.push(s.last()) =~= s);
    }
}

/// Appending the symbols of any Morse sequence of at most five symbols to
/// the empty code and decoding gives the letter that international Morse
/// assigns to that sequence, and 0 for sequences that spell no letter.
pub proof fn lemma_decode_is_standard_morse(s: Seq<bool>)
    requires
        s.len() <= 5,
    ensures
        letter_at(code_after(s)) == standard_letter(s),
{
    lemma_letter_table();
    if s.len() <= 4 {
        lemma_path_of_short_code(s);
        reveal_with_fuel(last_index, 5);
    } else {
        let p = s.drop_last();
        lemma_path_of_short_code(p);
        reveal_with_fuel(first_index, 5);
        reveal_with_fuel(last_index, 5);
        assert(code_after(s) == 0 || code_after(s) == 31);
    }
}

/// One symbol appended to a code of at most three symbols never leaves the
/// code empty.
pub proof fn lemma_append_to_short_code_is_not_empty(code: MorseCode, is_dash: bool)
    requires
        code.0 < 15,
    ensures
        advance(code.0, is_dash) != 0,
{
}

impl MorseCode {
    /// The code with no symbols.
    pub fn empty() -> (r: MorseCode)
        ensures
            r.0 == 0,
    {
        MorseCode(0)
    }

    /// The transmit command.
    pub fn transmit() -> (r: MorseCode)
        ensures
            r.0 == TRANSMIT_INDEX,
    {
        MorseCode(TRANSMIT_INDEX)
    }

    pub fn is_empty(&self) -> (r: bool)
        ensures
            r == (self.0 == 0),
    {
        self.0 == 0
    }

    /// Whether this code holds the transmit command.
    pub fn is_transmit(&self) -> (r: bool)
        ensures
            r == (self.0 == TRANSMIT_INDEX),
    {
        self.0 == TRANSMIT_INDEX
    }

    fn advance_pointer(&self, is_dash: bool) -> (r: MorseCode)
        ensures
            r.0 == advance(self.0, is_dash),
    {
        let next: u16 = 2 * (self.0 as u16) + 1 + if is_dash { 1u16 } else { 0u16 };
        MorseCode(if next > 31 { 0 } else { next as u8 })
    }

    pub fn append_dot(self) -> (r: MorseCode)
        ensures
            r.0 == advance(self.0, false),
    {
        self.advance_pointer(false)
    }

    pub fn append_dash(self) -> (r: MorseCode)
        ensures
            r.0 == advance(self.0, true),
    {
        self.advance_pointer(true)
    }

    /// The letter this code decodes to; 0 where it is no letter.
    pub fn lookup(&self) -> (r: u8)
        ensures
            r == letter_at(self.0),
    {
        proof {
            lemma_letter_table();
        }
        match self.0 {
            1 => 'e' as u8,
            2 => 't' as u8,
            3 => 'i' as u8,
            4 => 'a' as u8,
            5 => 'n' as u8,
            6 => 'm' as u8,
            7 => 's' as u8,
            8 => 'u' as u8,
            9 => 'r' as u8,
            10 => 'w' as u8,
            11 => 'd' as u8,
            12 => 'k' as u8,
            13 => 'g' as u8,
            14 => 'o' as u8,
            15 => 'h' as u8,
            16 => 'v' as u8,
            17 => 'f' as u8,
            19 => 'l' as u8,
            21 => 'p' as u8,
            22 => 'j' as u8,
            23 => 'b' as u8,
            24 => 'x' as u8,
            25 => 'c' as u8,
            26 => 'y' as u8,
            27 => 'z' as u8,
            28 => 'q' as u8,
            _ => 0,
        }
    }
}

} // verus!

