//! Random identifier generation for naming test subjects.
//!
//! An identifier is a 32-character string whose characters are drawn
//! independently and uniformly from the 22-symbol alphabet
//! `0123456789abcdefABCDEF` (both letter cases are drawn, so letters occur
//! about twice as often as each digit). Every such string is a well-formed
//! 128-bit unique identifier in the undashed hexadecimal form; the generator
//! checks this with the identifier parser and never hands out a string that
//! the parser rejects.

use rand::Rng;
use vstd::prelude::*;

verus! {

/// The draw alphabet, in the order indices are drawn from.
pub open spec fn spec_charset() -> Seq<char> {
    seq![
        '0', '1', '2', '3', '4', '5', '6', '7', '8', '9',
        'a', 'b', 'c', 'd', 'e', 'f',
        'A', 'B', 'C', 'D', 'E', 'F',
    ]
}

/// Whether `c` belongs to the draw alphabet; the alphabet holds exactly
/// the hexadecimal digits in both cases.
pub open spec fn is_fixture_hex_char(c: char) -> bool {
    spec_charset().contains(c)
}

/// Whether `s` has the shape of a generated identifier: 32 characters,
/// each a hexadecimal digit.
pub open spec fn id_chars_valid(s: Seq<char>) -> bool {
    &&& s.len() == 32
    &&& forall|i: int| 0 <= i < 32 ==> is_fixture_hex_char(#[trigger] s[i])
}

/// A generated identifier: a 128-bit value held as its 32 hexadecimal
/// digits.
pub struct UniqueId {
    hex: String,
}

impl View for UniqueId {
    type V = Seq<char>;

    closed spec fn view(&self) -> Seq<char> {
        self.hex@
    }
}

impl UniqueId {
    /// Well-formedness: the held string is 32 hexadecimal digits.
    pub open spec fn wf(&self) -> bool {
        id_chars_valid(self@)
    }

    /// The identifier's digits, as stored.
    pub fn as_str(&self) -> (r: &str)
        ensures
            r@ == self@,
    {
        self.hex.as_str()
    }
}

/// Relies on `rand::Rng::gen_range` over `rand::thread_rng`: it panics only
/// on an empty range and returns a value of the range. Nothing else can be
/// said of a random draw.
#[verifier::external_body]
fn random_index(bound: usize) -> (r: usize)
    requires
        0 < bound,
    ensures
        r < bound,
{
    rand::thread_rng().gen_range(0..bound)
}

/// Relies on `uuid::Uuid::parse_str`: a 32-character input is parsed in the
/// undashed (simple) form, which is accepted exactly when every character
/// is a hexadecimal digit.
#[verifier::external_body]
fn uuid_accepts(s: &str) -> (r: bool)
    ensures
        id_chars_valid(s@) ==> r,
{
    uuid::Uuid::parse_str(s).is_ok()
}

/// The one-character string holding the alphabet symbol at `idx`.
fn charset_str(idx: usize) -> (r: &'static str)
    requires
        idx < 22,
    ensures
        r@.len() == 1,
        r@[0] == spec_charset()[idx as int],
{
    let r: &'static str = match idx {
        0 => "0",
        1 => "1",
        2 => "2",
        3 => "3",
        4 => "4",
        5 => "5",
        6 => "6",
        7 => "7",
        8 => "8",
        9 => "9",
        10 => "a",
        11 => "b",
        12 => "c",
        13 => "d",
        14 => "e",
        15 => "f",
        16 => "A",
        17 => "B",
        18 => "C",
        19 => "D",
        20 => "E",
        _ => "F",
    };
    proof {
        reveal_strlit("0");
        reveal_strlit("1");
        reveal_strlit("2");
        reveal_strlit("3");
        reveal_strlit("4");
        reveal_strlit("5");
        reveal_strlit("6");
        reveal_strlit("7");
        reveal_strlit("8");
        reveal_strlit("9");
        reveal_strlit("a");
        reveal_strlit("b");
        reveal_strlit("c");
        reveal_strlit("d");
        reveal_strlit("e");
        reveal_strlit("f");
        reveal_strlit("A");
        reveal_strlit("B");
        reveal_strlit("C");
        reveal_strlit("D");
        reveal_strlit("E");
        reveal_strlit("F");
    }
    r
}

/// Draws a fresh identifier: 32 characters, each drawn independently from
/// the alphabet, re-checked against the identifier parser before being
/// handed out.
pub fn generate_uuid() -> (r: UniqueId)
    ensures
        r.wf(),
{
    let mut s = String::new();
    let mut i: usize = 0;
    while i < 32
        invariant
            i <= 32,
            s@.len() == i,
            forall|j: int| 0 <= j < i ==> is_fixture_hex_char(#[trigger] s@[j]),
        decreases 32 - i,
    {
        let idx = random_index(22);
        let piece = charset_str(idx);
        proof {
            assert(is_fixture_hex_char(spec_charset()[idx as int]));
        }
        s.append(piece);
        i += 1;
    }
    let ok = uuid_accepts(s.as_str());
    if ok {
        UniqueId { hex: s }
    } else {
        vstd::pervasive::unreached()
    }
}

} // verus!
