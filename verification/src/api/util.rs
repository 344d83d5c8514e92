//! Machine identifiers: sixteen random bytes written as thirty-two hex
//! digits.

use rand::RngCore;
use vstd::prelude::*;

verus! {

/// The sixteen hex digits, lower case, in their order.
pub open spec fn hex_digits() -> Seq<char> {
    seq!['0', '1', '2', '3', '4', '5', '6', '7', '8', '9', 'a', 'b', 'c', 'd', 'e', 'f']
}

/// The hex digit that stands for `n`, for `n` below sixteen.
pub open spec fn hex_digit(n: int) -> char
    recommends
        0 <= n < 16,
{
    hex_digits()[n]
}

/// Whether `c` is a lower-case hex digit.
pub open spec fn is_hex_digit(c: char) -> bool {
    exists|n: int| 0 <= n < 16 && c == hex_digit(n)
}

/// The bytes written out, two hex digits each, the high half first.
pub open spec fn hex_of(bytes: Seq<u8>) -> Seq<char>
    decreases bytes.len(),
{
    if bytes.len() == 0 {
        Seq::empty()
    } else {
        hex_of(bytes.drop_last()) + seq![
            hex_digit(bytes.last() as int / 16),
            hex_digit(bytes.last() as int % 16),
        ]
    }
}

/// Bytes written out give two hex digits each, and nothing else.
pub proof fn lemma_hex_of_shape(bytes: Seq<u8>)
    ensures
        hex_of(bytes).len() == 2 * bytes.len(),
        forall|i: int| 0 <= i < hex_of(bytes).len() ==> is_hex_digit(#[trigger] hex_of(bytes)[i]),
    decreases bytes.len(),
{
    if bytes.len() > 0 {
        lemma_hex_of_shape(bytes.drop_last());
        let high = bytes.last() as int / 16;
        let low = bytes.last() as int % 16;
        assert(is_hex_digit(hex_digit(high)));
        assert(is_hex_digit(hex_digit(low)));
    }
}

/// One hex digit as text.
fn hex_str(n: u8) -> (digit: &'static str)
    requires
        n < 16,
    ensures
        digit@ == seq![hex_digit(n as int)],
{
    proof {
        reveal_strlit("0");
        reveal_strlit("1");
        reveal_strlit("2");
        reveal_strlit("3");
        reveal_strlit("4");
        reveal_strlit("5");
        reveal_strlit("6");
        reveal_strlit("7");
        reveal_strlit("8");
        reveal_strlit("9");
        reveal_strlit("a");
        reveal_strlit("b");
        reveal_strlit("c");
        reveal_strlit("d");
        reveal_strlit("e");
        reveal_strlit("f");
    }
    let digit = match n {
        0 => "0",
        1 => "1",
        2 => "2",
        3 => "3",
        4 => "4",
        5 => "5",
        6 => "6",
        7 => "7",
        8 => "8",
        9 => "9",
        10 => "a",
        11 => "b",
        12 => "c",
        13 => "d",
        14 => "e",
        _ => "f",
    };
    assert(digit@ =~= seq![hex_digit(n as int)]);
    digit
}

/// Writes the bytes out as a machine identifier.
pub fn machine_id(bytes: &[u8; 16]) -> (id: String)
    ensures
        id@ == hex_of(bytes@),
        id@.len() == 32,
        forall|i: int| 0 <= i < 32 ==> is_hex_digit(#[trigger] id@[i]),
{
    let mut id = String::new();
    let mut i: usize = 0;
    while i < 16
        invariant
            i <= 16,
            bytes@.len() == 16,
            id@ == hex_of(bytes@.take(i as int)),
        decreases 16 - i,
    {
        let b = bytes[i];
        assert(bytes@.take(i + 1).drop_last() =~= bytes@.take(i as int));
        assert(bytes@.take(i + 1).last() == b);
        id.append(hex_str(b / 16));
        id.append(hex_str(b % 16));
        assert(id@ =~= hex_of(bytes@.take(i + 1)));
        i = i + 1;
    }
    assert(bytes@.take(16) =~= bytes@);
    proof {
        lemma_hex_of_shape(bytes@);
    }
    id
}

/// Sixteen bytes from `rand`'s generator of the current thread
/// (`rand::thread_rng` and `RngCore::fill_bytes`). Nothing is claimed of
/// them: they are random. The generator is seeded by the operating system
/// and stops the program if that fails.
#[verifier::external_body]
fn random_bytes() -> [u8; 16] {
    let mut bytes = [0u8; 16];
    rand::thread_rng().fill_bytes(&mut bytes);
    bytes
}

/// A fresh random machine identifier: thirty-two lower-case hex digits.
pub fn random_machine_id() -> (id: String)
    ensures
        id@.len() == 32,
        forall|i: int| 0 <= i < 32 ==> is_hex_digit(#[trigger] id@[i]),
{
    let bytes = random_bytes();
    machine_id(&bytes)
}

} // verus!
