use vstd::prelude::*;

pub mod buffer;
pub mod consts;
pub mod db;

use rand::rngs::ThreadRng;
use rand::seq::SliceRandom;

verus! {

/// Appends one character to a string (`String::push`).
///
/// Trusted: std documents that `push` appends the given `char` to the end of
/// the string; the contract says exactly that.
#[verifier::external_body]
pub(crate) fn push_char(s: &mut String, c: char)
    ensures
        final(s)@ == old(s)@.push(c),
{
    s.push(c)
}

/// The character of a decimal digit.
pub open spec fn digit_char(d: nat) -> char {
    if d == 0 { '0' } else if d == 1 { '1' } else if d == 2 { '2' } else if d == 3 { '3' }
    else if d == 4 { '4' } else if d == 5 { '5' } else if d == 6 { '6' } else if d == 7 { '7' }
    else if d == 8 { '8' } else { '9' }
}

/// Decimal notation of a natural number, most significant digit first,
/// without leading zeros.
pub open spec fn decimal(n: nat) -> Seq<char>
    decreases n,
{
    if n < 10 {
        seq![digit_char(n)]
    } else {
        decimal(n / 10).push(digit_char(n % 10))
    }
}

fn digit_to_char(d: usize) -> (c: char)
    requires
        d < 10,
    ensures
        c == digit_char(d as nat),
{
    if d == 0 { '0' } else if d == 1 { '1' } else if d == 2 { '2' } else if d == 3 { '3' }
    else if d == 4 { '4' } else if d == 5 { '5' } else if d == 6 { '6' } else if d == 7 { '7' }
    else if d == 8 { '8' } else { '9' }
}

/// Appends the decimal notation of `n` to `s`.
pub fn push_decimal(s: &mut String, n: usize)
    ensures
        final(s)@ == old(s)@ + decimal(n as nat),
    decreases n,
{
    if n >= 10 {
        push_decimal(s, n / 10);
    }
    push_char(s, digit_to_char(n % 10));
    assert(n >= 10 ==> decimal(n as nat) == decimal((n / 10) as nat).push(digit_char((n % 10) as nat)));
}


/// The characters of a generated id: ASCII letters and digits.
pub const ID_CHARS: [char; 62] = [
    'a', 'b', 'c', 'd', 'e', 'f', 'g', 'h', 'i', 'j', 'k', 'l', 'm', 'n', 'o', 'p', 'q', 'r', 's',
    't', 'u', 'v', 'w', 'x', 'y', 'z', 'A', 'B', 'C', 'D', 'E', 'F', 'G', 'H', 'I', 'J', 'K', 'L',
    'M', 'N', 'O', 'P', 'Q', 'R', 'S', 'T', 'U', 'V', 'W', 'X', 'Y', 'Z', '0', '1', '2', '3', '4',
    '5', '6', '7', '8', '9',
];

/// `rand::rngs::ThreadRng`, the random number generator of the thread.
#[verifier::external_type_specification]
#[verifier::external_body]
pub struct ExThreadRng(ThreadRng);

/// `rand::thread_rng()`: the thread's random number generator.
///
/// Trusted: nothing is claimed of it.
#[verifier::external_body]
fn thread_rng() -> ThreadRng {
    rand::thread_rng()
}

/// `SliceRandom::choose`: one element of `items` picked at random.
///
/// Trusted: rand documents that it returns one element of the slice, or
/// `None` when the slice is empty; which element is left open.
#[verifier::external_body]
fn choose_one<'a>(items: &'a [char], rng: &mut ThreadRng) -> (r: Option<&'a char>)
    ensures
        r is None <==> items@.len() == 0,
        r matches Some(c) ==> items@.contains(*c),
{
    items.choose(rng)
}

/// An id of eight characters, each picked at random among `ID_CHARS`.
pub fn general_id() -> (id: String)
    ensures
        id@.len() == 8,
        forall|i: int| 0 <= i < 8 ==> ID_CHARS@.contains(#[trigger] id@[i]),
{
    let mut rng = thread_rng();
    let mut id = String::new();
    let mut k: usize = 0;
    while k < 8
        invariant
            k <= 8,
            id@.len() == k,
            forall|i: int| 0 <= i < k ==> ID_CHARS@.contains(#[trigger] id@[i]),
        decreases 8 - k,
    {
        match choose_one(ID_CHARS.as_slice(), &mut rng) {
            Some(c) => push_char(&mut id, *c),
            None => {
                assert(false);
            },
        }
        k = k + 1;
    }
    id
}

} // verus!
