//! Texts built character by character: decimal numbers, and the order of
//! texts by their bytes.

use vstd::prelude::*;
use vstd::string::StringSliceAdditionalSpecFns;
use vstd::utf8::{encode_utf8, encode_utf8_decode_utf8};

verus! {

/// `String::push`: one character more at the end.
#[verifier::external_body]
pub(crate) fn push_char(text: &mut String, c: char)
    ensures
        final(text)@ == old(text)@.push(c),
{
    text.push(c);
}

/// The decimal digit for a number below ten.
pub open spec fn digit(d: int) -> char {
    if d == 0 {
        '0'
    } else if d == 1 {
        '1'
    } else if d == 2 {
        '2'
    } else if d == 3 {
        '3'
    } else if d == 4 {
        '4'
    } else if d == 5 {
        '5'
    } else if d == 6 {
        '6'
    } else if d == 7 {
        '7'
    } else if d == 8 {
        '8'
    } else {
        '9'
    }
}

/// The decimal text of a natural number, without leading zeros.
pub open spec fn decimal(n: nat) -> Seq<char>
    decreases n,
{
    if n < 10 {
        seq![digit(n as int)]
    } else {
        decimal(n / 10).push(digit((n % 10) as int))
    }
}

/// The decimal text of an integer: a minus sign before a negative one.
pub open spec fn signed_decimal(n: int) -> Seq<char> {
    if n < 0 {
        seq!['-'] + decimal((-n) as nat)
    } else {
        decimal(n as nat)
    }
}

fn digit_of(d: u64) -> (r: char)
    requires
        d < 10,
    ensures
        r == digit(d as int),
{
    if d == 0 {
        '0'
    } else if d == 1 {
        '1'
    } else if d == 2 {
        '2'
    } else if d == 3 {
        '3'
    } else if d == 4 {
        '4'
    } else if d == 5 {
        '5'
    } else if d == 6 {
        '6'
    } else if d == 7 {
        '7'
    } else if d == 8 {
        '8'
    } else {
        '9'
    }
}

spec fn leading(rest: nat) -> Seq<char> {
    if rest == 0 {
        Seq::empty()
    } else {
        decimal(rest)
    }
}

proof fn lemma_decimal_step(n: nat)
    ensures
        decimal(n) == leading(n / 10).push(digit((n % 10) as int)),
{
    if n < 10 {
        assert(n / 10 == 0 && n % 10 == n);
        assert(decimal(n) =~= leading(n / 10).push(digit((n % 10) as int)));
    }
}

/// Appends the decimal text of a number.
pub fn push_decimal(text: &mut String, n: u64)
    ensures
        final(text)@ == old(text)@ + decimal(n as nat),
{
    let mut digits: Vec<char> = Vec::new();
    let mut rest: u64 = n / 10;
    digits.push(digit_of(n % 10));
    proof {
        lemma_decimal_step(n as nat);
        assert(decimal(n as nat) =~= leading(rest as nat) + digits@.reverse());
    }
    while rest != 0
        invariant
            decimal(n as nat) == leading(rest as nat) + digits@.reverse(),
        decreases rest,
    {
        proof {
            lemma_decimal_step(rest as nat);
        }
        let ghost before = digits@;
        let d = digit_of(rest % 10);
        digits.push(d);
        rest = rest / 10;
        proof {
            assert(digits@.reverse() =~= seq![d] + before.reverse());
            assert(leading(rest as nat).push(d) + before.reverse() =~= leading(rest as nat)
                + digits@.reverse());
        }
    }
    proof {
        assert(decimal(n as nat) =~= digits@.reverse());
    }
    let mut k: usize = digits.len();
    while k > 0
        invariant
            k <= digits.len(),
            text@ == old(text)@ + digits@.reverse().take(digits.len() - k),
        decreases k,
    {
        k = k - 1;
        push_char(text, digits[k]);
        proof {
            let shown = digits@.reverse();
            assert(shown.take(digits.len() - k) =~= shown.take(digits.len() - k - 1).push(
                digits@[k as int],
            ));
            assert(text@ =~= old(text)@ + shown.take(digits.len() - k));
        }
    }
    proof {
        assert(digits@.reverse().take(digits.len() as int) =~= digits@.reverse());
    }
}

/// The decimal text of a number.
pub fn decimal_text(n: u64) -> (r: String)
    ensures
        r@ == decimal(n as nat),
{
    let mut text = String::new();
    push_decimal(&mut text, n);
    proof {
        assert(Seq::<char>::empty() + decimal(n as nat) =~= decimal(n as nat));
    }
    text
}

/// The decimal text of an integer.
pub fn signed_decimal_text(n: i64) -> (r: String)
    ensures
        r@ == signed_decimal(n as int),
{
    let mut text = String::new();
    if n < 0 {
        push_char(&mut text, '-');
        let magnitude: u64 = if n == i64::MIN {
            0x8000_0000_0000_0000
        } else {
            (-n) as u64
        };
        push_decimal(&mut text, magnitude);
        proof {
            assert(Seq::<char>::empty().push('-') =~= seq!['-']);
        }
    } else {
        push_decimal(&mut text, n as u64);
        proof {
            assert(Seq::<char>::empty() + decimal(n as nat) =~= decimal(n as nat));
        }
    }
    text
}

/// How two texts stand to each other.
#[derive(Clone, Copy, Debug, PartialEq, Eq, Structural)]
pub enum Order {
    Before,
    Same,
    After,
}

/// The order of two byte strings: by the first byte in which they differ,
/// a string before every longer one that begins with it.
pub open spec fn order_of(a: Seq<u8>, b: Seq<u8>) -> Order
    decreases a.len(),
{
    if a.len() == 0 && b.len() == 0 {
        Order::Same
    } else if a.len() == 0 {
        Order::Before
    } else if b.len() == 0 {
        Order::After
    } else if a[0] < b[0] {
        Order::Before
    } else if a[0] > b[0] {
        Order::After
    } else {
        order_of(a.drop_first(), b.drop_first())
    }
}

/// Two byte strings are the same exactly if they are equal.
pub proof fn lemma_same_is_equal(a: Seq<u8>, b: Seq<u8>)
    ensures
        order_of(a, b) == Order::Same <==> a == b,
    decreases a.len(),
{
    if a.len() > 0 && b.len() > 0 {
        lemma_same_is_equal(a.drop_first(), b.drop_first());
        if a[0] == b[0] && a.drop_first() == b.drop_first() {
            assert forall|i: int| 0 <= i < a.len() implies a[i] == b[i] by {
                if i > 0 {
                    assert(a[i] == a.drop_first()[i - 1]);
                    assert(b[i] == b.drop_first()[i - 1]);
                }
            }
            assert(a.len() == a.drop_first().len() + 1);
            assert(b.len() == b.drop_first().len() + 1);
            assert(a =~= b);
        }
    } else if a.len() == 0 && b.len() == 0 {
        assert(a =~= b);
    }
}

/// One string is before another exactly if the other is after it.
pub proof fn lemma_order_mirrors(a: Seq<u8>, b: Seq<u8>)
    ensures
        order_of(a, b) == Order::Before <==> order_of(b, a) == Order::After,
        order_of(a, b) == Order::Same <==> order_of(b, a) == Order::Same,
    decreases a.len(),
{
    if a.len() > 0 && b.len() > 0 {
        lemma_order_mirrors(a.drop_first(), b.drop_first());
    }
}

/// The order is transitive.
pub proof fn lemma_order_chains(a: Seq<u8>, b: Seq<u8>, c: Seq<u8>)
    requires
        order_of(a, b) == Order::Before,
        order_of(b, c) == Order::Before,
    ensures
        order_of(a, c) == Order::Before,
    decreases a.len(),
{
    if a.len() > 0 && b.len() > 0 && c.len() > 0 {
        if a[0] == b[0] && b[0] == c[0] {
            lemma_order_chains(a.drop_first(), b.drop_first(), c.drop_first());
        }
    }
}

/// The order of two texts by their bytes.
pub fn order_bytes(a: &[u8], b: &[u8]) -> (r: Order)
    ensures
        r == order_of(a@, b@),
{
    let mut i: usize = 0;
    proof {
        assert(a@.skip(0) =~= a@ && b@.skip(0) =~= b@);
    }
    while i < a.len() && i < b.len()
        invariant
            i <= a.len(),
            i <= b.len(),
            order_of(a@, b@) == order_of(a@.skip(i as int), b@.skip(i as int)),
        decreases a.len() - i,
    {
        proof {
            assert(a@.skip(i as int)[0] == a@[i as int]);
            assert(b@.skip(i as int)[0] == b@[i as int]);
            assert(a@.skip(i as int).drop_first() =~= a@.skip(i + 1));
            assert(b@.skip(i as int).drop_first() =~= b@.skip(i + 1));
        }
        if a[i] < b[i] {
            return Order::Before;
        }
        if a[i] > b[i] {
            return Order::After;
        }
        i = i + 1;
    }
    if i < b.len() {
        Order::Before
    } else if i < a.len() {
        Order::After
    } else {
        Order::Same
    }
}

/// Whether two texts are the same, character by character.
pub fn same_text(a: &str, b: &str) -> (r: bool)
    ensures
        r == (a@ == b@),
{
    let order = order_bytes(a.as_bytes(), b.as_bytes());
    proof {
        lemma_same_is_equal(encode_utf8(a@), encode_utf8(b@));
        encode_utf8_decode_utf8(a@);
        encode_utf8_decode_utf8(b@);
    }
    order == Order::Same
}

} // verus!
