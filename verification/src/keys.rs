//! Why sorting file names restores the order of a book: order keys ascend
//! with the leaves' numbers, and a leaf's continuations sort after the leaf
//! and before the next leaf.

use vstd::prelude::*;
use crate::chapter::file_name_of;
use crate::chapter::txt_suffix;
use crate::frontier::decimal;
use crate::frontier::digits;
use crate::frontier::key_width;
use crate::frontier::order_key_of;
use crate::frontier::zero_padded;
use crate::item::continuation_key_of;
use crate::item::continuation_suffix;
use crate::text::first_difference;
use crate::text::precedes;

verus! {

/// Ten to the power of `w`.
pub open spec fn ten_to(w: nat) -> nat
    decreases w,
{
    if w == 0 {
        1
    } else {
        10 * ten_to((w - 1) as nat)
    }
}

/// The last `w` digits of `n`.
pub open spec fn fixed(n: nat, w: nat) -> Seq<char>
    decreases w,
{
    if w == 0 {
        Seq::empty()
    } else {
        fixed(n / 10, (w - 1) as nat).push(digits()[(n % 10) as int])
    }
}

/// `fixed` yields as many digits as it is asked for.
pub proof fn lemma_fixed_len(n: nat, w: nat)
    ensures
        fixed(n, w).len() == w,
    decreases w,
{
    if w > 0 {
        lemma_fixed_len(n / 10, (w - 1) as nat);
    }
}

/// The last digits of zero are zeros.
pub proof fn lemma_fixed_zero(w: nat)
    ensures
        fixed(0, w) == Seq::new(w, |i: int| '0'),
    decreases w,
{
    if w > 0 {
        lemma_fixed_zero((w - 1) as nat);
    }
    assert(fixed(0, w) =~= Seq::new(w, |i: int| '0'));
}

/// A numeral has at least one digit, and no more than its number has places.
pub proof fn lemma_decimal_len(n: nat, w: nat)
    requires
        w >= 1,
        n < ten_to(w),
    ensures
        1 <= decimal(n).len() <= w,
    decreases w,
{
    if n >= 10 {
        if w == 1 {
            assert(ten_to(1) == 10) by {
                reveal_with_fuel(ten_to, 2);
            }
        } else {
            lemma_decimal_len(n / 10, (w - 1) as nat);
        }
    }
}

/// For a number that has no more than `w` places, filling its numeral with
/// zeros gives its last `w` digits.
pub proof fn lemma_padded_is_fixed(n: nat, w: nat)
    requires
        w >= 1,
        n < ten_to(w),
    ensures
        zero_padded(decimal(n), w) == fixed(n, w),
    decreases w,
{
    if n < 10 {
        lemma_fixed_zero((w - 1) as nat);
        assert(n / 10 == 0);
        assert(zero_padded(decimal(n), w) =~= fixed(n, w));
    } else {
        if w == 1 {
            assert(ten_to(1) == 10) by {
                reveal_with_fuel(ten_to, 2);
            }
        } else {
            let v = (w - 1) as nat;
            lemma_padded_is_fixed(n / 10, v);
            lemma_decimal_len(n / 10, v);
            assert(zero_padded(decimal(n), w) =~= zero_padded(decimal(n / 10), v).push(
                digits()[(n % 10) as int],
            ));
        }
    }
}

/// A lower digit is a lower character.
pub proof fn lemma_digits_ascend(x: int, y: int)
    requires
        0 <= x < y < 10,
    ensures
        (digits()[x] as u32) < (digits()[y] as u32),
{
}

/// Of two numbers with no more than `w` places, the lower has the lower
/// digit at the first place where their last `w` digits differ.
pub proof fn lemma_fixed_ascend(a: nat, b: nat, w: nat) -> (k: int)
    requires
        a < b < ten_to(w),
    ensures
        0 <= k < w,
        first_difference(fixed(a, w), fixed(b, w), k),
    decreases w,
{
    lemma_fixed_len(a, w);
    lemma_fixed_len(b, w);
    let v = (w - 1) as nat;
    lemma_fixed_len(a / 10, v);
    lemma_fixed_len(b / 10, v);
    if a / 10 < b / 10 {
        let k = lemma_fixed_ascend(a / 10, b / 10, v);
        assert(fixed(a, w).take(k) =~= fixed(a / 10, v).take(k));
        assert(fixed(b, w).take(k) =~= fixed(b / 10, v).take(k));
        k
    } else {
        assert(a / 10 == b / 10);
        lemma_digits_ascend((a % 10) as int, (b % 10) as int);
        assert(fixed(a, w).take(v as int) =~= fixed(a / 10, v));
        assert(fixed(b, w).take(v as int) =~= fixed(b / 10, v));
        v as int
    }
}

/// The largest number whose order key has the common width.
pub open spec fn last_ordered_number() -> nat {
    99999
}

/// Order keys ascend with their numbers, and so does whatever is appended to
/// them: all that stems from a leaf sorts before all that stems from a later
/// leaf, as long as the numbers have no more than five places.
pub proof fn lemma_leaves_in_order(m: nat, n: nat, s: Seq<char>, t: Seq<char>)
    requires
        m < n <= last_ordered_number(),
    ensures
        precedes(order_key_of(m), order_key_of(n)),
        precedes(order_key_of(m) + s, order_key_of(n) + t),
        order_key_of(m).len() == key_width(),
{
    assert(ten_to(5) == 100000) by {
        reveal_with_fuel(ten_to, 6);
    }
    lemma_padded_is_fixed(m, 5);
    lemma_padded_is_fixed(n, 5);
    lemma_fixed_len(m, 5);
    let k = lemma_fixed_ascend(m, n, 5);
    crate::text::lemma_precedes_extended(order_key_of(m), order_key_of(n), k, s, t);
}

/// A page's order key properly begins the key of the page that continues
/// it, and so comes before it.
pub proof fn lemma_continuation_key_follows(key: Seq<char>)
    ensures
        key.is_prefix_of(continuation_key_of(key)),
        key.len() < continuation_key_of(key).len(),
        precedes(key, continuation_key_of(key)),
{
    assert(continuation_key_of(key).subrange(0, key.len() as int) =~= key);
    crate::text::lemma_proper_prefix_precedes(key, continuation_suffix());
}

/// A page's file sorts before the file of the page that continues it.
pub proof fn lemma_continuation_follows(key: Seq<char>)
    ensures
        precedes(file_name_of(key), file_name_of(continuation_key_of(key))),
{
    let rest = continuation_suffix() + txt_suffix();
    assert(first_difference(txt_suffix(), rest, 0)) by {
        assert(txt_suffix().take(0) =~= rest.take(0));
    }
    crate::text::lemma_precedes_after_prefix(key, txt_suffix(), rest);
    assert(key + rest =~= file_name_of(continuation_key_of(key)));
}

/// The files of a leaf and of all its continuations sort before the files
/// of every later leaf and of its continuations.
pub proof fn lemma_chain_before_next_leaf(m: nat, n: nat, s: Seq<char>, t: Seq<char>)
    requires
        m < n <= last_ordered_number(),
    ensures
        precedes(file_name_of(order_key_of(m) + s), file_name_of(order_key_of(n) + t)),
{
    lemma_leaves_in_order(m, n, s + txt_suffix(), t + txt_suffix());
    assert(order_key_of(m) + (s + txt_suffix()) =~= file_name_of(order_key_of(m) + s));
    assert(order_key_of(n) + (t + txt_suffix()) =~= file_name_of(order_key_of(n) + t));
}

} // verus!
