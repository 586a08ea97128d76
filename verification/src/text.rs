//! Rendering of numbers inside messages.

use vstd::prelude::*;

verus! {

/// The character of a decimal digit.
pub open spec fn digit_char(d: nat) -> char {
    if d == 0 {
        '0'
    } else if d == 1 {
        '1'
    } else if d == 2 {
        '2'
    } else if d == 3 {
        '3'
    } else if d == 4 {
        '4'
    } else if d == 5 {
        '5'
    } else if d == 6 {
        '6'
    } else if d == 7 {
        '7'
    } else if d == 8 {
        '8'
    } else {
        '9'
    }
}

/// The decimal notation of `n`, without leading zeros.
pub open spec fn decimal(n: nat) -> Seq<char>
    decreases n,
{
    if n < 10 {
        seq![digit_char(n)]
    } else {
        decimal(n / 10).push(digit_char(n % 10))
    }
}

/// The numbers of a list, separated by a comma and a space.
pub open spec fn list_body(items: Seq<usize>) -> Seq<char>
    decreases items.len(),
{
    if items.len() == 0 {
        Seq::empty()
    } else if items.len() == 1 {
        decimal(items[0] as nat)
    } else {
        list_body(items.drop_last()) + ", "@ + decimal(items.last() as nat)
    }
}

/// The notation `[a, b, c]` of a list of numbers.
pub open spec fn bracketed(items: Seq<usize>) -> Seq<char> {
    "["@ + list_body(items) + "]"@
}

/// One decimal digit as text.
fn digit_text(d: u128) -> (r: &'static str)
    requires
        d < 10,
    ensures
        r@ == seq![digit_char(d as nat)],
{
    proof {
        reveal_strlit("0");
        reveal_strlit("1");
        reveal_strlit("2");
        reveal_strlit("3");
        reveal_strlit("4");
        reveal_strlit("5");
        reveal_strlit("6");
        reveal_strlit("7");
        reveal_strlit("8");
        reveal_strlit("9");
    }
    if d == 0 {
        "0"
    } else if d == 1 {
        "1"
    } else if d == 2 {
        "2"
    } else if d == 3 {
        "3"
    } else if d == 4 {
        "4"
    } else if d == 5 {
        "5"
    } else if d == 6 {
        "6"
    } else if d == 7 {
        "7"
    } else if d == 8 {
        "8"
    } else {
        "9"
    }
}

/// Appends the decimal notation of `n`.
pub fn push_decimal(out: &mut String, n: u128)
    ensures
        final(out)@ == old(out)@ + decimal(n as nat),
    decreases n,
{
    if n >= 10 {
        push_decimal(out, n / 10);
    }
    out.append(digit_text(n % 10));
}

/// Appends the notation `[a, b, c]` of a list of numbers.
pub fn push_bracketed(out: &mut String, items: &[usize])
    ensures
        final(out)@ == old(out)@ + bracketed(items@),
{
    out.append("[");
    let mut i: usize = 0;
    while i < items.len()
        invariant
            i <= items@.len(),
            out@ == old(out)@ + "["@ + list_body(items@.take(i as int)),
        decreases items@.len() - i,
    {
        if i > 0 {
            out.append(", ");
        }
        push_decimal(out, items[i] as u128);
        assert(items@.take(i + 1).drop_last() =~= items@.take(i as int));
        assert(list_body(items@.take(0)) =~= Seq::<char>::empty());
        i = i + 1;
    }
    assert(items@.take(i as int) =~= items@);
    out.append("]");
}

/// The number that a string of decimal digits stands for.
pub open spec fn number(digits: Seq<char>) -> int
    decreases digits.len(),
{
    if digits.len() == 0 {
        0
    } else {
        10 * number(digits.drop_last()) + (digits.last() as int - '0' as int)
    }
}

/// A number is read back from its decimal notation, which has digits only and no leading zero.
pub proof fn law_numbers_are_read_back(n: nat)
    ensures
        number(decimal(n)) == n,
        decimal(n).len() > 0,
        forall|i: int| 0 <= i < decimal(n).len() ==> '0' <= #[trigger] decimal(n)[i] <= '9',
        decimal(n).len() > 1 ==> decimal(n)[0] != '0',
    decreases n,
{
    reveal_with_fuel(number, 2);
    if n >= 10 {
        let front = decimal(n / 10);
        law_numbers_are_read_back(n / 10);
        assert(decimal(n).drop_last() =~= front);
        assert(decimal(n)[0] == front[0]);
        assert forall|i: int| 0 <= i < decimal(n).len() implies '0' <= #[trigger] decimal(n)[i]
            <= '9' by {
            if i < front.len() {
                assert(decimal(n)[i] == front[i]);
            }
        }
    } else {
        assert(decimal(n).drop_last() =~= Seq::empty());
    }
}

/// Lists grow at their end: a number that is added stands before the closing bracket, behind a
/// comma and a space where it is not the first.
pub proof fn law_lists_grow_at_their_end(items: Seq<usize>, item: usize)
    ensures
        bracketed(Seq::empty()) == seq!['[', ']'],
        items.len() == 0 ==> bracketed(items.push(item)) == seq!['['] + decimal(item as nat)
            + seq![']'],
        items.len() > 0 ==> bracketed(items.push(item)) == bracketed(items).drop_last() + seq![
            ',',
            ' ',
        ] + decimal(item as nat) + seq![']'],
{
    reveal_strlit("[");
    reveal_strlit("]");
    reveal_strlit(", ");
    assert("["@ =~= seq!['[']);
    assert("]"@ =~= seq![']']);
    assert(", "@ =~= seq![',', ' ']);
    assert(bracketed(Seq::empty()) =~= seq!['[', ']']);
    let longer = items.push(item);
    assert(longer.drop_last() =~= items);
    if items.len() == 0 {
        assert(list_body(longer) =~= decimal(item as nat));
    } else {
        assert(bracketed(longer) =~= bracketed(items).drop_last() + seq![',', ' '] + decimal(
            item as nat,
        ) + seq![']']);
    }
}

} // verus!
