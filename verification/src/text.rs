//! Text helpers: stripping spaces and writing integers in decimal.

use vstd::prelude::*;

verus! {

/// `String::push` appends one character to the end of the string and leaves
/// the rest as it was.
pub assume_specification[ String::push ](s: &mut String, c: char)
    ensures
        final(s)@ == old(s)@.push(c),
;

/// The characters of `text` that are not spaces, in their order.
pub open spec fn without_spaces(text: Seq<char>) -> Seq<char> {
    text.filter(|c: char| c != ' ')
}

/// One more character either joins the kept ones or is dropped.
proof fn lemma_without_spaces_step(text: Seq<char>, i: int)
    requires
        0 <= i < text.len(),
    ensures
        without_spaces(text.take(i + 1)) == if text[i] != ' ' {
            without_spaces(text.take(i)).push(text[i])
        } else {
            without_spaces(text.take(i))
        },
{
    reveal(Seq::filter);
    assert(text.take(i + 1).drop_last() =~= text.take(i));
}

/// Nothing that `without_spaces` keeps is a space, and a text without spaces
/// is kept whole.
pub proof fn lemma_without_spaces(text: Seq<char>)
    ensures
        !without_spaces(text).contains(' '),
        !text.contains(' ') ==> without_spaces(text) == text,
    decreases text.len(),
{
    reveal(Seq::filter);
    if text.len() > 0 {
        let head = text.drop_last();
        lemma_without_spaces(head);
        let kept = without_spaces(head);
        if text.last() != ' ' {
            assert forall|i: int| 0 <= i < kept.push(text.last()).len() implies kept.push(
                text.last(),
            )[i] != ' ' by {
                if i < kept.len() {
                    assert(kept.contains(kept[i]));
                }
            }
        }
        if !text.contains(' ') {
            assert forall|i: int| 0 <= i < head.len() implies head[i] != ' ' by {
                assert(text[i] == head[i]);
                assert(text.contains(text[i]));
            }
            assert(text.contains(text.last()));
            assert(head.push(text.last()) =~= text);
        }
    }
}

/// Copies `text` without its spaces.
pub fn strip_spaces(text: &str) -> (r: String)
    ensures
        r@ == without_spaces(text@),
{
    let mut out = String::new();
    let chars = text.chars();
    proof {
        reveal(Seq::filter);
    }
    for c in it: chars
        invariant
            it.seq() == text@,
            out@ == without_spaces(text@.take(it.index())),
    {
        proof {
            lemma_without_spaces_step(text@, it.index());
        }
        if c != ' ' {
            out.push(c);
        }
    }
    assert(text@.take(text@.len() as int) =~= text@);
    out
}

/// The character that stands for the digit `d`.
pub open spec fn digit(d: nat) -> char
    recommends
        d < 10,
{
    (48 + d) as u8 as char
}

/// The decimal digits of `n`, most significant first, without leading zeros.
pub open spec fn digits(n: nat) -> Seq<char>
    decreases n,
{
    if n < 10 {
        seq![digit(n)]
    } else {
        digits(n / 10).push(digit(n % 10))
    }
}

/// `n` in decimal, with a minus sign in front of a negative number.
pub open spec fn decimal(n: int) -> Seq<char> {
    if n < 0 {
        seq!['-'] + digits((-n) as nat)
    } else {
        digits(n as nat)
    }
}

/// Appends the decimal digits of `n` to `out`.
fn push_digits(out: &mut String, n: u64)
    ensures
        final(out)@ == old(out)@ + digits(n as nat),
    decreases n,
{
    if n >= 10 {
        push_digits(out, n / 10);
    }
    let d: u8 = (n % 10) as u8;
    out.push((48u8 + d) as char);
    assert(out@ =~= old(out)@ + digits(n as nat));
}

/// Writes an unsigned integer in decimal.
pub fn decimal_u64(n: u64) -> (r: String)
    ensures
        r@ == decimal(n as int),
{
    let mut out = String::new();
    push_digits(&mut out, n);
    assert(out@ =~= digits(n as nat));
    out
}

/// Writes a signed integer in decimal.
pub fn decimal_i64(n: i64) -> (r: String)
    ensures
        r@ == decimal(n as int),
{
    let mut out = String::new();
    if n < 0 {
        out.push('-');
        let magnitude: u64 = (-(n + 1)) as u64 + 1;
        push_digits(&mut out, magnitude);
        assert(out@ =~= seq!['-'] + digits((-n) as nat));
    } else {
        push_digits(&mut out, n as u64);
        assert(out@ =~= digits(n as nat));
    }
    out
}

} // verus!
