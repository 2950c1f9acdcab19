//! Text: comparison, concatenation, and numbers in decimal.
use vstd::prelude::*;
use vstd::string::*;
use vstd::std_specs::iter::IteratorSpec;

verus! {

/// Whether two texts hold the same characters.
pub fn same_text(a: &str, b: &str) -> (same: bool)
    ensures
        same == (a@ == b@),
{
    let mut xs = a.chars();
    let mut ys = b.chars();
    let ghost mut k: int = 0;
    loop
        invariant
            0 <= k <= a@.len(),
            k <= b@.len(),
            a@.subrange(0, k) == b@.subrange(0, k),
            xs.remaining() == a@.subrange(k, a@.len() as int),
            ys.remaining() == b@.subrange(k, b@.len() as int),
            xs.obeys_prophetic_iter_laws(),
            ys.obeys_prophetic_iter_laws(),
        decreases a@.len() - k,
    {
        let x = xs.next();
        let y = ys.next();
        match x {
            None => {
                proof {
                    assert(k == a@.len());
                    assert(a@.subrange(0, k) == a@);
                    if y is None {
                        assert(b@.subrange(0, k) == b@);
                    }
                }
                return y.is_none();
            },
            Some(c) => match y {
                None => {
                    assert(b@.len() == k < a@.len());
                    return false;
                },
                Some(d) => {
                    assert(c == a@[k] && d == b@[k]);
                    if c != d {
                        return false;
                    }
                    proof {
                        assert(a@.subrange(0, k + 1) == a@.subrange(0, k).push(a@[k]));
                        assert(b@.subrange(0, k + 1) == b@.subrange(0, k).push(b@[k]));
                        assert(a@.subrange(k, a@.len() as int).drop_first()
                            == a@.subrange(k + 1, a@.len() as int));
                        assert(b@.subrange(k, b@.len() as int).drop_first()
                            == b@.subrange(k + 1, b@.len() as int));
                        k = k + 1;
                    }
                },
            },
        }
    }
}

/// `c` with an upper-case ASCII letter made lower-case.
pub open spec fn ascii_lower(c: char) -> char {
    if 'A' <= c && c <= 'Z' {
        ((c as u8 + 32) as u8) as char
    } else {
        c
    }
}

/// `s` with its upper-case ASCII letters made lower-case.
pub open spec fn lowered(s: Seq<char>) -> Seq<char> {
    s.map_values(|c: char| ascii_lower(c))
}

fn lower_char(c: char) -> (r: char)
    ensures
        r == ascii_lower(c),
{
    if 'A' <= c && c <= 'Z' {
        let u: u8 = c as u8;
        (u + 32) as char
    } else {
        c
    }
}

/// Whether two texts hold the same characters, but for the case of ASCII letters.
pub fn same_ignoring_case(a: &str, b: &str) -> (same: bool)
    ensures
        same == (lowered(a@) == lowered(b@)),
{
    let mut xs = a.chars();
    let mut ys = b.chars();
    let ghost mut k: int = 0;
    loop
        invariant
            0 <= k <= a@.len(),
            k <= b@.len(),
            forall|i: int| 0 <= i < k ==> ascii_lower(a@[i]) == ascii_lower(b@[i]),
            xs.remaining() == a@.subrange(k, a@.len() as int),
            ys.remaining() == b@.subrange(k, b@.len() as int),
            xs.obeys_prophetic_iter_laws(),
            ys.obeys_prophetic_iter_laws(),
        decreases a@.len() - k,
    {
        let x = xs.next();
        let y = ys.next();
        match x {
            None => {
                assert(k == a@.len());
                if y.is_none() {
                    assert(lowered(a@) =~= lowered(b@));
                } else {
                    assert(lowered(a@).len() != lowered(b@).len());
                }
                return y.is_none();
            },
            Some(c) => match y {
                None => {
                    assert(lowered(b@).len() == k < lowered(a@).len());
                    return false;
                },
                Some(d) => {
                    assert(c == a@[k] && d == b@[k]);
                    if lower_char(c) != lower_char(d) {
                        assert(lowered(a@)[k] != lowered(b@)[k]);
                        return false;
                    }
                    proof {
                        assert(a@.subrange(k, a@.len() as int).drop_first()
                            == a@.subrange(k + 1, a@.len() as int));
                        assert(b@.subrange(k, b@.len() as int).drop_first()
                            == b@.subrange(k + 1, b@.len() as int));
                        k = k + 1;
                    }
                },
            },
        }
    }
}

/// The text `a` followed by the text `b`.
pub fn join2(a: &str, b: &str) -> (r: String)
    ensures
        r@ == a@ + b@,
{
    let mut s = a.to_owned();
    s.append(b);
    s
}

/// The texts `a`, `b` and `c` in a row.
pub fn join3(a: &str, b: &str, c: &str) -> (r: String)
    ensures
        r@ == a@ + b@ + c@,
{
    let mut s = a.to_owned();
    s.append(b);
    s.append(c);
    s
}

/// The decimal digit with value `d`.
pub open spec fn digit(d: nat) -> char
    recommends
        d < 10,
{
    ((48 + d) as u8) as char
}

/// `n` written in decimal, without leading zeros.
pub open spec fn decimal_of(n: nat) -> Seq<char>
    decreases n,
{
    if n < 10 {
        seq![digit(n)]
    } else {
        decimal_of(n / 10).push(digit(n % 10))
    }
}

fn digit_text(d: u64) -> (r: &'static str)
    requires
        d < 10,
    ensures
        r@ == seq![digit(d as nat)],
{
    proof {
        reveal_strlit("0");
        reveal_strlit("1");
        reveal_strlit("2");
        reveal_strlit("3");
        reveal_strlit("4");
        reveal_strlit("5");
        reveal_strlit("6");
        reveal_strlit("7");
        reveal_strlit("8");
        reveal_strlit("9");
    }
    let r = match d {
        0 => "0",
        1 => "1",
        2 => "2",
        3 => "3",
        4 => "4",
        5 => "5",
        6 => "6",
        7 => "7",
        8 => "8",
        _ => "9",
    };
    assert(r@ =~= seq![digit(d as nat)]);
    r
}

/// `n` in decimal.
pub fn decimal(n: u64) -> (r: String)
    ensures
        r@ == decimal_of(n as nat),
    decreases n,
{
    if n < 10 {
        digit_text(n).to_owned()
    } else {
        let mut s = decimal(n / 10);
        s.append(digit_text(n % 10));
        assert(s@ =~= decimal_of(n as nat));
        s
    }
}

/// A number in decimal has a first digit.
pub proof fn lemma_decimal_is_text(n: nat)
    ensures
        decimal_of(n).len() >= 1,
    decreases n,
{
    if n >= 10 {
        lemma_decimal_is_text(n / 10);
    }
}

/// The number that decimal digits stand for: each counts ten times what the next does.
pub open spec fn digits_value(digits: Seq<char>) -> int
    decreases digits.len(),
{
    if digits.len() == 0 {
        0
    } else {
        10 * digits_value(digits.drop_last()) + (digits.last() as int - '0' as int)
    }
}

/// A number in decimal is made of digits, stands for the number, and begins with no zero
/// but for zero itself.
pub proof fn law_decimal_stands_for_its_number(n: u64, text: String)
    requires
        call_ensures(decimal, (n,), text),
    ensures
        digits_value(text@) == n,
        forall|i: int| 0 <= i < text@.len() ==> '0' <= #[trigger] text@[i] && text@[i] <= '9',
        text@.len() >= 1,
        n > 0 ==> text@[0] != '0',
{
    lemma_decimal(n as nat);
}

proof fn lemma_decimal(n: nat)
    ensures
        digits_value(decimal_of(n)) == n,
        forall|i: int|
            0 <= i < decimal_of(n).len() ==> '0' <= #[trigger] decimal_of(n)[i]
                && decimal_of(n)[i] <= '9',
        decimal_of(n).len() >= 1,
        n > 0 ==> decimal_of(n)[0] != '0',
    decreases n,
{
    let text = decimal_of(n);
    if n >= 10 {
        lemma_decimal(n / 10);
        assert(text.drop_last() =~= decimal_of(n / 10));
        assert(text[0] == decimal_of(n / 10)[0]);
        assert(text.last() == digit(n % 10));
        assert forall|i: int| 0 <= i < text.len() implies '0' <= #[trigger] text[i] && text[i]
            <= '9' by {
            if i < text.len() - 1 {
                assert(text[i] == decimal_of(n / 10)[i]);
            }
        }
    } else {
        assert(text.drop_last() =~= Seq::<char>::empty());
        assert(digits_value(text.drop_last()) == 0);
    }
}

/// Whether two characters are the same, or the two cases of one ASCII letter.
pub open spec fn same_letter(a: char, b: char) -> bool {
    ||| a == b
    ||| 'A' <= a && a <= 'Z' && b as int == a as int + 32
    ||| 'A' <= b && b <= 'Z' && a as int == b as int + 32
}

/// Two texts are the same but for case exactly where they are equally long and each
/// character is the same as, or the other case of, the one in its place.
pub proof fn law_case_is_ignored(a: &str, b: &str, same: bool)
    requires
        call_ensures(same_ignoring_case, (a, b), same),
    ensures
        same <==> a@.len() == b@.len() && forall|i: int|
            0 <= i < a@.len() ==> same_letter(#[trigger] a@[i], b@[i]),
{
    lemma_lowered(a@, b@);
}

/// Two texts are lower-cased to one exactly where they differ in case alone.
pub proof fn lemma_lowered(a: Seq<char>, b: Seq<char>)
    ensures
        lowered(a) == lowered(b) <==> a.len() == b.len() && forall|i: int|
            0 <= i < a.len() ==> same_letter(#[trigger] a[i], b[i]),
{
    if lowered(a) == lowered(b) {
        assert(lowered(a).len() == lowered(b).len());
        assert forall|i: int| 0 <= i < a.len() implies same_letter(#[trigger] a[i], b[i]) by {
            assert(lowered(a)[i] == lowered(b)[i]);
        }
    }
    if a.len() == b.len() && forall|i: int|
        0 <= i < a.len() ==> same_letter(#[trigger] a[i], b[i]) {
        assert forall|i: int| 0 <= i < a.len() implies lowered(a)[i] == lowered(b)[i] by {
            assert(same_letter(a[i], b[i]));
        }
        assert(lowered(a) =~= lowered(b));
    }
}

} // verus!
