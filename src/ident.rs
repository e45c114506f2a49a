use vstd::prelude::*;

verus! {

/// Whether `c` is a white-space character: the Unicode `White_Space` set, as
/// `char::is_whitespace` defines it.
pub open spec fn is_space(c: char) -> bool {
    let u = c as u32;
    (9 <= u && u <= 13) || u == 32 || u == 0x85 || u == 0xa0 || u == 0x1680 || (0x2000 <= u
        && u <= 0x200a) || u == 0x2028 || u == 0x2029 || u == 0x202f || u == 0x205f || u
        == 0x3000
}

/// A text is blank when it is empty or holds only white space.
pub open spec fn blank(s: Seq<char>) -> bool {
    forall|i: int| 0 <= i < s.len() ==> is_space(#[trigger] s[i])
}

/// The character of the decimal digit `d`.
pub open spec fn digit_char(d: nat) -> char {
    if d == 0 {
        '0'
    } else if d == 1 {
        '1'
    } else if d == 2 {
        '2'
    } else if d == 3 {
        '3'
    } else if d == 4 {
        '4'
    } else if d == 5 {
        '5'
    } else if d == 6 {
        '6'
    } else if d == 7 {
        '7'
    } else if d == 8 {
        '8'
    } else {
        '9'
    }
}

/// The decimal digits of `n`, most significant first, without leading zeros.
pub open spec fn digits(n: nat) -> Seq<char>
    decreases n,
{
    if n < 10 {
        seq![digit_char(n)]
    } else {
        digits(n / 10).push(digit_char(n % 10))
    }
}

/// The decimal text of an integer, with a leading `-` when it is negative.
pub open spec fn decimal(n: int) -> Seq<char> {
    if n < 0 {
        seq!['-'] + digits((-n) as nat)
    } else {
        digits(n as nat)
    }
}

/// The text that every generated identifier starts with.
pub open spec fn id_prefix() -> Seq<char> {
    seq!['r', 'e', 'm', 'o', 't', 'e', '-']
}

/// The identifier generated for a record saved at `millis` milliseconds
/// since the Unix epoch.
pub open spec fn generated_id(millis: int) -> Seq<char> {
    id_prefix() + decimal(millis)
}

/// The decimal text of a natural number has at least one digit, and at least
/// two from ten on.
pub proof fn lemma_digits_len(n: nat)
    ensures
        digits(n).len() >= 1,
        n >= 10 ==> digits(n).len() >= 2,
    decreases n,
{
    if n >= 10 {
        lemma_digits_len(n / 10);
    }
}

/// Different natural numbers have different decimal texts.
pub proof fn lemma_digits_injective(a: nat, b: nat)
    requires
        digits(a) == digits(b),
    ensures
        a == b,
    decreases a,
{
    lemma_digits_len(a);
    lemma_digits_len(b);
    if a >= 10 && b >= 10 {
        assert(digits(a / 10) =~= digits(a).drop_last());
        assert(digits(b / 10) =~= digits(b).drop_last());
        assert(digits(a).last() == digit_char(a % 10));
        assert(digits(b).last() == digit_char(b % 10));
        lemma_digits_injective(a / 10, b / 10);
    } else if a < 10 && b < 10 {
        assert(digits(a)[0] == digit_char(a));
        assert(digits(b)[0] == digit_char(b));
    }
}

/// A decimal text never starts with `-` unless its number is negative.
proof fn lemma_digits_first(n: nat)
    ensures
        digits(n)[0] != '-',
    decreases n,
{
    lemma_digits_len(n);
    if n >= 10 {
        lemma_digits_len(n / 10);
        lemma_digits_first(n / 10);
        assert(digits(n)[0] == digits(n / 10)[0]);
    }
}

/// Different integers have different decimal texts.
pub proof fn lemma_decimal_injective(a: int, b: int)
    requires
        decimal(a) == decimal(b),
    ensures
        a == b,
{
    lemma_digits_len((if a < 0 { -a } else { a }) as nat);
    lemma_digits_first((if a < 0 { -a } else { a }) as nat);
    lemma_digits_first((if b < 0 { -b } else { b }) as nat);
    if a < 0 && b < 0 {
        assert(digits((-a) as nat) =~= decimal(a).subrange(1, decimal(a).len() as int));
        assert(digits((-b) as nat) =~= decimal(b).subrange(1, decimal(b).len() as int));
        lemma_digits_injective((-a) as nat, (-b) as nat);
    } else if a >= 0 && b >= 0 {
        lemma_digits_injective(a as nat, b as nat);
    } else if a < 0 {
        assert(decimal(a)[0] == '-');
    } else {
        assert(decimal(b)[0] == '-');
    }
}

/// Identifiers generated at different times differ.
pub proof fn lemma_generated_id_injective(a: int, b: int)
    requires
        generated_id(a) == generated_id(b),
    ensures
        a == b,
{
    assert(decimal(a) =~= generated_id(a).subrange(7, generated_id(a).len() as int));
    assert(decimal(b) =~= generated_id(b).subrange(7, generated_id(b).len() as int));
    lemma_decimal_injective(a, b);
}

/// A generated identifier is never blank: it starts with a letter.
pub proof fn lemma_generated_id_not_blank(millis: int)
    ensures
        !blank(generated_id(millis)),
        generated_id(millis).len() > 0,
{
    assert(generated_id(millis)[0] == 'r');
    assert(!is_space('r'));
}

/// Whether `c` is white space.
pub fn is_space_char(c: char) -> (r: bool)
    ensures
        r == is_space(c),
{
    let u = c as u32;
    (9 <= u && u <= 13) || u == 32 || u == 0x85 || u == 0xa0 || u == 0x1680 || (0x2000 <= u
        && u <= 0x200a) || u == 0x2028 || u == 0x2029 || u == 0x202f || u == 0x205f || u
        == 0x3000
}

/// Whether `s` is empty or holds only white space.
pub fn is_blank(s: &str) -> (r: bool)
    ensures
        r == blank(s@),
{
    let n = s.unicode_len();
    let mut i: usize = 0;
    while i < n
        invariant
            n == s@.len(),
            i <= n,
            forall|j: int| 0 <= j < i ==> is_space(#[trigger] s@[j]),
        decreases n - i,
    {
        if !is_space_char(s.get_char(i)) {
            return false;
        }
        i = i + 1;
    }
    true
}

fn digit_text(d: u64) -> (r: &'static str)
    requires
        d < 10,
    ensures
        r@ == seq![digit_char(d as nat)],
{
    proof {
        reveal_strlit("0");
        reveal_strlit("1");
        reveal_strlit("2");
        reveal_strlit("3");
        reveal_strlit("4");
        reveal_strlit("5");
        reveal_strlit("6");
        reveal_strlit("7");
        reveal_strlit("8");
        reveal_strlit("9");
    }
    match d {
        0 => "0",
        1 => "1",
        2 => "2",
        3 => "3",
        4 => "4",
        5 => "5",
        6 => "6",
        7 => "7",
        8 => "8",
        _ => "9",
    }
}

fn push_digits(out: &mut String, n: u64)
    ensures
        final(out)@ == old(out)@ + digits(n as nat),
    decreases n,
{
    if n >= 10 {
        push_digits(out, n / 10);
    }
    out.append(digit_text(n % 10));
    proof {
        if n >= 10 {
            assert(digits(n as nat) == digits((n / 10) as nat).push(digit_char((n % 10) as nat)));
        }
    }
    assert(final(out)@ =~= old(out)@ + digits(n as nat));
}

/// The identifier for a record saved at `millis` milliseconds since the Unix
/// epoch: `remote-` followed by the decimal text of `millis`.
pub fn generate_id(millis: i64) -> (r: String)
    ensures
        r@ == generated_id(millis as int),
{
    let mut out = String::new();
    proof {
        reveal_strlit("remote-");
    }
    out.append("remote-");
    if millis < 0 {
        proof {
            reveal_strlit("-");
        }
        out.append("-");
        let magnitude: u64 = (0i128 - millis as i128) as u64;
        push_digits(&mut out, magnitude);
    } else {
        push_digits(&mut out, millis as u64);
    }
    assert(out@ =~= generated_id(millis as int));
    out
}

/// Relies on chrono's `Utc::now` and `DateTime::timestamp_millis`: the
/// current time in milliseconds since the Unix epoch. `Utc::now` measures the
/// system time from the epoch (and panics on a clock set before it), so the
/// value is never negative; nothing more is known of it.
#[verifier::external_body]
pub(crate) fn now_millis() -> (r: i64)
    ensures
        r >= 0,
{
    chrono::Utc::now().timestamp_millis()
}

} // verus!
