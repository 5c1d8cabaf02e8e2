use vstd::prelude::*;

verus! {

/// Placeholder shown for a field whose value could not be obtained.
pub const UNAVAILABLE: &'static str = "Not available";

/// `s` with every trailing NUL character removed.
pub open spec fn strip_nulls(s: Seq<char>) -> Seq<char>
    decreases s.len(),
{
    if s.len() > 0 && s.last() == '\0' {
        strip_nulls(s.drop_last())
    } else {
        s
    }
}

/// The text shown for an optional value: the value itself when it is non-empty.
pub open spec fn shown(v: Option<Seq<char>>) -> Seq<char> {
    match v {
        Some(s) if s.len() > 0 => s,
        _ => UNAVAILABLE@,
    }
}

/// The character of decimal digit `d`.
pub open spec fn digit_char(d: nat) -> char {
    if d == 0 { '0' }
    else if d == 1 { '1' }
    else if d == 2 { '2' }
    else if d == 3 { '3' }
    else if d == 4 { '4' }
    else if d == 5 { '5' }
    else if d == 6 { '6' }
    else if d == 7 { '7' }
    else if d == 8 { '8' }
    else { '9' }
}

/// Decimal notation of `n`, without leading zeros.
pub open spec fn decimal(n: nat) -> Seq<char>
    decreases n,
{
    if n < 10 {
        seq![digit_char(n)]
    } else {
        decimal(n / 10).push(digit_char(n % 10))
    }
}

proof fn lemma_strip_nulls_shape(s: Seq<char>)
    ensures
        strip_nulls(s).len() <= s.len(),
        strip_nulls(s) == s.subrange(0, strip_nulls(s).len() as int),
        strip_nulls(s).len() == 0 || strip_nulls(s).last() != '\0',
    decreases s.len(),
{
    if s.len() > 0 && s.last() == '\0' {
        lemma_strip_nulls_shape(s.drop_last());
        assert(s.drop_last() =~= s.subrange(0, s.len() - 1));
        assert(strip_nulls(s) =~= s.subrange(0, strip_nulls(s).len() as int));
    } else {
        assert(s =~= s.subrange(0, s.len() as int));
    }
}

/// Stripping trailing NUL padding is idempotent: a second strip changes nothing.
pub proof fn lemma_strip_nulls_idempotent(s: Seq<char>)
    ensures
        strip_nulls(strip_nulls(s)) == strip_nulls(s),
{
    lemma_strip_nulls_shape(s);
}

/// Removes the trailing NUL characters that pad a fixed-width field.
pub fn strip_null_padding(s: &str) -> (r: String)
    ensures
        r@ == strip_nulls(s@),
{
    let mut n: usize = s.unicode_len();
    assert(s@.subrange(0, n as int) =~= s@);
    while n > 0 && s.get_char(n - 1) == '\0'
        invariant
            n <= s@.len(),
            strip_nulls(s@.subrange(0, n as int)) == strip_nulls(s@),
        decreases n,
    {
        assert(s@.subrange(0, n as int).drop_last() =~= s@.subrange(0, n - 1));
        n = n - 1;
    }
    proof {
        let t = s@.subrange(0, n as int);
        assert(n == 0 || t.last() != '\0');
    }
    String::from_str(s.substring_char(0, n))
}

/// Returns the value when it is present and non-empty, and the placeholder otherwise.
pub fn string_or_not_available(info_str: Option<String>) -> (r: String)
    ensures
        r@ == shown(match info_str {
            Some(s) => Some(s@),
            None => None,
        }),
{
    if let Some(s) = info_str {
        if s.unicode_len() > 0 {
            return s;
        }
    }
    String::from_str(UNAVAILABLE)
}

fn digit_str(d: u64) -> (r: &'static str)
    requires
        d < 10,
    ensures
        r@ == seq![digit_char(d as nat)],
{
    proof {
        reveal_strlit("0");
        reveal_strlit("1");
        reveal_strlit("2");
        reveal_strlit("3");
        reveal_strlit("4");
        reveal_strlit("5");
        reveal_strlit("6");
        reveal_strlit("7");
        reveal_strlit("8");
        reveal_strlit("9");
    }
    if d == 0 { "0" }
    else if d == 1 { "1" }
    else if d == 2 { "2" }
    else if d == 3 { "3" }
    else if d == 4 { "4" }
    else if d == 5 { "5" }
    else if d == 6 { "6" }
    else if d == 7 { "7" }
    else if d == 8 { "8" }
    else { "9" }
}

/// Writes `n` in decimal notation.
pub fn decimal_string(n: u64) -> (r: String)
    ensures
        r@ == decimal(n as nat),
    decreases n,
{
    if n < 10 {
        let r = String::from_str(digit_str(n));
        assert(r@ =~= decimal(n as nat));
        r
    } else {
        let mut r = decimal_string(n / 10);
        r.append(digit_str(n % 10));
        r
    }
}

} // verus!
