use vstd::prelude::*;

verus! {

/// Ten to the power `k`.
pub open spec fn pow10(k: nat) -> nat
    decreases k,
{
    if k == 0 {
        1
    } else {
        10 * pow10((k - 1) as nat)
    }
}

/// The default exponent used when none can be read from the configuration.
pub const DEFAULT_EXPONENT: u32 = 4;

/// Largest exponent whose power of ten still fits in a `u64`.
pub const MAX_EXPONENT: u32 = 19;

/// Computes `10^k` for exponents that fit in a `u64`.
pub fn row_count_for_exponent(k: u32) -> (r: u64)
    requires
        k <= MAX_EXPONENT,
    ensures
        r as nat == pow10(k as nat),
{
    let mut r: u64 = 1;
    let mut i: u32 = 0;
    while i < k
        invariant
            i <= k,
            k <= MAX_EXPONENT,
            r as nat == pow10(i as nat),
        decreases k - i,
    {
        proof {
            lemma_pow10_bound(i as nat);
        }
        r = r * 10;
        i = i + 1;
    }
    r
}

proof fn lemma_pow10_bound(k: nat)
    requires
        k < 19,
    ensures
        10 * pow10(k) <= 10_000_000_000_000_000_000,
{
    lemma_pow10_monotone(k, 18);
    reveal_with_fuel(pow10, 19);
    assert(pow10(18) == 1_000_000_000_000_000_000);
}

proof fn lemma_pow10_monotone(a: nat, b: nat)
    requires
        a <= b,
    ensures
        pow10(a) <= pow10(b),
    decreases b,
{
    if a < b {
        lemma_pow10_monotone(a, (b - 1) as nat);
    }
}

/// Why the configured exponent was not used.
#[derive(Clone, Copy, Debug, PartialEq, Eq, Structural)]
pub enum Fallback {
    /// No exponent was configured.
    Missing,
    /// The configured text is not an unsigned 32-bit decimal number.
    Unparsable,
    /// The exponent is valid, but its power of ten does not fit in a `u64`.
    TooLarge,
}

/// The row count chosen for the generated query.
#[derive(Clone, Copy, Debug, PartialEq, Eq, Structural)]
pub struct RowCount {
    /// The exponent actually used.
    pub exponent: u32,
    /// Ten to the power `exponent`.
    pub row_count: u64,
    /// Set when the default exponent replaced the configured one.
    pub fallback: Option<Fallback>,
}

pub open spec fn is_digit(c: char) -> bool {
    '0' <= c && c <= '9'
}

pub open spec fn digit_value(c: char) -> nat {
    (c as nat - '0' as nat) as nat
}

/// The number written by a sequence of decimal digits (most significant first).
pub open spec fn digits_value(s: Seq<char>) -> nat
    decreases s.len(),
{
    if s.len() == 0 {
        0
    } else {
        digits_value(s.drop_last()) * 10 + digit_value(s.last())
    }
}

/// The digits of an unsigned decimal number, after an optional leading `+`.
pub open spec fn unsigned_body(s: Seq<char>) -> Seq<char> {
    if s.len() > 0 && s[0] == '+' {
        s.skip(1)
    } else {
        s
    }
}

/// What parsing `s` as a `u32` gives: an optional `+`, then one or more ASCII
/// digits whose value fits in 32 bits.
pub open spec fn parse_u32_spec(s: Seq<char>) -> Option<u32> {
    let body = unsigned_body(s);
    if body.len() > 0 && (forall|i: int| 0 <= i < body.len() ==> is_digit(#[trigger] body[i]))
        && digits_value(body) <= u32::MAX {
        Some(digits_value(body) as u32)
    } else {
        None
    }
}

/// The row count chosen from the configured text, if any.
pub open spec fn row_count_spec(raw: Option<Seq<char>>) -> RowCount {
    let default = RowCount { exponent: DEFAULT_EXPONENT, row_count: 10000, fallback: None };
    match raw {
        None => RowCount { fallback: Some(Fallback::Missing), ..default },
        Some(s) => match parse_u32_spec(s) {
            None => RowCount { fallback: Some(Fallback::Unparsable), ..default },
            Some(k) => if k <= MAX_EXPONENT {
                RowCount { exponent: k, row_count: pow10(k as nat) as u64, fallback: None }
            } else {
                RowCount { fallback: Some(Fallback::TooLarge), ..default }
            },
        },
    }
}

pub open spec fn opt_view(raw: Option<&str>) -> Option<Seq<char>> {
    match raw {
        Some(s) => Some(s@),
        None => None,
    }
}

const SATURATED: u64 = 4_294_967_296;

proof fn lemma_saturating_step(v: nat, d: nat)
    requires
        d < 10,
    ensures
        ({
            let m = if v < SATURATED { v } else { SATURATED as nat };
            let n = m * 10 + d;
            let lhs = if n < SATURATED { n } else { SATURATED as nat };
            let w = v * 10 + d;
            let rhs = if w < SATURATED { w } else { SATURATED as nat };
            lhs == rhs
        }),
{
    if v >= SATURATED {
        assert(v * 10 + d >= SATURATED as nat) by (nonlinear_arith)
            requires
                v >= SATURATED,
        ;
        assert(SATURATED as nat * 10 + d >= SATURATED as nat) by (nonlinear_arith);
    }
}

/// Parses an exponent as an unsigned 32-bit decimal number.
pub fn parse_exponent(s: &str) -> (r: Option<u32>)
    ensures
        r == parse_u32_spec(s@),
{
    let len = s.unicode_len();
    let mut start: usize = 0;
    if len > 0 && s.get_char(0) == '+' {
        start = 1;
    }
    let ghost body = unsigned_body(s@);
    assert(body =~= s@.subrange(start as int, len as int));
    if start >= len {
        return None;
    }
    let mut acc: u64 = 0;
    let mut i: usize = start;
    while i < len
        invariant
            start <= i <= len,
            len == s@.len(),
            body =~= s@.subrange(start as int, len as int),
            body == unsigned_body(s@),
            forall|j: int| 0 <= j < i - start ==> is_digit(#[trigger] body[j]),
            acc as nat == (if digits_value(body.take(i - start)) < SATURATED {
                digits_value(body.take(i - start))
            } else {
                SATURATED as nat
            }),
        decreases len - i,
    {
        let c = s.get_char(i);
        if !('0' <= c && c <= '9') {
            assert(body[i - start] == c);
            assert(!is_digit(body[i - start]));
            return None;
        }
        let d = (c as u32 - '0' as u32) as u64;
        proof {
            let p = body.take(i - start);
            let q = body.take(i - start + 1);
            assert(q.drop_last() =~= p);
            assert(q.last() == c);
            lemma_saturating_step(digits_value(p), d as nat);
        }
        let n = acc * 10 + d;
        acc = if n < SATURATED { n } else { SATURATED };
        i = i + 1;
    }
    assert(body.take(len - start) =~= body);
    if acc <= 4_294_967_295 {
        Some(acc as u32)
    } else {
        None
    }
}

/// Chooses the row count from the configured exponent text, falling back to
/// `10^4` when it is missing, unparsable, or too large.
pub fn get_row_count(raw: Option<&str>) -> (r: RowCount)
    ensures
        r == row_count_spec(opt_view(raw)),
        r.row_count as nat == pow10(r.exponent as nat),
{
    proof {
        reveal_with_fuel(pow10, 5);
    }
    let default = RowCount { exponent: DEFAULT_EXPONENT, row_count: 10000, fallback: None };
    match raw {
        None => RowCount { fallback: Some(Fallback::Missing), ..default },
        Some(s) => match parse_exponent(s) {
            None => RowCount { fallback: Some(Fallback::Unparsable), ..default },
            Some(k) => if k <= MAX_EXPONENT {
                RowCount { exponent: k, row_count: row_count_for_exponent(k), fallback: None }
            } else {
                RowCount { fallback: Some(Fallback::TooLarge), ..default }
            },
        },
    }
}

pub open spec fn digit_char(d: nat) -> char {
    if d == 0 { '0' }
    else if d == 1 { '1' }
    else if d == 2 { '2' }
    else if d == 3 { '3' }
    else if d == 4 { '4' }
    else if d == 5 { '5' }
    else if d == 6 { '6' }
    else if d == 7 { '7' }
    else if d == 8 { '8' }
    else { '9' }
}

/// The decimal representation of `n`, without sign or leading zeros.
pub open spec fn decimal(n: nat) -> Seq<char>
    decreases n,
{
    if n < 10 {
        seq![digit_char(n)]
    } else {
        decimal(n / 10) + seq![digit_char(n % 10)]
    }
}

/// The query text before the row count.
pub const SQL_HEAD: &'static str = "
        select
            t.n::integer           as c1,
            t.n::float             as c2,
            to_char(t.n, '999999') as c3
        from generate_series(1, ";

/// The query text after the row count.
pub const SQL_TAIL: &'static str = ") as t(n)
        ";

/// The benchmark query over a generated series of `n` rows.
pub open spec fn sql_text(n: nat) -> Seq<char> {
    SQL_HEAD@ + decimal(n) + SQL_TAIL@
}

fn digit_str(d: u64) -> (r: &'static str)
    requires
        d < 10,
    ensures
        r@ == seq![digit_char(d as nat)],
{
    if d == 0 {
        proof { reveal_strlit("0"); }
        "0"
    } else if d == 1 {
        proof { reveal_strlit("1"); }
        "1"
    } else if d == 2 {
        proof { reveal_strlit("2"); }
        "2"
    } else if d == 3 {
        proof { reveal_strlit("3"); }
        "3"
    } else if d == 4 {
        proof { reveal_strlit("4"); }
        "4"
    } else if d == 5 {
        proof { reveal_strlit("5"); }
        "5"
    } else if d == 6 {
        proof { reveal_strlit("6"); }
        "6"
    } else if d == 7 {
        proof { reveal_strlit("7"); }
        "7"
    } else if d == 8 {
        proof { reveal_strlit("8"); }
        "8"
    } else {
        proof { reveal_strlit("9"); }
        "9"
    }
}

/// Appends the decimal representation of `n` to `out`.
pub fn push_decimal(out: &mut String, n: u64)
    ensures
        final(out)@ == old(out)@ + decimal(n as nat),
    decreases n,
{
    if n >= 10 {
        push_decimal(out, n / 10);
    }
    out.append(digit_str(n % 10));
    assert(final(out)@ =~= old(out)@ + decimal(n as nat));
}

/// Builds the benchmark query: three derived columns over
/// `generate_series(1, row_count)`.
pub fn create_sql(row_count: u64) -> (r: String)
    ensures
        r@ == sql_text(row_count as nat),
{
    let mut out = String::from_str(SQL_HEAD);
    push_decimal(&mut out, row_count);
    out.append(SQL_TAIL);
    assert(out@ =~= sql_text(row_count as nat));
    out
}

/// The row count as it is written in the query.
pub open spec fn series_clause(n: nat) -> Seq<char> {
    "generate_series(1, "@ + decimal(n) + ")"@
}

proof fn lemma_digit_char(d: nat)
    requires
        d < 10,
    ensures
        is_digit(digit_char(d)),
        digit_value(digit_char(d)) == d,
{
}

proof fn lemma_decimal_digits(n: nat)
    ensures
        decimal(n).len() > 0,
        forall|i: int| 0 <= i < decimal(n).len() ==> is_digit(#[trigger] decimal(n)[i]),
        digits_value(decimal(n)) == n,
    decreases n,
{
    if n < 10 {
        lemma_digit_char(n);
        assert(decimal(n).drop_last() =~= Seq::<char>::empty());
        assert(digits_value(Seq::<char>::empty()) == 0);
    } else {
        lemma_decimal_digits(n / 10);
        lemma_digit_char(n % 10);
        let d = decimal(n);
        assert(d.drop_last() =~= decimal(n / 10));
        assert(forall|i: int| 0 <= i < d.len() - 1 ==> d[i] == decimal(n / 10)[i]);
        assert(d.last() == digit_char(n % 10));
        assert(digits_value(d) == digits_value(decimal(n / 10)) * 10 + digit_value(d.last()));
    }
}

/// The query holds the series clause with the row count written in decimal:
/// the digits between `generate_series(1, ` and `)` read back as `n`.
pub proof fn lemma_sql_series_clause(n: nat)
    ensures
        exists|pre: Seq<char>, post: Seq<char>| sql_text(n) == pre + series_clause(n) + post,
        forall|i: int| 0 <= i < decimal(n).len() ==> is_digit(#[trigger] decimal(n)[i]),
        digits_value(decimal(n)) == n,
{
    lemma_decimal_digits(n);
    reveal_strlit("
        select
            t.n::integer           as c1,
            t.n::float             as c2,
            to_char(t.n, '999999') as c3
        from generate_series(1, ");
    reveal_strlit("generate_series(1, ");
    reveal_strlit(") as t(n)
        ");
    reveal_strlit(")");
    reveal_strlit(" as t(n)
        ");
    let head = SQL_HEAD@;
    let pre = head.subrange(0, head.len() - 19);
    let post = " as t(n)
        "@;
    assert(head =~= pre + "generate_series(1, "@);
    assert(SQL_TAIL@ =~= ")"@ + post);
    assert(sql_text(n) =~= pre + series_clause(n) + post);
}

/// An exponent `k` written in decimal selects exactly `10^k` rows, and no
/// fallback, whenever `10^k` fits in a `u64`; exponent zero selects one row.
pub proof fn lemma_configured_exponent(k: u32)
    requires
        k <= MAX_EXPONENT,
    ensures
        row_count_spec(Some(decimal(k as nat))) == (RowCount {
            exponent: k,
            row_count: pow10(k as nat) as u64,
            fallback: None,
        }),
        pow10(k as nat) <= u64::MAX,
        pow10(0) == 1,
{
    lemma_decimal_digits(k as nat);
    let d = decimal(k as nat);
    assert(is_digit(d[0]));
    assert(unsigned_body(d) == d);
    lemma_pow10_monotone(k as nat, 19);
    reveal_with_fuel(pow10, 20);
    assert(pow10(19) == 10_000_000_000_000_000_000);
}

/// A missing or unparsable exponent selects the default `10^4 = 10000` rows
/// and reports why.
pub proof fn lemma_default_row_count(raw: Option<Seq<char>>)
    requires
        raw is None || parse_u32_spec(raw.unwrap()) is None,
    ensures
        row_count_spec(raw).row_count == 10000,
        pow10(DEFAULT_EXPONENT as nat) == 10000,
        row_count_spec(raw).exponent == DEFAULT_EXPONENT,
        row_count_spec(raw).fallback == (if raw is None {
            Some(Fallback::Missing)
        } else {
            Some(Fallback::Unparsable)
        }),
{
    reveal_with_fuel(pow10, 5);
}

} // verus!
