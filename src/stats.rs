//! Parsing of the container runtime's resource figures: human-readable sizes
//! with unit suffixes, CPU percentages, and the comma-separated stats lines.

use vstd::prelude::*;
use vstd::arithmetic::div_mod::{
    lemma_div_multiples_vanish_fancy, lemma_fundamental_div_mod, lemma_div_denominator,
};
use crate::models::{ServiceConfig, ServiceMetrics};
use crate::text::{trim, trim_bounds, slice_chars, chars_of, string_of, lower_char, ascii_lower};

verus! {

pub open spec fn is_digit(c: char) -> bool {
    '0' <= c && c <= '9'
}

pub open spec fn digit_val(c: char) -> nat {
    (c as int - '0' as int) as nat
}

/// Value of a string of decimal digits (0 for the empty string).
pub open spec fn digits_val(s: Seq<char>) -> nat
    decreases s.len(),
{
    if s.len() == 0 {
        0
    } else {
        digits_val(s.drop_last()) * 10 + digit_val(s.last())
    }
}

pub open spec fn all_digits(s: Seq<char>) -> bool {
    forall|i: int| 0 <= i < s.len() ==> is_digit(#[trigger] s[i])
}

pub open spec fn pow10(n: nat) -> nat
    decreases n,
{
    if n == 0 {
        1
    } else {
        10 * pow10((n - 1) as nat)
    }
}

pub open spec fn is_ascii_alpha(c: char) -> bool {
    ('a' <= c && c <= 'z') || ('A' <= c && c <= 'Z')
}

pub open spec fn is_sep(c: char) -> bool {
    c == '.' || c == ','
}

/// Index of the first element satisfying `p`, or the length when none does.
pub open spec fn first_index(s: Seq<char>, p: spec_fn(char) -> bool) -> nat
    decreases s.len(),
{
    if s.len() == 0 {
        0
    } else if p(s[0]) {
        0
    } else {
        1 + first_index(s.drop_first(), p)
    }
}

/// A decimal number: an optional sign, integer digits, optionally a decimal
/// separator (`.` or `,`) and fraction digits, with at least one digit.
/// Gives the sign, the integer digits and the fraction digits.
pub open spec fn parse_number(n: Seq<char>) -> Option<(bool, Seq<char>, Seq<char>)> {
    let signed = n.len() > 0 && (n[0] == '+' || n[0] == '-');
    let negative = n.len() > 0 && n[0] == '-';
    let body = if signed {
        n.drop_first()
    } else {
        n
    };
    let p = first_index(body, |c: char| is_sep(c));
    let int_part = body.subrange(0, p as int);
    let frac = if p < body.len() {
        body.subrange(p as int + 1, body.len() as int)
    } else {
        Seq::<char>::empty()
    };
    if all_digits(int_part) && all_digits(frac) && int_part.len() + frac.len() > 0 {
        Some((negative, int_part, frac))
    } else {
        None
    }
}

pub open spec fn starts_ci3(u: Seq<char>, a: char, b: char, c: char) -> bool {
    u.len() >= 3 && ascii_lower(u[0]) == a && ascii_lower(u[1]) == b && ascii_lower(u[2]) == c
}

/// Bytes per unit: binary for `KiB`, `MiB`, `GiB`; decimal for `k`, `m`, `g`
/// and anything starting with them (`kB`, `MB`, `GB`); 1 otherwise. Case is ignored.
pub open spec fn unit_multiplier(u: Seq<char>) -> nat {
    if starts_ci3(u, 'g', 'i', 'b') {
        1073741824
    } else if starts_ci3(u, 'm', 'i', 'b') {
        1048576
    } else if starts_ci3(u, 'k', 'i', 'b') {
        1024
    } else if u.len() > 0 && ascii_lower(u[0]) == 'g' {
        1000000000
    } else if u.len() > 0 && ascii_lower(u[0]) == 'm' {
        1000000
    } else if u.len() > 0 && ascii_lower(u[0]) == 'k' {
        1000
    } else {
        1
    }
}

pub open spec fn saturate(x: nat) -> u64 {
    if x > u64::MAX {
        u64::MAX
    } else {
        x as u64
    }
}

/// Value of a decimal number times `m`, rounded down and saturated at
/// `u64::MAX`; 0 for a negative number; `None` when `n` is not a number.
pub open spec fn scaled_value(n: Seq<char>, m: nat) -> Option<u64> {
    match parse_number(n) {
        None => None,
        Some((negative, int_part, frac)) => Some(
            if negative {
                0
            } else {
                saturate(digits_val(int_part) * m + digits_val(frac) * m / pow10(frac.len()))
            },
        ),
    }
}

/// Size in bytes of a string such as `123kB` or `12.3MiB`: the number runs up
/// to the first ASCII letter, the unit is the rest. Empty or unparsable input
/// gives `None`.
pub open spec fn size_bytes(s: Seq<char>) -> Option<u64> {
    let t = trim(s);
    let k = first_index(t, |c: char| is_ascii_alpha(c));
    if t.len() == 0 {
        None
    } else {
        scaled_value(
            trim(t.subrange(0, k as int)),
            unit_multiplier(t.subrange(k as int, t.len() as int)),
        )
    }
}

proof fn lemma_first_index(s: Seq<char>, p: spec_fn(char) -> bool, i: int)
    requires
        0 <= i <= s.len(),
        forall|k: int| 0 <= k < i ==> !p(#[trigger] s[k]),
        i == s.len() || p(s[i]),
    ensures
        first_index(s, p) == i,
    decreases i,
{
    if i > 0 {
        lemma_first_index(s.drop_first(), p, i - 1);
    }
}

proof fn lemma_digits_prepend(c: char, s: Seq<char>)
    ensures
        digits_val(seq![c] + s) == digit_val(c) * pow10(s.len()) + digits_val(s),
    decreases s.len(),
{
    if s.len() == 0 {
        assert(seq![c] + s =~= seq![c]);
        assert(seq![c].drop_last() =~= Seq::<char>::empty());
        assert(pow10(0) == 1);
        let one = seq![c];
        assert(digits_val(one) == digits_val(one.drop_last()) * 10 + digit_val(one.last()));
        assert(digits_val(one.drop_last()) == 0);
        assert(one.last() == c);
        assert(digits_val(one) == digit_val(c));
        assert(digit_val(c) * pow10(s.len()) == digit_val(c));
        assert(digits_val(s) == 0);
    } else {
        let sc = seq![c] + s;
        assert(sc.drop_last() =~= seq![c] + s.drop_last());
        assert(sc.last() == s.last());
        lemma_digits_prepend(c, s.drop_last());
        let a = digit_val(c) * pow10((s.len() - 1) as nat);
        let b = digits_val(s.drop_last());
        assert(pow10(s.len()) == 10 * pow10((s.len() - 1) as nat));
        assert(digit_val(c) * pow10(s.len()) == a * 10) by (nonlinear_arith)
            requires
                pow10(s.len()) == 10 * pow10((s.len() - 1) as nat),
                a == digit_val(c) * pow10((s.len() - 1) as nat),
        ;
        assert((a + b) * 10 == a * 10 + b * 10) by (nonlinear_arith);
        assert(digits_val(sc) == digits_val(sc.drop_last()) * 10 + digit_val(sc.last()));
        assert(digits_val(s) == b * 10 + digit_val(s.last()));
        assert(digits_val(sc.drop_last()) == a + b);
    }
}

proof fn lemma_pow10_positive(n: nat)
    ensures
        pow10(n) >= 1,
    decreases n,
{
    if n > 0 {
        lemma_pow10_positive((n - 1) as nat);
    }
}

/// `(d * x + b) / d == x + b / d` for nonnegative `b`.
proof fn lemma_div_shift(x: int, b: int, d: int)
    requires
        0 < d,
        0 <= b,
    ensures
        (d * x + b) / d == x + b / d,
{
    lemma_fundamental_div_mod(b, d);
    let q = b / d;
    let r = b % d;
    assert(d * x + b == d * (x + q) + r) by (nonlinear_arith)
        requires
            b == d * q + r,
    ;
    lemma_div_multiples_vanish_fancy(x + q, r, d);
}

/// One step of the fraction scaling, from the last digit toward the first.
proof fn lemma_frac_step(f: nat, s: nat, m: nat, l: nat)
    requires
        f < 10,
        pow10((l + 1) as nat) == 10 * pow10(l),
        pow10(l) >= 1,
    ensures
        (f * pow10(l) + s) * m / pow10((l + 1) as nat) == (f * m + s * m / pow10(l)) / 10,
{
    let p = pow10(l) as int;
    assert((f * pow10(l) + s) * m == p * (f * m) + s * m) by (nonlinear_arith)
        requires
            p == pow10(l) as int,
    ;
    lemma_div_shift((f * m) as int, (s * m) as int, p);
    assert(p * 10 > 0) by (nonlinear_arith)
        requires
            p >= 1,
    ;
    assert((f * pow10(l) + s) * m >= 0) by (nonlinear_arith);
    lemma_div_denominator(((f * pow10(l) + s) * m) as int, p, 10);
    assert(p * 10 == pow10((l + 1) as nat));
}

pub fn is_digit_char(c: char) -> (r: bool)
    ensures
        r == is_digit(c),
{
    '0' <= c && c <= '9'
}

fn first_alpha(v: &Vec<char>) -> (r: usize)
    ensures
        r == first_index(v@, |c: char| is_ascii_alpha(c)),
        r <= v@.len(),
{
    let mut i: usize = 0;
    while i < v.len() && !(('a' <= v[i] && v[i] <= 'z') || ('A' <= v[i] && v[i] <= 'Z'))
        invariant
            i <= v@.len(),
            forall|k: int| 0 <= k < i ==> !is_ascii_alpha(#[trigger] v@[k]),
        decreases v@.len() - i,
    {
        i = i + 1;
    }
    proof {
        lemma_first_index(v@, |c: char| is_ascii_alpha(c), i as int);
    }
    i
}

fn first_sep(v: &Vec<char>) -> (r: usize)
    ensures
        r == first_index(v@, |c: char| is_sep(c)),
        r <= v@.len(),
{
    let mut i: usize = 0;
    while i < v.len() && !(v[i] == '.' || v[i] == ',')
        invariant
            i <= v@.len(),
            forall|k: int| 0 <= k < i ==> !is_sep(#[trigger] v@[k]),
        decreases v@.len() - i,
    {
        i = i + 1;
    }
    proof {
        lemma_first_index(v@, |c: char| is_sep(c), i as int);
    }
    i
}

fn check_digits(v: &Vec<char>) -> (r: bool)
    ensures
        r == all_digits(v@),
{
    let mut i: usize = 0;
    while i < v.len()
        invariant
            i <= v@.len(),
            forall|k: int| 0 <= k < i ==> is_digit(#[trigger] v@[k]),
        decreases v@.len() - i,
    {
        if !is_digit_char(v[i]) {
            return false;
        }
        i = i + 1;
    }
    true
}

/// Value of a digit string, or `None` when it exceeds `u64::MAX`.
fn digits_value(v: &Vec<char>) -> (r: Option<u64>)
    requires
        all_digits(v@),
    ensures
        r matches Some(x) ==> x == digits_val(v@),
        r is None ==> digits_val(v@) > u64::MAX,
{
    let mut acc: u64 = 0;
    let mut i: usize = 0;
    while i < v.len()
        invariant
            i <= v@.len(),
            all_digits(v@),
            acc == digits_val(v@.subrange(0, i as int)),
        decreases v@.len() - i,
    {
        assert(v@.subrange(0, i + 1).drop_last() =~= v@.subrange(0, i as int));
        let d: u64 = ((v[i] as u32) - ('0' as u32)) as u64;
        assert(is_digit(v@[i as int]));
        if acc > (u64::MAX - d) / 10 {
            proof {
                lemma_digits_monotone(v@, i + 1);
                assert(v@.subrange(0, v@.len() as int) =~= v@);
            }
            return None;
        }
        acc = acc * 10 + d;
        i = i + 1;
    }
    assert(v@.subrange(0, i as int) =~= v@);
    Some(acc)
}

proof fn lemma_digits_monotone(s: Seq<char>, i: int)
    requires
        0 <= i <= s.len(),
    ensures
        digits_val(s.subrange(0, i)) <= digits_val(s),
    decreases s.len() - i,
{
    if i < s.len() {
        lemma_digits_monotone(s, i + 1);
        let t = s.subrange(0, i + 1);
        assert(t.drop_last() =~= s.subrange(0, i));
        assert(digits_val(t) == digits_val(t.drop_last()) * 10 + digit_val(t.last()));
    } else {
        assert(s.subrange(0, i) =~= s);
    }
}

/// `digits_val(frac) * m / 10^len(frac)`, from the last digit toward the first.
fn scaled_fraction(frac: &Vec<char>, m: u64) -> (r: u64)
    requires
        all_digits(frac@),
        1 <= m <= 1073741824,
    ensures
        r == digits_val(frac@) * (m as nat) / pow10(frac@.len()),
        r < m,
{
    let mut carry: u64 = 0;
    let mut j: usize = frac.len();
    proof {
        assert(frac@.subrange(j as int, j as int) =~= Seq::<char>::empty());
        assert(digits_val(Seq::<char>::empty()) == 0);
        assert(pow10(0) == 1);
        assert(0 * (m as nat) / 1 == 0);
    }
    while j > 0
        invariant
            j <= frac@.len(),
            all_digits(frac@),
            1 <= m <= 1073741824,
            carry < m,
            carry == digits_val(frac@.subrange(j as int, frac@.len() as int)) * (m as nat) / pow10(
                (frac@.len() - j) as nat,
            ),
        decreases j,
    {
        j = j - 1;
        let c = frac[j];
        assert(is_digit(frac@[j as int]));
        let f: u64 = ((c as u32) - ('0' as u32)) as u64;
        let ghost tail = frac@.subrange(j + 1, frac@.len() as int);
        let ghost l = tail.len();
        proof {
            assert(frac@.subrange(j as int, frac@.len() as int) =~= seq![c] + tail);
            lemma_digits_prepend(c, tail);
            lemma_pow10_positive(l);
            assert(pow10((l + 1) as nat) == 10 * pow10(l));
            lemma_frac_step(f as nat, digits_val(tail), m as nat, l);
            assert((frac@.len() - j) as nat == (l + 1) as nat);
        }
        assert(f * m + carry < 10 * m) by (nonlinear_arith)
            requires
                f < 10,
                carry < m,
        ;
        carry = (f * m + carry) / 10;
    }
    assert(frac@.subrange(0, frac@.len() as int) =~= frac@);
    carry
}

fn unit_factor(u: &Vec<char>) -> (r: u64)
    ensures
        r == unit_multiplier(u@),
        1 <= r <= 1073741824,
{
    let n = u.len();
    if n >= 3 && lower_char(u[0]) == 'g' && lower_char(u[1]) == 'i' && lower_char(u[2]) == 'b' {
        1073741824
    } else if n >= 3 && lower_char(u[0]) == 'm' && lower_char(u[1]) == 'i' && lower_char(u[2])
        == 'b' {
        1048576
    } else if n >= 3 && lower_char(u[0]) == 'k' && lower_char(u[1]) == 'i' && lower_char(u[2])
        == 'b' {
        1024
    } else if n > 0 && lower_char(u[0]) == 'g' {
        1000000000
    } else if n > 0 && lower_char(u[0]) == 'm' {
        1000000
    } else if n > 0 && lower_char(u[0]) == 'k' {
        1000
    } else {
        1
    }
}

/// A decimal number scaled by `m`, as `scaled_value` states.
pub fn parse_scaled(n: &Vec<char>, m: u64) -> (r: Option<u64>)
    requires
        1 <= m <= 1073741824,
    ensures
        r == scaled_value(n@, m as nat),
{
    let ghost nv = n@;
    let signed = n.len() > 0 && (n[0] == '+' || n[0] == '-');
    let negative = n.len() > 0 && n[0] == '-';
    let body = if signed {
        slice_chars(n, 1, n.len())
    } else {
        slice_chars(n, 0, n.len())
    };
    assert(signed ==> body@ =~= nv.drop_first());
    assert(!signed ==> body@ =~= nv);
    let p = first_sep(&body);
    let int_part = slice_chars(&body, 0, p);
    let frac = if p < body.len() {
        slice_chars(&body, p + 1, body.len())
    } else {
        Vec::new()
    };
    assert(p >= body@.len() ==> frac@ =~= Seq::<char>::empty());
    if !(check_digits(&int_part) && check_digits(&frac) && int_part.len() + frac.len() > 0) {
        return None;
    }
    if negative {
        return Some(0);
    }
    let part = scaled_fraction(&frac, m);
    match digits_value(&int_part) {
        None => {
            assert(digits_val(int_part@) * (m as nat) >= digits_val(int_part@)) by (nonlinear_arith)
                requires
                    m >= 1,
            ;
            Some(u64::MAX)
        },
        Some(i) => {
            assert((i as u128) * (m as u128) <= 0xffff_ffff_ffff_ffff * 1073741824) by (nonlinear_arith)
                requires
                    m <= 1073741824,
            ;
            let total: u128 = (i as u128) * (m as u128) + (part as u128);
            if total > u64::MAX as u128 {
                Some(u64::MAX)
            } else {
                Some(total as u64)
            }
        },
    }
}

/// Size in bytes of a human-readable size given as characters.
pub fn size_of_chars(all: &Vec<char>) -> (r: Option<u64>)
    ensures
        r == size_bytes(all@),
{
    let (a, b) = trim_bounds(all);
    let t = slice_chars(all, a, b);
    if t.len() == 0 {
        return None;
    }
    let k = first_alpha(&t);
    let unit = slice_chars(&t, k, t.len());
    let m = unit_factor(&unit);
    let head = slice_chars(&t, 0, k);
    let (na, nb) = trim_bounds(&head);
    let n = slice_chars(&head, na, nb);
    parse_scaled(&n, m)
}

/// Size in bytes of a human-readable size such as `123kB`, `12.3MiB` or `1.2GiB`.
pub fn parse_size_to_bytes(input: &str) -> (r: Option<u64>)
    ensures
        r == size_bytes(input@),
{
    let all = chars_of(input);
    size_of_chars(&all)
}

/// Size in whole mebibytes (rounded down) of a human-readable size.
pub fn parse_size_to_mb(input: &str) -> (r: Option<u64>)
    ensures
        r == match size_bytes(input@) {
            Some(b) => Some(b / 1048576),
            None => None,
        },
{
    match parse_size_to_bytes(input) {
        Some(b) => Some(b / 1048576),
        None => None,
    }
}

/// The pieces of `s` between occurrences of `sep` (one piece when `sep` does
/// not occur; empty pieces kept).
pub open spec fn split(s: Seq<char>, sep: char) -> Seq<Seq<char>>
    decreases s.len(),
{
    if s.len() == 0 {
        seq![Seq::<char>::empty()]
    } else {
        let r = split(s.drop_last(), sep);
        if s.last() == sep {
            r.push(Seq::<char>::empty())
        } else {
            r.update(r.len() - 1, r.last().push(s.last()))
        }
    }
}

proof fn lemma_split_nonempty(s: Seq<char>, sep: char)
    ensures
        split(s, sep).len() >= 1,
    decreases s.len(),
{
    if s.len() > 0 {
        lemma_split_nonempty(s.drop_last(), sep);
    }
}

pub open spec fn views(v: Seq<Vec<char>>) -> Seq<Seq<char>> {
    v.map_values(|p: Vec<char>| p@)
}

/// Splits a character vector at each separator.
pub fn split_chars(v: &Vec<char>, sep: char) -> (r: Vec<Vec<char>>)
    ensures
        views(r@) == split(v@, sep),
        r@.len() >= 1,
{
    let mut parts: Vec<Vec<char>> = Vec::new();
    let mut cur: Vec<char> = Vec::new();
    let mut i: usize = 0;
    assert(v@.subrange(0, 0) =~= Seq::<char>::empty());
    assert(views(parts@).push(cur@) =~= split(Seq::<char>::empty(), sep));
    while i < v.len()
        invariant
            i <= v@.len(),
            views(parts@).push(cur@) == split(v@.subrange(0, i as int), sep),
        decreases v@.len() - i,
    {
        let c = v[i];
        let ghost pre = v@.subrange(0, i as int);
        let ghost next = v@.subrange(0, i + 1);
        assert(next.drop_last() =~= pre);
        assert(next.last() == c);
        if c == sep {
            let done = cur;
            parts.push(done);
            cur = Vec::new();
            assert(views(parts@).push(cur@) =~= split(pre, sep).push(Seq::<char>::empty()));
        } else {
            let ghost old_parts = parts@;
            cur.push(c);
            let ghost r = split(pre, sep);
            assert(views(parts@).push(cur@) =~= r.update(r.len() - 1, r.last().push(c)));
        }
        i = i + 1;
    }
    assert(v@.subrange(0, i as int) =~= v@);
    parts.push(cur);
    assert(views(parts@) =~= split(v@, sep));
    proof {
        lemma_split_nonempty(v@, sep);
    }
    parts
}

/// `s` without its trailing `%` signs.
pub open spec fn strip_percent(s: Seq<char>) -> Seq<char>
    decreases s.len(),
{
    if s.len() > 0 && s.last() == '%' {
        strip_percent(s.drop_last())
    } else {
        s
    }
}

fn strip_percent_chars(v: &Vec<char>) -> (r: Vec<char>)
    ensures
        r@ == strip_percent(v@),
{
    let mut n: usize = v.len();
    assert(v@.subrange(0, n as int) =~= v@);
    while n > 0 && v[n - 1] == '%'
        invariant
            n <= v@.len(),
            strip_percent(v@) == strip_percent(v@.subrange(0, n as int)),
        decreases n,
    {
        assert(v@.subrange(0, n as int).drop_last() =~= v@.subrange(0, n - 1));
        n = n - 1;
    }
    let r = slice_chars(v, 0, n);
    assert(v@.subrange(0, v@.len() as int) =~= v@);
    r
}

/// Size of piece `i` of `parts`, if there is such a piece.
pub open spec fn piece_size(parts: Seq<Seq<char>>, i: int) -> Option<u64> {
    if 0 <= i < parts.len() {
        size_bytes(parts[i])
    } else {
        None
    }
}

pub open spec fn mebibytes(b: Option<u64>) -> Option<u64> {
    match b {
        Some(x) => Some(x / 1048576),
        None => None,
    }
}

/// Figures of one container, read from a stats line. CPU usage is in
/// hundredths of a percent.
#[derive(Debug)]
pub struct StatsSample {
    pub container: String,
    pub cpu_centipercent: Option<u64>,
    pub memory_mb: Option<u64>,
    pub network_in: Option<u64>,
    pub network_out: Option<u64>,
    pub block_read: Option<u64>,
    pub block_write: Option<u64>,
}

/// What a stats line `name,cpu%,used / limit,in / out[,read / write]` holds.
pub open spec fn sample_matches(line: Seq<char>, x: StatsSample) -> bool {
    let parts = split(line, ',');
    let net = split(parts[3], '/');
    &&& x.container@ == trim(parts[0])
    &&& x.cpu_centipercent == scaled_value(strip_percent(parts[1]), 100)
    &&& x.memory_mb == mebibytes(size_bytes(split(parts[2], '/')[0]))
    &&& x.network_in == piece_size(net, 0)
    &&& x.network_out == piece_size(net, 1)
    &&& x.block_read == if parts.len() >= 5 {
        piece_size(split(parts[4], '/'), 0)
    } else {
        None
    }
    &&& x.block_write == if parts.len() >= 5 {
        piece_size(split(parts[4], '/'), 1)
    } else {
        None
    }
}

fn size_of_piece(parts: &Vec<Vec<char>>, i: usize) -> (r: Option<u64>)
    ensures
        r == piece_size(views(parts@), i as int),
{
    if i < parts.len() {
        size_of_chars(&parts[i])
    } else {
        None
    }
}

/// Reads one line of the runtime's stats table. Lines with fewer than four
/// fields give `None`; each figure that does not parse is `None` on its own.
/// The CPU figure accepts a comma as decimal separator.
pub fn parse_stats_line(line: &str) -> (r: Option<StatsSample>)
    ensures
        split(line@, ',').len() < 4 <==> r is None,
        r matches Some(x) ==> sample_matches(line@, x),
{
    let chars = chars_of(line);
    let parts = split_chars(&chars, ',');
    if parts.len() < 4 {
        return None;
    }
    let ghost ps = views(parts@);
    assert(ps[0] == parts@[0]@ && ps[1] == parts@[1]@ && ps[2] == parts@[2]@ && ps[3]
        == parts@[3]@);
    let name = trimmed_string(&parts[0]);
    let cpu_text = strip_percent_chars(&parts[1]);
    let cpu = parse_scaled(&cpu_text, 100);
    let mem_parts = split_chars(&parts[2], '/');
    assert(views(mem_parts@)[0] == mem_parts@[0]@);
    let memory = match size_of_chars(&mem_parts[0]) {
        Some(b) => Some(b / 1048576),
        None => None,
    };
    let net = split_chars(&parts[3], '/');
    let network_in = size_of_piece(&net, 0);
    let network_out = size_of_piece(&net, 1);
    let (block_read, block_write) = if parts.len() >= 5 {
        assert(ps[4] == parts@[4]@);
        let blk = split_chars(&parts[4], '/');
        (size_of_piece(&blk, 0), size_of_piece(&blk, 1))
    } else {
        (None, None)
    };
    Some(
        StatsSample {
            container: name,
            cpu_centipercent: cpu,
            memory_mb: memory,
            network_in,
            network_out,
            block_read,
            block_write,
        },
    )
}

fn trimmed_string(v: &Vec<char>) -> (r: String)
    ensures
        r@ == trim(v@),
{
    let (a, b) = trim_bounds(v);
    let t = slice_chars(v, a, b);
    string_of(t.as_slice())
}

pub open spec fn or_keep(new: Option<u64>, prev: Option<u64>) -> Option<u64> {
    if new is Some {
        new
    } else {
        prev
    }
}

/// Each figure present in the sample overwrites its own slot; absent ones
/// leave the slot as it was.
pub fn merge_sample(m: &mut ServiceMetrics, x: &StatsSample)
    ensures
        final(m).cpu_usage_centipercent == or_keep(x.cpu_centipercent, old(m).cpu_usage_centipercent),
        final(m).memory_usage_mb == or_keep(x.memory_mb, old(m).memory_usage_mb),
        final(m).network_in_bytes == or_keep(x.network_in, old(m).network_in_bytes),
        final(m).network_out_bytes == or_keep(x.network_out, old(m).network_out_bytes),
        final(m).block_read_bytes == or_keep(x.block_read, old(m).block_read_bytes),
        final(m).block_write_bytes == or_keep(x.block_write, old(m).block_write_bytes),
        final(m).disk_usage_centipercent == old(m).disk_usage_centipercent,
        final(m).request_count == old(m).request_count,
        final(m).error_rate_millis == old(m).error_rate_millis,
{
    if x.cpu_centipercent.is_some() {
        m.cpu_usage_centipercent = x.cpu_centipercent;
    }
    if x.memory_mb.is_some() {
        m.memory_usage_mb = x.memory_mb;
    }
    if x.network_in.is_some() {
        m.network_in_bytes = x.network_in;
    }
    if x.network_out.is_some() {
        m.network_out_bytes = x.network_out;
    }
    if x.block_read.is_some() {
        m.block_read_bytes = x.block_read;
    }
    if x.block_write.is_some() {
        m.block_write_bytes = x.block_write;
    }
}

/// Whether `c` is configured with the container named `name`.
pub open spec fn runs_in(c: ServiceConfig, name: Seq<char>) -> bool {
    c.docker_container matches Some(x) && x@ == name
}

/// Index of the service that owns the named container: the last configured
/// one, when several name it.
pub fn container_owner(configs: &Vec<ServiceConfig>, name: &String) -> (r: Option<usize>)
    ensures
        r matches Some(i) ==> i < configs@.len() && runs_in(configs@[i as int], name@) && forall|
            j: int,
        |
            i < j < configs@.len() ==> !runs_in(#[trigger] configs@[j], name@),
        r is None ==> forall|j: int|
            0 <= j < configs@.len() ==> !runs_in(#[trigger] configs@[j], name@),
{
    let mut i: usize = configs.len();
    while i > 0
        invariant
            i <= configs@.len(),
            forall|j: int| i <= j < configs@.len() ==> !runs_in(#[trigger] configs@[j], name@),
        decreases i,
    {
        i = i - 1;
        match &configs[i].docker_container {
            Some(c) => {
                if c.eq(name) {
                    return Some(i);
                }
            },
            None => {},
        }
    }
    None
}

} // verus!
