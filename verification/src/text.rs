//! Character-level text utilities: string equality, delimiter splitting, and
//! parsing of decimal numerals into fixed-point micro-units.
//!
//! A micro-unit is one millionth: the numeral `0.95` parses to `950_000`.
//! Working in micro-units keeps every later computation exact integer
//! arithmetic.

use vstd::prelude::*;
use vstd::string::StrSliceExecFns;

verus! {

/// Largest magnitude a parsed coordinate may take, in micro-units
/// (one million whole units).
pub const MAX_COORD_MICRO: i64 = 1_000_000_000_000;

/// Micro-units per whole unit.
pub const MICRO_PER_UNIT: i64 = 1_000_000;

/// Compares two string slices character by character.
pub fn str_eq(a: &str, b: &str) -> (r: bool)
    ensures
        r == (a@ == b@),
{
    let alen = a.unicode_len();
    let blen = b.unicode_len();
    if alen != blen {
        return false;
    }
    let mut i: usize = 0;
    while i < alen
        invariant
            alen == a@.len(),
            blen == b@.len(),
            alen == blen,
            i <= alen,
            forall|j: int| 0 <= j < i ==> a@[j] == b@[j],
        decreases alen - i,
    {
        let ca = a.get_char(i);
        let cb = b.get_char(i);
        if ca != cb {
            return false;
        }
        i = i + 1;
    }
    proof {
        assert(a@ =~= b@);
    }
    true
}

/// The fields obtained by cutting `s` at every occurrence of the delimiter
/// `d`.  An empty input yields one empty field, and every delimiter adds one
/// field, so the result always holds at least one field.
pub open spec fn split_chars(s: Seq<char>, d: char) -> Seq<Seq<char>>
    decreases s.len(),
{
    if s.len() == 0 {
        seq![Seq::<char>::empty()]
    } else if s[0] == d {
        seq![Seq::<char>::empty()] + split_chars(s.drop_first(), d)
    } else {
        let rest = split_chars(s.drop_first(), d);
        seq![seq![s[0]] + rest[0]] + rest.drop_first()
    }
}

pub proof fn lemma_split_chars_nonempty(s: Seq<char>, d: char)
    ensures
        split_chars(s, d).len() >= 1,
    decreases s.len(),
{
    if s.len() != 0 {
        lemma_split_chars_nonempty(s.drop_first(), d);
    }
}

/// The remaining fields once `pre` is the part of the current field read so
/// far and `rest` are the fields of the unread tail.
pub open spec fn prepend_first(pre: Seq<char>, rest: Seq<Seq<char>>) -> Seq<Seq<char>> {
    seq![pre + rest[0]] + rest.drop_first()
}

/// Collects a string's characters into a vector.
pub fn chars_of(s: &str) -> (v: Vec<char>)
    ensures
        v@ == s@,
{
    let len = s.unicode_len();
    let mut v: Vec<char> = Vec::new();
    let mut i: usize = 0;
    while i < len
        invariant
            len == s@.len(),
            i <= len,
            v@ =~= s@.take(i as int),
        decreases len - i,
    {
        v.push(s.get_char(i));
        i = i + 1;
    }
    proof {
        assert(s@.take(len as int) =~= s@);
    }
    v
}

/// Splits a character vector at every occurrence of the delimiter, as
/// `str::split` does: `n` delimiters yield `n + 1` fields, empty fields
/// included.
pub fn split_vec(s: &Vec<char>, d: char) -> (fields: Vec<Vec<char>>)
    ensures
        fields.deep_view() == split_chars(s@, d),
        fields.len() >= 1,
{
    let len = s.len();
    let mut fields: Vec<Vec<char>> = Vec::new();
    let mut cur: Vec<char> = Vec::new();
    let mut i: usize = 0;
    proof {
        lemma_split_chars_nonempty(s@, d);
        assert(s@.skip(0) =~= s@);
        assert(split_chars(s@, d) =~~= fields.deep_view() + prepend_first(cur@, split_chars(s@.skip(i as int), d)));
    }
    while i < len
        invariant
            len == s@.len(),
            i <= len,
            split_chars(s@, d) =~~= fields.deep_view() + prepend_first(
                cur@,
                split_chars(s@.skip(i as int), d),
            ),
        decreases len - i,
    {
        let c = s[i];
        proof {
            assert(s@.skip(i as int).len() > 0);
            assert(s@.skip(i as int)[0] == s@[i as int]);
            assert(s@.skip(i as int).drop_first() =~= s@.skip(i as int + 1));
            lemma_split_chars_nonempty(s@.skip(i as int + 1), d);
        }
        if c == d {
            let ghost old_fields = fields.deep_view();
            let ghost old_cur = cur@;
            fields.push(cur);
            cur = Vec::new();
            proof {
                let rest2 = split_chars(s@.skip(i as int + 1), d);
                assert(split_chars(s@.skip(i as int), d) =~~= seq![Seq::<char>::empty()] + rest2);
                assert(fields.deep_view() =~~= old_fields + seq![old_cur]);
                assert(prepend_first(old_cur, seq![Seq::<char>::empty()] + rest2) =~~= seq![old_cur]
                    + prepend_first(Seq::<char>::empty(), rest2));
                assert(split_chars(s@, d) =~~= fields.deep_view() + prepend_first(
                    cur@,
                    split_chars(s@.skip(i as int + 1), d),
                ));
            }
        } else {
            let ghost old_cur = cur@;
            cur.push(c);
            proof {
                let rest2 = split_chars(s@.skip(i as int + 1), d);
                assert(split_chars(s@.skip(i as int), d) =~~= seq![seq![c] + rest2[0]]
                    + rest2.drop_first());
                assert(prepend_first(old_cur, seq![seq![c] + rest2[0]] + rest2.drop_first())
                    =~~= prepend_first(old_cur + seq![c], rest2));
                assert(split_chars(s@, d) =~~= fields.deep_view() + prepend_first(
                    cur@,
                    split_chars(s@.skip(i as int + 1), d),
                ));
            }
        }
        i = i + 1;
    }
    proof {
        assert(s@.skip(len as int) =~= Seq::<char>::empty());
    }
    let ghost old_fields = fields.deep_view();
    let ghost old_cur = cur@;
    fields.push(cur);
    proof {
        assert(fields.deep_view() =~~= old_fields + seq![old_cur]);
        assert(split_chars(s@, d) =~~= fields.deep_view());
    }
    fields
}

/// Splits a string at every occurrence of the delimiter.
pub fn split_str(s: &str, d: char) -> (fields: Vec<Vec<char>>)
    ensures
        fields.deep_view() == split_chars(s@, d),
        fields.len() >= 1,
{
    let chars = chars_of(s);
    split_vec(&chars, d)
}

/// Whether `c` is a decimal digit.
pub open spec fn is_ascii_digit(c: char) -> bool {
    '0' <= c && c <= '9'
}

/// The numeric value of a digit character.
pub open spec fn digit_value(c: char) -> int {
    c as int - '0' as int
}

/// Whether every character of `s` is a decimal digit.
pub open spec fn all_digits(s: Seq<char>) -> bool {
    forall|i: int| 0 <= i < s.len() ==> is_ascii_digit(#[trigger] s[i])
}

/// The value of a digit string read in base ten; an empty string reads as
/// zero.
pub open spec fn digits_value(s: Seq<char>) -> int
    decreases s.len(),
{
    if s.len() == 0 {
        0
    } else {
        digits_value(s.drop_last()) * 10 + digit_value(s.last())
    }
}

/// Ten to the `n`-th power.
pub open spec fn pow10(n: nat) -> int
    decreases n,
{
    if n == 0 {
        1
    } else {
        10 * pow10((n - 1) as nat)
    }
}

/// The value of a fractional-digit string in micro-units: the first six
/// fractional digits count, further digits are truncated away.
pub open spec fn frac_micro(s: Seq<char>) -> int {
    if s.len() >= 6 {
        digits_value(s.take(6))
    } else {
        digits_value(s) * pow10((6 - s.len()) as nat)
    }
}

/// The index of the first `.` in `s`, if any.
pub open spec fn dot_pos(s: Seq<char>) -> Option<int>
    decreases s.len(),
{
    if s.len() == 0 {
        None
    } else if s[0] == '.' {
        Some(0int)
    } else {
        match dot_pos(s.drop_first()) {
            Some(i) => Some(i + 1),
            None => None,
        }
    }
}

/// The micro-unit value of an unsigned decimal numeral: digits with at most
/// one decimal point and at least one character besides a lone point.
/// Numerals of any other shape have no value.
pub open spec fn parse_unsigned_micro(s: Seq<char>) -> Option<int> {
    match dot_pos(s) {
        None => if s.len() >= 1 && all_digits(s) {
            Some(digits_value(s) * MICRO_PER_UNIT)
        } else {
            None
        },
        Some(k) => {
            let ip = s.take(k);
            let fp = s.skip(k + 1);
            if s.len() >= 2 && all_digits(ip) && all_digits(fp) {
                Some(digits_value(ip) * MICRO_PER_UNIT + frac_micro(fp))
            } else {
                None
            }
        },
    }
}

/// The micro-unit value of a decimal numeral with an optional leading sign.
/// Values beyond `MAX_COORD_MICRO` in magnitude are rejected, so every
/// parsed value fits the fixed-point coordinate range.
pub open spec fn parse_fixed(s: Seq<char>) -> Option<i64> {
    let negative = s.len() > 0 && s[0] == '-';
    let body = if s.len() > 0 && (s[0] == '-' || s[0] == '+') {
        s.drop_first()
    } else {
        s
    };
    match parse_unsigned_micro(body) {
        Some(m) => if m <= MAX_COORD_MICRO {
            if negative {
                Some((-m) as i64)
            } else {
                Some(m as i64)
            }
        } else {
            None
        },
        None => None,
    }
}

/// The coordinate a field contributes to a frame: its parsed micro-unit
/// value, or zero where the field does not parse.
pub open spec fn field_value(f: Seq<char>) -> i64 {
    match parse_fixed(f) {
        Some(v) => v,
        None => 0,
    }
}

/// A digit string's value is never negative.
proof fn lemma_digits_value_nonneg(s: Seq<char>)
    requires
        all_digits(s),
    ensures
        digits_value(s) >= 0,
    decreases s.len(),
{
    if s.len() > 0 {
        assert(all_digits(s.drop_last()));
        lemma_digits_value_nonneg(s.drop_last());
    }
}

/// Reading one more digit multiplies the prefix value by ten and adds the
/// digit.
proof fn lemma_digits_value_step(s: Seq<char>, j: int)
    requires
        0 <= j < s.len(),
    ensures
        digits_value(s.take(j + 1)) == digits_value(s.take(j)) * 10 + digit_value(s[j]),
{
    assert(s.take(j + 1).drop_last() =~= s.take(j));
    assert(s.take(j + 1).last() == s[j]);
}

/// Extending a digit string with more digits never lowers its value.
proof fn lemma_digits_value_extend_ge(s: Seq<char>, j: int)
    requires
        all_digits(s),
        0 <= j <= s.len(),
    ensures
        digits_value(s) >= digits_value(s.take(j)),
    decreases s.len() - j,
{
    if j < s.len() {
        assert(all_digits(s.take(j + 1)));
        assert(all_digits(s.take(j)));
        lemma_digits_value_step(s, j);
        lemma_digits_value_nonneg(s.take(j));
        lemma_digits_value_extend_ge(s, j + 1);
    } else {
        assert(s.take(j) =~= s);
    }
}

/// `dot_pos` finds exactly the first occurrence of the point.
proof fn lemma_dot_pos_is_first(s: Seq<char>, k: int)
    requires
        0 <= k < s.len(),
        s[k] == '.',
        forall|j: int| 0 <= j < k ==> s[j] != '.',
    ensures
        dot_pos(s) == Some(k),
    decreases s.len(),
{
    if k > 0 {
        assert(s[0] != '.');
        assert(s.drop_first()[k - 1] == '.');
        assert(forall|j: int| 0 <= j < k - 1 ==> #[trigger] s.drop_first()[j] != '.');
        lemma_dot_pos_is_first(s.drop_first(), k - 1);
    }
}

/// A string without a point has no dot position.
proof fn lemma_dot_pos_none(s: Seq<char>)
    requires
        forall|j: int| 0 <= j < s.len() ==> s[j] != '.',
    ensures
        dot_pos(s) == None::<int>,
    decreases s.len(),
{
    if s.len() > 0 {
        assert(forall|j: int| 0 <= j < s.len() - 1 ==> #[trigger] s.drop_first()[j] != '.');
        lemma_dot_pos_none(s.drop_first());
    }
}

/// A parsed coordinate lies within the fixed-point range.
pub proof fn lemma_field_value_bounds(f: Seq<char>)
    ensures
        -MAX_COORD_MICRO <= field_value(f) <= MAX_COORD_MICRO,
{
    let negative = f.len() > 0 && f[0] == '-';
    let body = if f.len() > 0 && (f[0] == '-' || f[0] == '+') {
        f.drop_first()
    } else {
        f
    };
    match parse_unsigned_micro(body) {
        Some(m) => {
            match dot_pos(body) {
                None => {
                    lemma_digits_value_nonneg(body);
                },
                Some(k) => {
                    lemma_digits_value_nonneg(body.take(k));
                    let fp = body.skip(k + 1);
                    if fp.len() >= 6 {
                        assert(all_digits(fp.take(6)));
                        lemma_digits_value_nonneg(fp.take(6));
                    } else {
                        lemma_digits_value_nonneg(fp);
                        lemma_pow10_pos((6 - fp.len()) as nat);
                        lemma_mul_nonneg(digits_value(fp), pow10((6 - fp.len()) as nat));
                    }
                },
            }
        },
        None => {},
    }
}

proof fn lemma_pow10_pos(n: nat)
    ensures
        pow10(n) >= 1,
    decreases n,
{
    if n > 0 {
        lemma_pow10_pos((n - 1) as nat);
    }
}

proof fn lemma_mul_nonneg(a: int, b: int)
    requires
        a >= 0,
        b >= 0,
    ensures
        a * b >= 0,
{
    assert(a * b >= 0) by (nonlinear_arith)
        requires
            a >= 0,
            b >= 0,
    ;
}

/// Finds the first `.` at or after `from`.
fn find_dot(s: &Vec<char>, from: usize) -> (r: Option<usize>)
    requires
        from <= s@.len(),
    ensures
        match r {
            Some(k) => from <= k < s@.len() && s@[k as int] == '.' && forall|j: int|
                from <= j < k ==> s@[j] != '.',
            None => forall|j: int| from <= j < s@.len() ==> s@[j] != '.',
        },
{
    let mut i: usize = from;
    let len = s.len();
    while i < len
        invariant
            from <= i <= len,
            len == s@.len(),
            forall|j: int| from <= j < i ==> s@[j] != '.',
        decreases len - i,
    {
        if s[i] == '.' {
            return Some(i);
        }
        i = i + 1;
    }
    None
}

/// Reads `s[from..to]` as a digit string, rejecting any non-digit and any
/// value above `cap`.
pub(crate) fn digits_to_value(s: &Vec<char>, from: usize, to: usize, cap: i64) -> (r: Option<i64>)
    requires
        from <= to <= s@.len(),
        0 <= cap <= MAX_COORD_MICRO,
    ensures
        match r {
            Some(v) => all_digits(s@.subrange(from as int, to as int)) && digits_value(
                s@.subrange(from as int, to as int),
            ) == v && 0 <= v <= cap,
            None => all_digits(s@.subrange(from as int, to as int)) ==> digits_value(
                s@.subrange(from as int, to as int),
            ) > cap,
        },
{
    let ghost sub = s@.subrange(from as int, to as int);
    let mut acc: i64 = 0;
    let mut i: usize = from;
    while i < to
        invariant
            from <= i <= to <= s@.len(),
            0 <= cap <= MAX_COORD_MICRO,
            sub == s@.subrange(from as int, to as int),
            all_digits(sub.take(i - from)),
            acc == digits_value(sub.take(i - from)),
            0 <= acc <= cap,
        decreases to - i,
    {
        let c = s[i];
        proof {
            assert(sub[i - from] == s@[i as int]);
        }
        if c < '0' || c > '9' {
            proof {
                assert(!is_ascii_digit(sub[i - from]));
            }
            return None;
        }
        let d = (c as u32 - '0' as u32) as i64;
        proof {
            assert(sub.take(i - from + 1).drop_last() =~= sub.take(i - from));
            lemma_digits_value_step(sub, i - from);
        }
        let cand = acc * 10 + d;
        if cand > cap {
            // The prefix already exceeds the cap once this digit is
            // appended, and appending digits never lowers the value.
            proof {
                assert(all_digits(sub.take(i - from + 1)));
                if all_digits(sub) {
                    lemma_digits_value_extend_ge(sub, i - from + 1);
                }
            }
            return None;
        }
        acc = cand;
        i = i + 1;
    }
    proof {
        assert(sub.take(to - from) =~= sub);
    }
    Some(acc)
}

/// Reads the fractional digits `s[from..]` into micro-units: the first six
/// digits count, later ones only have to be digits.
fn frac_to_micro(s: &Vec<char>, from: usize) -> (r: Option<i64>)
    requires
        from <= s@.len(),
    ensures
        match r {
            Some(v) => all_digits(s@.subrange(from as int, s@.len() as int)) && v == frac_micro(
                s@.subrange(from as int, s@.len() as int),
            ) && 0 <= v < MICRO_PER_UNIT,
            None => !all_digits(s@.subrange(from as int, s@.len() as int)),
        },
{
    let ghost fp = s@.subrange(from as int, s@.len() as int);
    let len = s.len();
    let mut acc: i64 = 0;
    let mut count: usize = 0;
    let mut i: usize = from;
    while i < len
        invariant
            from <= i <= len,
            len == s@.len(),
            fp == s@.subrange(from as int, s@.len() as int),
            count == if i - from <= 6 {
                i - from
            } else {
                6int
            },
            all_digits(fp.take(i - from)),
            acc == digits_value(fp.take(count as int)),
            0 <= acc < pow10(count as nat),
            acc <= 999_999,
        decreases len - i,
    {
        let c = s[i];
        proof {
            assert(fp[i - from] == s@[i as int]);
        }
        if c < '0' || c > '9' {
            proof {
                assert(!is_ascii_digit(fp[i - from]));
            }
            return None;
        }
        let d = (c as u32 - '0' as u32) as i64;
        proof {
            assert(all_digits(fp.take(i - from + 1)));
        }
        if count < 6 {
            proof {
                assert(fp.take(count as int) =~= fp.take(i - from));
                lemma_digits_value_step(fp, count as int);
                lemma_pow10_unfold((count + 1) as nat);
                assert(acc * 10 + d < pow10((count + 1) as nat)) by (nonlinear_arith)
                    requires
                        acc < pow10(count as nat),
                        0 <= d <= 9,
                        pow10((count + 1) as nat) == 10 * pow10(count as nat),
                ;
                lemma_pow10_le_million((count + 1) as nat);
            }
            acc = acc * 10 + d;
            count = count + 1;
        }
        i = i + 1;
    }
    proof {
        assert(fp.take(len - from) =~= fp);
    }
    // Pad to six fractional digits.
    let mut pad: usize = count;
    let ghost acc0 = acc;
    proof {
        assert(((pad - count) as nat) == 0);
        assert(pow10(0) == 1);
        assert(acc0 * pow10(0) == acc0 * 1);
        assert(acc0 * 1 == acc0);
        assert(acc == acc0 * pow10((pad - count) as nat));
    }
    while pad < 6
        invariant
            count <= pad <= 6,
            acc == acc0 * pow10((pad - count) as nat),
            0 <= acc0 < pow10(count as nat),
            0 <= acc < pow10(pad as nat),
        decreases 6 - pad,
    {
        proof {
            lemma_pow10_unfold((pad + 1) as nat);
            lemma_pow10_unfold((pad - count + 1) as nat);
            assert(acc * 10 == acc0 * pow10((pad - count + 1) as nat)) by (nonlinear_arith)
                requires
                    acc == acc0 * pow10((pad - count) as nat),
                    pow10((pad - count + 1) as nat) == 10 * pow10((pad - count) as nat),
            ;
            assert(acc * 10 < pow10((pad + 1) as nat)) by (nonlinear_arith)
                requires
                    acc < pow10(pad as nat),
                    acc >= 0,
                    pow10((pad + 1) as nat) == 10 * pow10(pad as nat),
            ;
            lemma_pow10_le_million((pad + 1) as nat);
            lemma_pow10_pos((pad - count) as nat);
        }
        acc = acc * 10;
        pad = pad + 1;
    }
    proof {
        lemma_pow10_le_million(6);
        if fp.len() >= 6 {
            assert(count == 6);
            assert(pad == count);
            assert(pow10(0) == 1);
            assert(acc == acc0);
            assert(frac_micro(fp) == digits_value(fp.take(6)));
        } else {
            assert(count == fp.len());
            assert(fp.take(count as int) =~= fp);
            assert(frac_micro(fp) == digits_value(fp) * pow10((6 - fp.len()) as nat));
        }
    }
    Some(acc)
}

proof fn lemma_pow10_unfold(n: nat)
    requires
        n >= 1,
    ensures
        pow10(n) == 10 * pow10((n - 1) as nat),
{
}

proof fn lemma_pow10_le_million(n: nat)
    requires
        n <= 6,
    ensures
        pow10(n) <= 1_000_000,
{
    assert(pow10(0) == 1);
    assert(pow10(1) == 10);
    assert(pow10(2) == 100);
    assert(pow10(3) == 1000);
    assert(pow10(4) == 10000);
    assert(pow10(5) == 100000);
    assert(pow10(6) == 1000000);
}

/// Parses a signed decimal numeral into fixed-point micro-units, rejecting
/// malformed numerals and values beyond the coordinate range.
pub fn parse_fixed_micro(s: &Vec<char>) -> (r: Option<i64>)
    ensures
        r == parse_fixed(s@),
{
    let len = s.len();
    let mut start: usize = 0;
    let mut negative = false;
    if len > 0 && (s[0] == '-' || s[0] == '+') {
        negative = s[0] == '-';
        start = 1;
    }
    let ghost body = if s@.len() > 0 && (s@[0] == '-' || s@[0] == '+') {
        s@.drop_first()
    } else {
        s@
    };
    proof {
        assert(body =~= s@.subrange(start as int, len as int));
    }
    match find_dot(s, start) {
        None => {
            proof {
                assert(forall|j: int| 0 <= j < body.len() ==> body[j] == s@[j + start]);
                lemma_dot_pos_none(body);
            }
            if len - start < 1 {
                return None;
            }
            match digits_to_value(s, start, len, MICRO_PER_UNIT) {
                None => {
                    proof {
                        if all_digits(body) {
                            lemma_value_above_cap(body);
                        }
                    }
                    None
                },
                Some(v) => {
                    let total = v * MICRO_PER_UNIT;
                    if negative {
                        Some(-total)
                    } else {
                        Some(total)
                    }
                },
            }
        },
        Some(k) => {
            proof {
                assert(forall|j: int| 0 <= j < body.len() ==> body[j] == s@[j + start]);
                assert(body[k - start] == '.');
                lemma_dot_pos_is_first(body, k - start);
                assert(body.take(k - start) =~= s@.subrange(start as int, k as int));
                assert(body.skip(k - start + 1) =~= s@.subrange(k as int + 1, len as int));
            }
            if len - start < 2 {
                return None;
            }
            match digits_to_value(s, start, k, MICRO_PER_UNIT) {
                None => {
                    proof {
                        let ip = body.take(k - start);
                        let fp = body.skip(k - start + 1);
                        if all_digits(ip) && all_digits(fp) {
                            lemma_int_part_above_cap(ip, fp);
                        }
                    }
                    None
                },
                Some(v) => {
                    match frac_to_micro(s, k + 1) {
                        None => None,
                        Some(f) => {
                            let total = v * MICRO_PER_UNIT + f;
                            if total > MAX_COORD_MICRO {
                                None
                            } else {
                                if negative {
                                    Some(-total)
                                } else {
                                    Some(total)
                                }
                            }
                        },
                    }
                },
            }
        },
    }
}

/// A whole-digit string worth more than a million units overflows the
/// coordinate range.
proof fn lemma_value_above_cap(body: Seq<char>)
    requires
        all_digits(body),
        digits_value(body) > MICRO_PER_UNIT,
    ensures
        digits_value(body) * MICRO_PER_UNIT > MAX_COORD_MICRO,
{
    assert(digits_value(body) * 1_000_000 > 1_000_000_000_000) by (nonlinear_arith)
        requires
            digits_value(body) > 1_000_000,
    ;
}

/// An integer part worth more than a million units overflows the coordinate
/// range whatever the fraction adds.
proof fn lemma_int_part_above_cap(ip: Seq<char>, fp: Seq<char>)
    requires
        all_digits(ip),
        all_digits(fp),
        digits_value(ip) > MICRO_PER_UNIT,
    ensures
        digits_value(ip) * MICRO_PER_UNIT + frac_micro(fp) > MAX_COORD_MICRO,
{
    assert(digits_value(ip) * 1_000_000 > 1_000_000_000_000) by (nonlinear_arith)
        requires
            digits_value(ip) > 1_000_000,
    ;
    if fp.len() >= 6 {
        assert(all_digits(fp.take(6)));
        lemma_digits_value_nonneg(fp.take(6));
    } else {
        lemma_digits_value_nonneg(fp);
        lemma_pow10_pos((6 - fp.len()) as nat);
        lemma_mul_nonneg(digits_value(fp), pow10((6 - fp.len()) as nat));
    }
}

} // verus!
