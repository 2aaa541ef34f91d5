//! Plain-text building blocks: decimal and boolean parsing and
//! formatting, character search, splitting and joining on a separator.
//! Everything here is executable and proved against the spec functions
//! that the configuration and auth modules state their contracts with.

use vstd::prelude::*;

verus! {

// ---------------------------------------------------------------------
// Digits and decimal values
// ---------------------------------------------------------------------

pub open spec fn is_digit(c: char) -> bool {
    c == '0' || c == '1' || c == '2' || c == '3' || c == '4' || c == '5' || c == '6' || c == '7'
        || c == '8' || c == '9'
}

pub open spec fn digit_val(c: char) -> nat {
    if c == '0' {
        0
    } else if c == '1' {
        1
    } else if c == '2' {
        2
    } else if c == '3' {
        3
    } else if c == '4' {
        4
    } else if c == '5' {
        5
    } else if c == '6' {
        6
    } else if c == '7' {
        7
    } else if c == '8' {
        8
    } else {
        9
    }
}

pub open spec fn digit_char(v: nat) -> char {
    if v == 0 {
        '0'
    } else if v == 1 {
        '1'
    } else if v == 2 {
        '2'
    } else if v == 3 {
        '3'
    } else if v == 4 {
        '4'
    } else if v == 5 {
        '5'
    } else if v == 6 {
        '6'
    } else if v == 7 {
        '7'
    } else if v == 8 {
        '8'
    } else {
        '9'
    }
}

pub open spec fn all_digits(s: Seq<char>) -> bool {
    forall|i: int| 0 <= i < s.len() ==> is_digit(#[trigger] s[i])
}

/// The value of a digit string, most significant digit first.
pub open spec fn dec_value(s: Seq<char>) -> nat
    decreases s.len(),
{
    if s.len() == 0 {
        0
    } else {
        dec_value(s.drop_last()) * 10 + digit_val(s.last())
    }
}

/// A digit string is worth at least any of its prefixes.
pub proof fn lemma_dec_value_prefix(s: Seq<char>, k: int)
    requires
        0 <= k <= s.len(),
    ensures
        dec_value(s) >= dec_value(s.take(k)),
    decreases s.len() - k,
{
    if k < s.len() {
        lemma_dec_value_prefix(s, k + 1);
        assert(s.take(k + 1).drop_last() =~= s.take(k));
        assert(dec_value(s.take(k + 1)) == dec_value(s.take(k)) * 10 + digit_val(
            s.take(k + 1).last(),
        ));
    } else {
        assert(s.take(k) =~= s);
    }
}

// ---------------------------------------------------------------------
// Parsing integers
// ---------------------------------------------------------------------

/// Type-directed parse of a signed 32-bit integer: an optional leading
/// `-`, then one or more decimal digits, and the value must fit.
pub open spec fn parse_i32_spec(s: Seq<char>) -> Option<i32> {
    if s.len() == 0 {
        None
    } else if s[0] == '-' {
        let digits = s.skip(1);
        if digits.len() == 0 || !all_digits(digits) {
            None
        } else if dec_value(digits) <= 0x8000_0000 {
            Some((-(dec_value(digits) as int)) as i32)
        } else {
            None
        }
    } else {
        if !all_digits(s) {
            None
        } else if dec_value(s) <= 0x7fff_ffff {
            Some(dec_value(s) as i32)
        } else {
            None
        }
    }
}

/// The digit of `c`, or `None` where `c` is no digit.
fn digit_of(c: char) -> (r: Option<u8>)
    ensures
        r is Some <==> is_digit(c),
        r matches Some(d) ==> d == digit_val(c),
{
    match c {
        '0' => Some(0),
        '1' => Some(1),
        '2' => Some(2),
        '3' => Some(3),
        '4' => Some(4),
        '5' => Some(5),
        '6' => Some(6),
        '7' => Some(7),
        '8' => Some(8),
        '9' => Some(9),
        _ => None,
    }
}

pub fn parse_i32(s: &str) -> (r: Option<i32>)
    ensures
        r == parse_i32_spec(s@),
{
    let n = s.unicode_len();
    if n == 0 {
        return None;
    }
    let neg = s.get_char(0) == '-';
    let start: usize = if neg {
        1
    } else {
        0
    };
    let ghost digits: Seq<char> = if neg {
        s@.skip(1)
    } else {
        s@
    };
    if n == start {
        return None;
    }
    let mut i = start;
    let mut val: u64 = 0;
    while i < n
        invariant
            start <= i <= n,
            n == s@.len(),
            start == if neg { 1int } else { 0int },
            neg ==> s@[0] == '-' && digits == s@.skip(1),
            !neg ==> s@[0] != '-' && digits == s@,
            start < n,
            val == dec_value(digits.take(i - start)),
            all_digits(digits.take(i - start)),
            val <= 0x8000_0000,
        decreases n - i,
    {
        let c = s.get_char(i);
        proof {
            assert(digits.take(i + 1 - start).drop_last() =~= digits.take(i - start));
            assert(digits.take(i + 1 - start).last() == s@[i as int]);
        }
        match digit_of(c) {
            None => {
                proof {
                    assert(!is_digit(digits[i - start]));
                    assert(!all_digits(digits));
                }
                return None;
            },
            Some(d) => {
                let next: u64 = val * 10 + (d as u64);
                if next > 0x8000_0000 {
                    proof {
                        assert(next == dec_value(digits.take(i + 1 - start)));
                        if all_digits(digits) {
                            lemma_dec_value_prefix(digits, i + 1 - start);
                            assert(dec_value(digits) > 0x8000_0000);
                        }
                        assert(parse_i32_spec(s@) is None);
                    }
                    return None;
                }
                val = next;
                i = i + 1;
            },
        }
    }
    proof {
        assert(digits.take(n - start) =~= digits);
    }
    if neg {
        Some((-(val as i64)) as i32)
    } else {
        if val > 0x7fff_ffff {
            None
        } else {
            Some(val as i32)
        }
    }
}

// ---------------------------------------------------------------------
// Formatting integers
// ---------------------------------------------------------------------

/// Decimal digits of `v`, most significant first, no leading zeros.
pub open spec fn fmt_nat(v: nat) -> Seq<char>
    decreases v,
{
    if v < 10 {
        seq![digit_char(v)]
    } else {
        fmt_nat(v / 10) + seq![digit_char(v % 10)]
    }
}

/// Decimal rendering of a signed value: `-` followed by the digits of
/// its magnitude where negative.
pub open spec fn format_i32_spec(n: int) -> Seq<char> {
    if n < 0 {
        seq!['-'] + fmt_nat((-n) as nat)
    } else {
        fmt_nat(n as nat)
    }
}

pub proof fn lemma_fmt_nat_digits(v: nat)
    ensures
        fmt_nat(v).len() >= 1,
        all_digits(fmt_nat(v)),
        dec_value(fmt_nat(v)) == v,
    decreases v,
{
    if v < 10 {
        assert(fmt_nat(v) =~= seq![digit_char(v)]);
        assert(fmt_nat(v).drop_last() =~= Seq::<char>::empty());
        assert(fmt_nat(v).last() == digit_char(v));
        assert(digit_val(digit_char(v)) == v);
        assert(dec_value(fmt_nat(v)) == dec_value(Seq::<char>::empty()) * 10 + digit_val(
            digit_char(v),
        ));
    } else {
        lemma_fmt_nat_digits(v / 10);
        let w = fmt_nat(v / 10) + seq![digit_char(v % 10)];
        assert(w =~= fmt_nat(v));
        assert(w.drop_last() =~= fmt_nat(v / 10));
        assert(w.last() == digit_char(v % 10));
        assert(digit_val(digit_char(v % 10)) == v % 10);
        vstd::arithmetic::div_mod::lemma_fundamental_div_mod(v as int, 10);
        assert(dec_value(w) == (v / 10) * 10 + v % 10);
    }
}

/// One digit as a string slice.
fn digit_str(d: u8) -> (r: &'static str)
    requires
        d <= 9,
    ensures
        r@ =~= seq![digit_char(d as nat)],
{
    proof {
        reveal_strlit("0");
        reveal_strlit("1");
        reveal_strlit("2");
        reveal_strlit("3");
        reveal_strlit("4");
        reveal_strlit("5");
        reveal_strlit("6");
        reveal_strlit("7");
        reveal_strlit("8");
        reveal_strlit("9");
    }
    match d {
        0 => "0",
        1 => "1",
        2 => "2",
        3 => "3",
        4 => "4",
        5 => "5",
        6 => "6",
        7 => "7",
        8 => "8",
        _ => "9",
    }
}

fn format_u64(v: u64) -> (r: String)
    ensures
        r@ == fmt_nat(v as nat),
    decreases v,
{
    if v < 10 {
        let s = String::from_str(digit_str(v as u8));
        proof {
            assert(s@ =~= fmt_nat(v as nat));
        }
        s
    } else {
        let mut s = format_u64(v / 10);
        s.append(digit_str((v % 10) as u8));
        proof {
            assert(s@ =~= fmt_nat(v as nat));
        }
        s
    }
}

/// Decimal rendering of `n`, the inverse of [`parse_i32`].
pub fn format_i32(n: i32) -> (r: String)
    ensures
        r@ == format_i32_spec(n as int),
{
    if n < 0 {
        let mag: u64 = (-(n as i64)) as u64;
        let mut s = String::from_str("-");
        s.append(format_u64(mag).as_str());
        proof {
            reveal_strlit("-");
            assert(s@ =~= format_i32_spec(n as int));
        }
        s
    } else {
        format_u64(n as u64)
    }
}

/// Every value printed by [`format_i32`] parses back to itself.
pub proof fn lemma_i32_round_trip(n: i32)
    ensures
        parse_i32_spec(format_i32_spec(n as int)) == Some(n),
{
    if n < 0 {
        let mag = (-(n as int)) as nat;
        lemma_fmt_nat_digits(mag);
        let s = seq!['-'] + fmt_nat(mag);
        assert(s[0] == '-');
        assert(s.skip(1) =~= fmt_nat(mag));
    } else {
        lemma_fmt_nat_digits(n as nat);
        let s = fmt_nat(n as nat);
        assert(s.len() >= 1 && is_digit(s[0]));
        assert(s[0] != '-');
    }
}

// ---------------------------------------------------------------------
// Booleans
// ---------------------------------------------------------------------

/// Type-directed parse of a boolean: exactly `true` or `false`.
pub open spec fn parse_bool_spec(s: Seq<char>) -> Option<bool> {
    if s == ("true")@ {
        Some(true)
    } else if s == ("false")@ {
        Some(false)
    } else {
        None
    }
}

pub open spec fn format_bool_spec(b: bool) -> Seq<char> {
    if b {
        ("true")@
    } else {
        ("false")@
    }
}

/// Character-wise equality of two string slices.
pub fn str_eq(a: &str, b: &str) -> (r: bool)
    ensures
        r == (a@ == b@),
{
    let na = a.unicode_len();
    let nb = b.unicode_len();
    if na != nb {
        return false;
    }
    let mut i: usize = 0;
    while i < na
        invariant
            0 <= i <= na,
            na == a@.len(),
            na == b@.len(),
            forall|j: int| 0 <= j < i ==> a@[j] == b@[j],
        decreases na - i,
    {
        if a.get_char(i) != b.get_char(i) {
            return false;
        }
        i = i + 1;
    }
    proof {
        assert(a@ =~= b@);
    }
    true
}

pub fn parse_bool(s: &str) -> (r: Option<bool>)
    ensures
        r == parse_bool_spec(s@),
{
    if str_eq(s, "true") {
        Some(true)
    } else if str_eq(s, "false") {
        Some(false)
    } else {
        None
    }
}

pub fn format_bool(b: bool) -> (r: String)
    ensures
        r@ == format_bool_spec(b),
{
    if b {
        String::from_str("true")
    } else {
        String::from_str("false")
    }
}

/// Parsing undoes formatting for booleans.
pub proof fn lemma_bool_round_trip(b: bool)
    ensures
        parse_bool_spec(format_bool_spec(b)) == Some(b),
{
    reveal_strlit("true");
    reveal_strlit("false");
    assert(("true")@.len() == 4);
    assert(("false")@.len() == 5);
}

/// `p` starts `a`.
pub open spec fn has_prefix(a: Seq<char>, p: Seq<char>) -> bool {
    a.len() >= p.len() && a.take(p.len() as int) == p
}

/// Whether `prefix` starts `s`.
pub fn starts_with(s: &str, prefix: &str) -> (r: bool)
    ensures
        r == (s@.len() >= prefix@.len() && s@.take(prefix@.len() as int) == prefix@),
{
    let n = s.unicode_len();
    let np = prefix.unicode_len();
    if n < np {
        return false;
    }
    let mut i: usize = 0;
    while i < np
        invariant
            0 <= i <= np,
            np <= n,
            n == s@.len(),
            np == prefix@.len(),
            forall|j: int| 0 <= j < i ==> s@[j] == prefix@[j],
        decreases np - i,
    {
        if s.get_char(i) != prefix.get_char(i) {
            proof {
                assert(s@.take(np as int)[i as int] != prefix@[i as int]);
            }
            return false;
        }
        i = i + 1;
    }
    proof {
        assert(s@.take(np as int) =~= prefix@);
    }
    true
}

/// Whether everything from `from` on is a decimal digit.
pub fn digits_from(s: &str, from: usize) -> (r: bool)
    requires
        from <= s@.len(),
    ensures
        r == all_digits(s@.skip(from as int)),
{
    let n = s.unicode_len();
    let mut i = from;
    while i < n
        invariant
            from <= i <= n,
            n == s@.len(),
            forall|j: int| from <= j < i ==> is_digit(#[trigger] s@[j]),
        decreases n - i,
    {
        if digit_of(s.get_char(i)).is_none() {
            proof {
                assert(s@.skip(from as int)[i - from] == s@[i as int]);
            }
            return false;
        }
        i = i + 1;
    }
    proof {
        assert forall|j: int| 0 <= j < s@.skip(from as int).len() implies is_digit(
            #[trigger] s@.skip(from as int)[j],
        ) by {
            assert(s@.skip(from as int)[j] == s@[j + from]);
        }
    }
    true
}

/// What remains of `s` after a prefix it is known to start with.
pub fn suffix_after(s: &str, prefix: &str) -> (r: String)
    requires
        s@.len() >= prefix@.len(),
        s@.take(prefix@.len() as int) == prefix@,
    ensures
        r@ == s@.skip(prefix@.len() as int),
{
    let n = s.unicode_len();
    let np = prefix.unicode_len();
    s.substring_char(np, n).to_owned()
}

// ---------------------------------------------------------------------
// Searching
// ---------------------------------------------------------------------

/// Index of the first occurrence of `c` in `s` at or after `from`.
pub open spec fn find_from(s: Seq<char>, from: int, c: char) -> Option<int>
    decreases s.len() - from,
{
    if from < 0 || from >= s.len() {
        None
    } else if s[from] == c {
        Some(from)
    } else {
        find_from(s, from + 1, c)
    }
}

pub proof fn lemma_find_from_props(s: Seq<char>, from: int, c: char)
    requires
        0 <= from,
    ensures
        match find_from(s, from, c) {
            Some(i) => from <= i < s.len() && s[i] == c && forall|j: int|
                from <= j < i ==> s[j] != c,
            None => forall|j: int| from <= j < s.len() ==> s[j] != c,
        },
    decreases s.len() - from,
{
    if from < s.len() && s[from] != c {
        lemma_find_from_props(s, from + 1, c);
    }
}

/// First index of `c` in `s` at or after `from`, if any.
pub fn find_char(s: &str, from: usize, c: char) -> (r: Option<usize>)
    requires
        from <= s@.len(),
    ensures
        match r {
            Some(i) => Some(i as int) == find_from(s@, from as int, c),
            None => find_from(s@, from as int, c) is None,
        },
{
    let n = s.unicode_len();
    let mut i = from;
    while i < n
        invariant
            from <= i <= n,
            n == s@.len(),
            find_from(s@, from as int, c) == find_from(s@, i as int, c),
        decreases n - i,
    {
        if s.get_char(i) == c {
            return Some(i);
        }
        i = i + 1;
    }
    None
}

// ---------------------------------------------------------------------
// Splitting and joining
// ---------------------------------------------------------------------

/// The pieces of `s` between occurrences of `sep`; always at least one
/// piece, and none of the pieces holds `sep`.
pub open spec fn split_on(s: Seq<char>, sep: char) -> Seq<Seq<char>>
    decreases s.len(),
{
    if s.len() == 0 {
        seq![Seq::<char>::empty()]
    } else {
        let rest = split_on(s.drop_last(), sep);
        if s.last() == sep {
            rest.push(Seq::<char>::empty())
        } else {
            rest.update(rest.len() - 1, rest.last().push(s.last()))
        }
    }
}

pub proof fn lemma_split_on_nonempty(s: Seq<char>, sep: char)
    ensures
        split_on(s, sep).len() >= 1,
    decreases s.len(),
{
    if s.len() > 0 {
        lemma_split_on_nonempty(s.drop_last(), sep);
    }
}

/// The pieces joined back with `sep` between them.
pub open spec fn join_with(ls: Seq<Seq<char>>, sep: char) -> Seq<char>
    decreases ls.len(),
{
    if ls.len() == 0 {
        Seq::<char>::empty()
    } else if ls.len() == 1 {
        ls[0]
    } else {
        join_with(ls.drop_last(), sep) + seq![sep] + ls.last()
    }
}

pub open spec fn sep_free(s: Seq<char>, sep: char) -> bool {
    forall|i: int| 0 <= i < s.len() ==> s[i] != sep
}

pub open spec fn all_sep_free(ls: Seq<Seq<char>>, sep: char) -> bool {
    forall|i: int| 0 <= i < ls.len() ==> sep_free(#[trigger] ls[i], sep)
}

proof fn lemma_split_sep_free(s: Seq<char>, sep: char)
    requires
        sep_free(s, sep),
    ensures
        split_on(s, sep) =~~= seq![s],
    decreases s.len(),
{
    if s.len() > 0 {
        lemma_split_sep_free(s.drop_last(), sep);
        assert(split_on(s, sep) =~~= seq![s.drop_last().push(s.last())]);
        assert(s.drop_last().push(s.last()) =~= s);
    }
}

proof fn lemma_split_append_piece(a: Seq<char>, b: Seq<char>, sep: char)
    requires
        sep_free(b, sep),
    ensures
        split_on(a + seq![sep] + b, sep) =~~= split_on(a, sep) + seq![b],
    decreases b.len(),
{
    lemma_split_on_nonempty(a, sep);
    if b.len() == 0 {
        let w = a + seq![sep] + b;
        assert(w =~= a.push(sep));
        assert(w.drop_last() =~= a);
        assert(split_on(w, sep) =~~= split_on(a, sep).push(Seq::<char>::empty()));
        assert(split_on(a, sep).push(Seq::<char>::empty()) =~~= split_on(a, sep) + seq![b]);
    } else {
        lemma_split_append_piece(a, b.drop_last(), sep);
        let w = a + seq![sep] + b;
        let prev = a + seq![sep] + b.drop_last();
        assert(w.drop_last() =~= prev);
        assert(w.last() == b.last());
        let rest = split_on(prev, sep);
        assert(rest =~~= split_on(a, sep) + seq![b.drop_last()]);
        lemma_split_on_nonempty(prev, sep);
        assert(split_on(w, sep) =~~= rest.update(rest.len() - 1, rest.last().push(b.last())));
        assert(rest.last() =~= b.drop_last());
        assert(b.drop_last().push(b.last()) =~= b);
    }
}

/// Pieces free of the separator stay so under concatenation.
pub proof fn lemma_all_sep_free_append(a: Seq<Seq<char>>, b: Seq<Seq<char>>, sep: char)
    requires
        all_sep_free(a, sep),
        all_sep_free(b, sep),
    ensures
        all_sep_free(a + b, sep),
{
    assert forall|i: int| 0 <= i < (a + b).len() implies sep_free(#[trigger] (a + b)[i], sep) by {
        if i < a.len() {
            assert((a + b)[i] == a[i]);
        } else {
            assert((a + b)[i] == b[i - a.len()]);
        }
    }
}

/// Splitting undoes joining, as long as no piece holds the separator.
pub proof fn lemma_split_join(ls: Seq<Seq<char>>, sep: char)
    requires
        ls.len() >= 1,
        all_sep_free(ls, sep),
    ensures
        split_on(join_with(ls, sep), sep) =~~= ls,
    decreases ls.len(),
{
    if ls.len() == 1 {
        lemma_split_sep_free(ls[0], sep);
        assert(seq![ls[0]] =~~= ls);
    } else {
        lemma_split_join(ls.drop_last(), sep);
        lemma_split_append_piece(join_with(ls.drop_last(), sep), ls.last(), sep);
        assert(split_on(join_with(ls, sep), sep) =~~= split_on(
            join_with(ls.drop_last(), sep),
            sep,
        ) + seq![ls.last()]);
        assert(ls.drop_last() + seq![ls.last()] =~~= ls);
    }
}

/// The pieces of `s` between occurrences of `sep`, in order.
pub fn split_str(s: &str, sep: char) -> (r: Vec<String>)
    ensures
        r.deep_view() == split_on(s@, sep),
{
    let n = s.unicode_len();
    let mut out: Vec<String> = Vec::new();
    let mut start: usize = 0;
    let mut i: usize = 0;
    while i < n
        invariant
            0 <= start <= i <= n,
            n == s@.len(),
            split_on(s@.take(i as int), sep) =~~= out.deep_view() + seq![
                s@.subrange(start as int, i as int),
            ],
        decreases n - i,
    {
        let c = s.get_char(i);
        proof {
            assert(s@.take(i + 1).drop_last() =~= s@.take(i as int));
            assert(s@.take(i + 1).last() == s@[i as int]);
            lemma_split_on_nonempty(s@.take(i as int), sep);
        }
        if c == sep {
            let piece = s.substring_char(start, i).to_owned();
            out.push(piece);
            start = i + 1;
            proof {
                assert(s@.subrange(start as int, i + 1) =~= Seq::<char>::empty());
                assert(split_on(s@.take(i + 1), sep) =~~= out.deep_view() + seq![
                    s@.subrange(start as int, i + 1),
                ]);
            }
        } else {
            proof {
                let old_split = out.deep_view() + seq![s@.subrange(start as int, i as int)];
                assert(old_split.last() =~= s@.subrange(start as int, i as int));
                assert(s@.subrange(start as int, i as int).push(s@[i as int]) =~= s@.subrange(
                    start as int,
                    i + 1,
                ));
                assert(old_split.update(old_split.len() - 1, s@.subrange(start as int, i + 1))
                    =~~= out.deep_view() + seq![s@.subrange(start as int, i + 1)]);
            }
        }
        i = i + 1;
    }
    let piece = s.substring_char(start, n).to_owned();
    out.push(piece);
    proof {
        assert(s@.take(n as int) =~= s@);
    }
    out
}

/// The lines joined with `sep` between them.
pub fn join_str(ls: &Vec<String>, sep: &str) -> (r: String)
    requires
        ls.len() >= 1,
        sep@.len() == 1,
    ensures
        r@ == join_with(ls.deep_view(), sep@[0]),
{
    let mut out = String::new();
    out.append(ls[0].as_str());
    let mut i: usize = 1;
    while i < ls.len()
        invariant
            1 <= i <= ls.len(),
            sep@.len() == 1,
            out@ == join_with(ls.deep_view().take(i as int), sep@[0]),
        decreases ls.len() - i,
    {
        out.append(sep);
        out.append(ls[i].as_str());
        proof {
            let pre = ls.deep_view().take(i + 1);
            assert(pre.drop_last() =~= ls.deep_view().take(i as int));
            assert(pre.last() =~= ls[i as int]@);
            assert(seq![sep@[0]] =~= sep@);
            assert(out@ =~= join_with(pre, sep@[0]));
        }
        i = i + 1;
    }
    proof {
        assert(ls.deep_view().take(ls.len() as int) =~= ls.deep_view());
    }
    out
}

} // verus!
