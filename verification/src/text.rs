//! Verified text helpers: equality, search, trimming and ASCII case mapping
//! over `&str` values, stated against their `Seq<char>` views.

use vstd::prelude::*;

verus! {

use vstd::string::StrSliceExecFns;

/// Relies on std's String::push: appends exactly the given character.
/// (vstd specifies String construction and append of a `&str`, but not push
/// of a single `char`.)
pub assume_specification[ String::push ](s: &mut String, ch: char)
    ensures
        final(s)@ == old(s)@.push(ch),
;

/// Character equality of two strings.
pub fn str_eq(a: &str, b: &str) -> (r: bool)
    ensures
        r == (a@ == b@),
{
    let na = a.unicode_len();
    let nb = b.unicode_len();
    if na != nb {
        return false;
    }
    let mut i: usize = 0;
    while i < na
        invariant
            i <= na,
            na == a@.len(),
            nb == b@.len(),
            na == nb,
            forall|j: int| 0 <= j < i ==> a@[j] == b@[j],
        decreases na - i,
    {
        if a.get_char(i) != b.get_char(i) {
            return false;
        }
        i = i + 1;
    }
    proof {
        assert(a@ =~= b@);
    }
    true
}

/// The pattern occurs in the string starting at index `i`.
pub open spec fn match_at(s: Seq<char>, pat: Seq<char>, i: int) -> bool {
    &&& 0 <= i
    &&& i + pat.len() <= s.len()
    &&& forall|k: int| 0 <= k < pat.len() ==> s[i + k] == pat[k]
}

/// The pattern occurs somewhere in the string.
pub open spec fn contains_seq(s: Seq<char>, pat: Seq<char>) -> bool {
    exists|i: int| match_at(s, pat, i)
}

fn matches_at(s: &str, pat: &str, i: usize) -> (r: bool)
    requires
        i + pat@.len() <= s@.len(),
    ensures
        r == match_at(s@, pat@, i as int),
{
    let m = pat.unicode_len();
    let _n_known: usize = s.unicode_len();
    let mut k: usize = 0;
    while k < m
        invariant
            k <= m,
            m == pat@.len(),
            i + m <= s@.len(),
            s@.len() <= usize::MAX,
            forall|t: int| 0 <= t < k ==> s@[i + t] == pat@[t],
        decreases m - k,
    {
        if s.get_char(i + k) != pat.get_char(k) {
            return false;
        }
        k = k + 1;
    }
    true
}

/// Substring search.
pub fn str_contains(s: &str, pat: &str) -> (r: bool)
    ensures
        r == contains_seq(s@, pat@),
{
    let n = s.unicode_len();
    let m = pat.unicode_len();
    if m > n {
        return false;
    }
    let mut i: usize = 0;
    while i <= n - m
        invariant
            m <= n,
            n == s@.len(),
            m == pat@.len(),
            i <= n - m + 1,
            forall|t: int| 0 <= t < i ==> !match_at(s@, pat@, t),
        decreases n - i,
    {
        if matches_at(s, pat, i) {
            return true;
        }
        i = i + 1;
    }
    proof {
        assert(forall|t: int| t > n - m ==> !match_at(s@, pat@, t));
    }
    false
}

/// Prefix test.
pub fn str_starts_with(s: &str, pat: &str) -> (r: bool)
    ensures
        r == (pat@.len() <= s@.len() && match_at(s@, pat@, 0)),
{
    let n = s.unicode_len();
    let m = pat.unicode_len();
    if m > n {
        return false;
    }
    matches_at(s, pat, 0)
}

/// Rightmost occurrence of the pattern, if any.
pub fn str_rfind(s: &str, pat: &str) -> (r: Option<usize>)
    ensures
        match r {
            Some(i) => match_at(s@, pat@, i as int) && forall|t: int|
                t > i ==> !match_at(s@, pat@, t),
            None => forall|t: int| !match_at(s@, pat@, t),
        },
{
    let n = s.unicode_len();
    let m = pat.unicode_len();
    if m > n {
        proof {
            assert(forall|t: int| !match_at(s@, pat@, t));
        }
        return None;
    }
    let mut i: usize = n - m;
    loop
        invariant
            m <= n,
            n == s@.len(),
            m == pat@.len(),
            i <= n - m,
            forall|t: int| t > i ==> !match_at(s@, pat@, t),
        decreases i,
    {
        if matches_at(s, pat, i) {
            return Some(i);
        }
        if i == 0 {
            proof {
                assert(forall|t: int| !match_at(s@, pat@, t));
            }
            return None;
        }
        i = i - 1;
    }
}

/// ASCII whitespace.
pub open spec fn is_space(c: char) -> bool {
    c == ' ' || c == '\t' || c == '\n' || c == '\r'
}

/// Exec test for ASCII whitespace.
pub fn is_space_char(c: char) -> (r: bool)
    ensures
        r == is_space(c),
{
    c == ' ' || c == '\t' || c == '\n' || c == '\r'
}

/// The string without its leading whitespace.
pub open spec fn trim_start_rec(s: Seq<char>) -> Seq<char>
    decreases s.len(),
{
    if s.len() > 0 && is_space(s[0]) {
        trim_start_rec(s.drop_first())
    } else {
        s
    }
}

/// The string without its trailing whitespace.
pub open spec fn trim_end_rec(s: Seq<char>) -> Seq<char>
    decreases s.len(),
{
    if s.len() > 0 && is_space(s.last()) {
        trim_end_rec(s.drop_last())
    } else {
        s
    }
}

/// The string without leading and trailing whitespace.
pub open spec fn trimmed(s: Seq<char>) -> Seq<char> {
    trim_end_rec(trim_start_rec(s))
}

/// Strip leading and trailing ASCII whitespace.
pub fn str_trim(s: &str) -> (r: &str)
    ensures
        r@ == trimmed(s@),
{
    let n = s.unicode_len();
    proof {
        assert(s@.skip(0) =~= s@);
    }
    let mut start: usize = 0;
    while start < n && is_space_char(s.get_char(start))
        invariant
            start <= n,
            n == s@.len(),
            trim_start_rec(s@) == trim_start_rec(s@.skip(start as int)),
        decreases n - start,
    {
        proof {
            assert(s@.skip(start as int).drop_first() =~= s@.skip(start as int + 1));
        }
        start = start + 1;
    }
    proof {
        assert(trim_start_rec(s@.skip(start as int)) == s@.skip(start as int));
        assert(s@.skip(start as int) =~= s@.subrange(start as int, n as int));
    }
    let mut end: usize = n;
    while end > start && is_space_char(s.get_char(end - 1))
        invariant
            start <= end <= n,
            n == s@.len(),
            trim_start_rec(s@) == s@.subrange(start as int, n as int),
            trim_end_rec(s@.subrange(start as int, n as int)) == trim_end_rec(
                s@.subrange(start as int, end as int),
            ),
        decreases end,
    {
        proof {
            assert(s@.subrange(start as int, end as int).drop_last() =~= s@.subrange(
                start as int,
                end as int - 1,
            ));
        }
        end = end - 1;
    }
    proof {
        assert(trim_end_rec(s@.subrange(start as int, end as int)) == s@.subrange(
            start as int,
            end as int,
        ));
    }
    s.substring_char(start, end)
}

/// Whitespace splitting, folded from the left: `cur` is the token being
/// accumulated, `acc` the tokens already complete.
pub open spec fn split_ws_from(s: Seq<char>, i: int, cur: Seq<char>, acc: Seq<Seq<char>>) -> Seq<
    Seq<char>,
>
    decreases s.len() - i,
{
    if i < 0 || i >= s.len() {
        if cur.len() > 0 {
            acc.push(cur)
        } else {
            acc
        }
    } else if is_space(s[i]) {
        split_ws_from(
            s,
            i + 1,
            Seq::empty(),
            if cur.len() > 0 {
                acc.push(cur)
            } else {
                acc
            },
        )
    } else {
        split_ws_from(s, i + 1, cur.push(s[i]), acc)
    }
}

/// The maximal whitespace-free tokens of a string, in order.
pub open spec fn split_whitespace_seq(s: Seq<char>) -> Seq<Seq<char>> {
    split_ws_from(s, 0, Seq::empty(), Seq::empty())
}

/// Split a string at ASCII whitespace into its maximal non-blank tokens.
pub fn str_split_whitespace(s: &str) -> (r: Vec<String>)
    ensures
        r.deep_view() == split_whitespace_seq(s@),
{
    let n = s.unicode_len();
    let mut out: Vec<String> = Vec::new();
    let mut cur = String::new();
    proof {
        assert(out.deep_view() =~= Seq::<Seq<char>>::empty());
    }
    let mut i: usize = 0;
    while i < n
        invariant
            i <= n,
            n == s@.len(),
            split_ws_from(s@, i as int, cur@, out.deep_view()) == split_whitespace_seq(s@),
        decreases n - i,
    {
        let c = s.get_char(i);
        let ghost pre_cur = cur@;
        let ghost pre_out = out.deep_view();
        if is_space_char(c) {
            if !cur.as_str().is_empty() {
                let mut done = String::new();
                core::mem::swap(&mut done, &mut cur);
                out.push(done);
                proof {
                    assert(out.deep_view() =~= pre_out.push(pre_cur));
                }
            } else {
                proof {
                    assert(cur@ =~= Seq::<char>::empty());
                }
            }
        } else {
            cur.push(c);
            proof {
                assert(out.deep_view() =~= pre_out);
            }
        }
        i = i + 1;
    }
    if !cur.as_str().is_empty() {
        let ghost pre_out = out.deep_view();
        let ghost pre_cur = cur@;
        out.push(cur);
        proof {
            assert(out.deep_view() =~= pre_out.push(pre_cur));
        }
    }
    out
}

/// An ASCII decimal digit.
pub open spec fn is_digit(c: char) -> bool {
    '0' <= c && c <= '9'
}

/// The value of one decimal digit.
pub open spec fn digit_val(c: char) -> int {
    c as u32 - '0' as u32
}

/// A non-empty run of decimal digits.
pub open spec fn all_digits(s: Seq<char>) -> bool {
    s.len() > 0 && forall|i: int| 0 <= i < s.len() ==> is_digit(s[i])
}

/// The value of a digit run.
pub open spec fn digits_val(s: Seq<char>) -> int
    decreases s.len(),
{
    if s.len() == 0 {
        0
    } else {
        digits_val(s.drop_last()) * 10 + digit_val(s.last())
    }
}

/// What `str::parse::<u8>` accepts: an optional leading `+`, then decimal
/// digits whose value fits in a byte.
pub open spec fn parse_u8_seq(s: Seq<char>) -> Option<u8> {
    let body = if s.len() > 0 && s[0] == '+' {
        s.drop_first()
    } else {
        s
    };
    if all_digits(body) && digits_val(body) <= 255 {
        Some(digits_val(body) as u8)
    } else {
        None
    }
}

proof fn lemma_digits_val_nonneg(s: Seq<char>)
    requires
        forall|i: int| 0 <= i < s.len() ==> is_digit(s[i]),
    ensures
        digits_val(s) >= 0,
    decreases s.len(),
{
    if s.len() > 0 {
        lemma_digits_val_nonneg(s.drop_last());
    }
}

/// Parse a decimal byte as `str::parse::<u8>` does.
pub fn parse_u8(s: &str) -> (r: Option<u8>)
    ensures
        r == parse_u8_seq(s@),
{
    let n = s.unicode_len();
    let start: usize = if n > 0 && s.get_char(0) == '+' {
        1
    } else {
        0
    };
    let ghost body = if s@.len() > 0 && s@[0] == '+' {
        s@.drop_first()
    } else {
        s@
    };
    proof {
        assert(body =~= s@.skip(start as int));
    }
    if start == n {
        return None;
    }
    // `acc` equals the value of the digits seen so far, saturated to 256 once
    // the value can no longer fit in a byte.
    let mut acc: u16 = 0;
    let mut i: usize = start;
    while i < n
        invariant
            start <= i <= n,
            n == s@.len(),
            body == s@.skip(start as int),
            body == (if s@.len() > 0 && s@[0] == '+' {
                s@.drop_first()
            } else {
                s@
            }),
            acc <= 256,
            forall|j: int| start <= j < i ==> is_digit(s@[j]),
            acc <= 255 ==> acc == digits_val(s@.subrange(start as int, i as int)),
            acc == 256 ==> digits_val(s@.subrange(start as int, i as int)) > 255,
        decreases n - i,
    {
        let c = s.get_char(i);
        if c < '0' || c > '9' {
            proof {
                assert(body[i - start] == s@[i as int]);
                assert(!all_digits(body));
            }
            return None;
        }
        let d: u16 = ((c as u8) - 48) as u16;
        let ghost prefix = s@.subrange(start as int, i as int);
        let ghost prefix1 = s@.subrange(start as int, i as int + 1);
        proof {
            assert(prefix1.drop_last() =~= prefix);
            assert(prefix1.last() == s@[i as int]);
            assert(digits_val(prefix1) == digits_val(prefix) * 10 + digit_val(s@[i as int]));
            if acc == 256 {
                lemma_digits_val_nonneg(prefix);
                assert(digits_val(prefix) * 10 + digit_val(s@[i as int]) > 255) by (nonlinear_arith)
                    requires
                        digits_val(prefix) > 255,
                        digit_val(s@[i as int]) >= 0,
                ;
            }
        }
        let next: u16 = acc * 10 + d;
        acc = if next > 255 {
            256
        } else {
            next
        };
        i = i + 1;
    }
    proof {
        assert(s@.subrange(start as int, n as int) =~= body);
        assert(all_digits(body));
    }
    if acc > 255 {
        None
    } else {
        Some(acc as u8)
    }
}


/// One decimal digit character.
pub open spec fn dec_digit(n: u32) -> char {
    if n == 0 {
        '0'
    } else if n == 1 {
        '1'
    } else if n == 2 {
        '2'
    } else if n == 3 {
        '3'
    } else if n == 4 {
        '4'
    } else if n == 5 {
        '5'
    } else if n == 6 {
        '6'
    } else if n == 7 {
        '7'
    } else if n == 8 {
        '8'
    } else {
        '9'
    }
}

fn dec_digit_char(n: u32) -> (c: char)
    requires
        n < 10,
    ensures
        c == dec_digit(n),
{
    if n == 0 {
        '0'
    } else if n == 1 {
        '1'
    } else if n == 2 {
        '2'
    } else if n == 3 {
        '3'
    } else if n == 4 {
        '4'
    } else if n == 5 {
        '5'
    } else if n == 6 {
        '6'
    } else if n == 7 {
        '7'
    } else if n == 8 {
        '8'
    } else {
        '9'
    }
}

/// The decimal rendering of an unsigned value, most significant digit first.
pub open spec fn spec_u32_decimal(v: u32) -> Seq<char>
    decreases v,
{
    if v < 10 {
        seq![dec_digit(v)]
    } else {
        spec_u32_decimal(v / 10).push(dec_digit(v % 10))
    }
}

/// Render an unsigned value in decimal.
pub fn u32_to_decimal(v: u32) -> (r: String)
    ensures
        r@ == spec_u32_decimal(v),
    decreases v,
{
    if v < 10 {
        let mut s = String::new();
        s.push(dec_digit_char(v));
        proof {
            assert(s@ =~= seq![dec_digit(v as u32)]);
        }
        s
    } else {
        proof {
            assert(v / 10 < v) by (nonlinear_arith)
                requires
                    v >= 10,
            ;
        }
        let mut s = u32_to_decimal(v / 10);
        s.push(dec_digit_char(v % 10));
        s
    }
}


/// The decimal rendering of a signed value: a minus sign and the magnitude.
pub open spec fn spec_i32_decimal(v: i32) -> Seq<char> {
    if v >= 0 {
        spec_u32_decimal(v as u32)
    } else {
        seq!['-'] + spec_u32_decimal((-(v as i64)) as u32)
    }
}

/// Render a signed value in decimal.
pub fn i32_to_decimal(v: i32) -> (r: String)
    ensures
        r@ == spec_i32_decimal(v),
{
    if v >= 0 {
        u32_to_decimal(v as u32)
    } else {
        let magnitude: u32 = (-(v as i64)) as u32;
        let mut s = String::new();
        s.push('-');
        proof {
            assert(s@ =~= seq!['-']);
        }
        s.append(u32_to_decimal(magnitude).as_str());
        s
    }
}

/// What `str::parse::<u32>` accepts: an optional leading `+`, then decimal
/// digits whose value fits in 32 bits.
pub open spec fn parse_u32_seq(s: Seq<char>) -> Option<u32> {
    let body = if s.len() > 0 && s[0] == '+' {
        s.drop_first()
    } else {
        s
    };
    if all_digits(body) && digits_val(body) <= u32::MAX {
        Some(digits_val(body) as u32)
    } else {
        None
    }
}

/// Parse a decimal 32-bit value as `str::parse::<u32>` does.
pub fn parse_u32(s: &str) -> (r: Option<u32>)
    ensures
        r == parse_u32_seq(s@),
{
    let n = s.unicode_len();
    let start: usize = if n > 0 && s.get_char(0) == '+' {
        1
    } else {
        0
    };
    let ghost body = if s@.len() > 0 && s@[0] == '+' {
        s@.drop_first()
    } else {
        s@
    };
    proof {
        assert(body =~= s@.skip(start as int));
    }
    if start == n {
        return None;
    }
    // `acc` equals the value of the digits seen so far, saturated once the
    // value can no longer fit in 32 bits.
    let bound: u64 = 0x1_0000_0000;
    let mut acc: u64 = 0;
    let mut i: usize = start;
    while i < n
        invariant
            start <= i <= n,
            n == s@.len(),
            body == s@.skip(start as int),
            body == (if s@.len() > 0 && s@[0] == '+' {
                s@.drop_first()
            } else {
                s@
            }),
            bound == 0x1_0000_0000u64,
            acc <= bound,
            forall|j: int| start <= j < i ==> is_digit(s@[j]),
            acc < bound ==> acc == digits_val(s@.subrange(start as int, i as int)),
            acc == bound ==> digits_val(s@.subrange(start as int, i as int)) > u32::MAX,
        decreases n - i,
    {
        let c = s.get_char(i);
        if c < '0' || c > '9' {
            proof {
                assert(body[i - start] == s@[i as int]);
                assert(!all_digits(body));
            }
            return None;
        }
        let d: u64 = ((c as u8) - 48) as u64;
        let ghost prefix = s@.subrange(start as int, i as int);
        let ghost prefix1 = s@.subrange(start as int, i as int + 1);
        proof {
            assert(prefix1.drop_last() =~= prefix);
            assert(prefix1.last() == s@[i as int]);
            assert(digits_val(prefix1) == digits_val(prefix) * 10 + digit_val(s@[i as int]));
            if acc == bound {
                lemma_digits_val_nonneg(prefix);
                assert(digits_val(prefix) * 10 + digit_val(s@[i as int]) > u32::MAX)
                    by (nonlinear_arith)
                    requires
                        digits_val(prefix) > u32::MAX,
                        digit_val(s@[i as int]) >= 0,
                ;
            }
        }
        let next: u64 = acc * 10 + d;
        acc = if next >= bound {
            bound
        } else {
            next
        };
        proof {
            if acc == bound && next > bound {
                assert(digits_val(prefix1) > u32::MAX);
            }
        }
        i = i + 1;
    }
    proof {
        assert(s@.subrange(start as int, n as int) =~= body);
        assert(all_digits(body));
    }
    if acc >= bound {
        None
    } else {
        Some(acc as u32)
    }
}


/// The tail of a joined list: separator then element, from `i` on.
pub open spec fn spec_join_tail(parts: Seq<Seq<char>>, sep: Seq<char>, i: int) -> Seq<char>
    decreases parts.len() - i,
{
    if i < 0 || i >= parts.len() {
        Seq::empty()
    } else {
        sep + parts[i] + spec_join_tail(parts, sep, i + 1)
    }
}

/// The elements joined with the separator between them.
pub open spec fn spec_join(parts: Seq<Seq<char>>, sep: Seq<char>) -> Seq<char> {
    if parts.len() == 0 {
        Seq::empty()
    } else {
        parts[0] + spec_join_tail(parts, sep, 1)
    }
}

/// Join strings with a separator between them.
pub fn join_with(parts: &Vec<String>, sep: &str) -> (r: String)
    ensures
        r@ == spec_join(parts.deep_view(), sep@),
{
    let ghost model = parts.deep_view();
    let mut out = String::new();
    if parts.len() == 0 {
        return out;
    }
    proof {
        assert(model[0] == parts@[0]@);
    }
    out.append(parts[0].as_str());
    let mut i: usize = 1;
    while i < parts.len()
        invariant
            1 <= i <= parts@.len(),
            model == parts.deep_view(),
            model.len() == parts@.len(),
            out@ + spec_join_tail(model, sep@, i as int) == spec_join(model, sep@),
        decreases parts@.len() - i,
    {
        proof {
            assert(model[i as int] == parts@[i as int]@);
        }
        out.append(sep);
        out.append(parts[i].as_str());
        proof {
            assert(out@ + spec_join_tail(model, sep@, i as int + 1) =~= spec_join(model, sep@));
        }
        i = i + 1;
    }
    proof {
        assert(out@ + spec_join_tail(model, sep@, parts@.len() as int) =~= out@);
    }
    out
}

/// Lexicographic order on character sequences: the order `str` comparison
/// gives (UTF-8 byte order and character order agree).
pub open spec fn seq_le(a: Seq<char>, b: Seq<char>) -> bool
    decreases a.len(),
{
    if a.len() == 0 {
        true
    } else if b.len() == 0 {
        false
    } else if (a[0] as u32) != (b[0] as u32) {
        (a[0] as u32) < (b[0] as u32)
    } else {
        seq_le(a.drop_first(), b.drop_first())
    }
}

/// Lexicographic comparison of two strings.
pub fn str_le(a: &str, b: &str) -> (r: bool)
    ensures
        r == seq_le(a@, b@),
{
    let na = a.unicode_len();
    let nb = b.unicode_len();
    proof {
        assert(a@.skip(0) =~= a@);
        assert(b@.skip(0) =~= b@);
    }
    let mut i: usize = 0;
    while i < na && i < nb
        invariant
            i <= na,
            i <= nb,
            na == a@.len(),
            nb == b@.len(),
            seq_le(a@, b@) == seq_le(a@.skip(i as int), b@.skip(i as int)),
        decreases na - i,
    {
        let ca = a.get_char(i);
        let cb = b.get_char(i);
        if (ca as u32) != (cb as u32) {
            return (ca as u32) < (cb as u32);
        }
        proof {
            assert(a@.skip(i as int).drop_first() =~= a@.skip(i as int + 1));
            assert(b@.skip(i as int).drop_first() =~= b@.skip(i as int + 1));
        }
        i = i + 1;
    }
    na <= nb
}

/// ASCII lower-casing of one character; other characters pass unchanged.
pub open spec fn lower_char(c: char) -> char {
    if 'A' <= c && c <= 'Z' {
        ((c as u32) + 32) as char
    } else {
        c
    }
}

/// ASCII upper-casing of one character; other characters pass unchanged.
pub open spec fn upper_char(c: char) -> char {
    if 'a' <= c && c <= 'z' {
        ((c as u32) - 32) as char
    } else {
        c
    }
}

/// Exec ASCII lower-casing of one character.
pub fn to_lower_char(c: char) -> (r: char)
    ensures
        r == lower_char(c),
{
    if 'A' <= c && c <= 'Z' {
        (((c as u8) + 32) as char)
    } else {
        c
    }
}

/// Exec ASCII upper-casing of one character.
pub fn to_upper_char(c: char) -> (r: char)
    ensures
        r == upper_char(c),
{
    if 'a' <= c && c <= 'z' {
        (((c as u8) - 32) as char)
    } else {
        c
    }
}

/// ASCII lower-casing of a whole string.
pub open spec fn lower_seq(s: Seq<char>) -> Seq<char> {
    s.map_values(|c: char| lower_char(c))
}

/// Lower-case a string, ASCII letters only.
pub fn str_to_lower(s: &str) -> (r: String)
    ensures
        r@ == lower_seq(s@),
{
    let n = s.unicode_len();
    let mut out = String::new();
    let mut i: usize = 0;
    while i < n
        invariant
            i <= n,
            n == s@.len(),
            out@ == lower_seq(s@.take(i as int)),
        decreases n - i,
    {
        out.push(to_lower_char(s.get_char(i)));
        proof {
            assert(lower_seq(s@.take(i as int + 1)) =~= lower_seq(s@.take(i as int)).push(
                lower_char(s@[i as int]),
            ));
        }
        i = i + 1;
    }
    proof {
        assert(s@.take(n as int) =~= s@);
    }
    out
}

} // verus!
