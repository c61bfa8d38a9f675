//! Reading request and response heads, one line at a time.
use vstd::prelude::*;
use crate::decimal::{all_digits, is_digit_byte, decimal_reading, digits_value, parse_decimal};

verus! {

/// Why a request head is refused.
#[derive(Debug, Clone, Copy, PartialEq, Eq, Structural)]
pub enum RequestError {
    /// A well-formed request line with a method other than GET.
    UnsupportedHttpMethod,
    InvalidHeader,
}

/// `s` without its line end (`\r\n` or `\n`).
pub open spec fn strip_eol(s: Seq<u8>) -> Seq<u8> {
    if s.len() >= 2 && s[s.len() - 2] == 13u8 && s[s.len() - 1] == 10u8 {
        s.subrange(0, s.len() - 2)
    } else if s.len() >= 1 && s[s.len() - 1] == 10u8 {
        s.subrange(0, s.len() - 1)
    } else {
        s
    }
}

/// Index of the first space in `s` at or after `from`, or `s.len()`.
pub open spec fn space_from(s: Seq<u8>, from: int) -> int
    decreases s.len() - from,
{
    if from >= s.len() {
        s.len() as int
    } else if s[from] == 32u8 {
        from
    } else {
        space_from(s, from + 1)
    }
}

pub open spec fn get_method() -> Seq<u8> {
    seq![71u8, 69u8, 84u8]
}

/// `HTTP/1.` followed by `0` or `1`.
pub open spec fn is_http1_version(v: Seq<u8>) -> bool {
    &&& v.len() == 8
    &&& v.subrange(0, 7) == seq![72u8, 84u8, 84u8, 80u8, 47u8, 49u8, 46u8]
    &&& (v[7] == 48u8 || v[7] == 49u8)
}

/// A request target: `/` and then visible ASCII characters.
pub open spec fn is_target(t: Seq<u8>) -> bool {
    &&& t.len() >= 1
    &&& t[0] == 47u8
    &&& forall|k: int| 0 <= k < t.len() ==> 33u8 <= #[trigger] t[k] <= 126u8
}

/// The request line `<method> <target> <version>`: the object path (the
/// target without its leading `/`), or why there is none.
pub open spec fn request_line_spec(line: Seq<u8>) -> Result<Seq<u8>, RequestError> {
    let l = strip_eol(line);
    let i = space_from(l, 0);
    let j = space_from(l, i + 1);
    if i >= l.len() || j >= l.len() || space_from(l, j + 1) != l.len() {
        Err(RequestError::InvalidHeader)
    } else if !is_target(l.subrange(i + 1, j)) || !is_http1_version(l.subrange(j + 1, l.len() as int)) {
        Err(RequestError::InvalidHeader)
    } else if l.subrange(0, i) != get_method() {
        Err(RequestError::UnsupportedHttpMethod)
    } else {
        Ok(l.subrange(i + 2, j))
    }
}

pub open spec fn range_prefix() -> Seq<u8> {
    // "Range: bytes="
    seq![82u8, 97u8, 110u8, 103u8, 101u8, 58u8, 32u8, 98u8, 121u8, 116u8, 101u8, 115u8, 61u8]
}

/// The offset that a header line `Range: bytes=<start>-` asks to resume at;
/// nothing for any other line.
pub open spec fn range_header_spec(line: Seq<u8>) -> Option<u64> {
    let l = strip_eol(line);
    let p = range_prefix().len();
    if l.len() >= p + 2 && l.subrange(0, p as int) == range_prefix() && l.last() == 45u8 {
        decimal_reading(l.subrange(p as int, l.len() - 1))
    } else {
        None
    }
}

fn eol_len(line: &[u8]) -> (r: usize)
    ensures
        r <= line@.len(),
        strip_eol(line@) == line@.subrange(0, line@.len() - r),
{
    let n = line.len();
    if n >= 2 && line[n - 2] == 13u8 && line[n - 1] == 10u8 {
        2
    } else if n >= 1 && line[n - 1] == 10u8 {
        1
    } else {
        assert(line@.subrange(0, n as int) =~= line@);
        0
    }
}

fn find_space(l: &[u8], n: usize, from: usize) -> (r: usize)
    requires
        n <= l@.len(),
        from <= n,
    ensures
        r == space_from(l@.subrange(0, n as int), from as int),
        from <= r <= n,
{
    let ghost s = l@.subrange(0, n as int);
    let mut k = from;
    while k < n && l[k] != 32u8
        invariant
            from <= k <= n,
            n <= l@.len(),
            s == l@.subrange(0, n as int),
            space_from(s, from as int) == space_from(s, k as int),
        decreases n - k,
    {
        k = k + 1;
    }
    k
}

fn matches_at(l: &[u8], start: usize, pat: &Vec<u8>) -> (r: bool)
    requires
        start + pat@.len() <= l@.len(),
    ensures
        r == (l@.subrange(start as int, start + pat@.len()) == pat@),
{
    let n = l.len();
    let mut k: usize = 0;
    while k < pat.len()
        invariant
            n == l@.len(),
            start + pat@.len() <= l@.len(),
            k <= pat@.len(),
            forall|m: int| 0 <= m < k ==> l@[start + m] == pat@[m],
        decreases pat@.len() - k,
    {
        if l[start + k] != pat[k] {
            assert(l@.subrange(start as int, start + pat@.len())[k as int] != pat@[k as int]);
            return false;
        }
        k = k + 1;
    }
    assert(l@.subrange(start as int, start + pat@.len()) =~= pat@);
    true
}

/// Reads a request line: the requested object path without the leading `/`.
pub fn parse_request_line(line: &[u8]) -> (r: Result<Vec<u8>, RequestError>)
    ensures
        match r {
            Ok(p) => request_line_spec(line@) == Ok::<Seq<u8>, RequestError>(p@),
            Err(e) => request_line_spec(line@) == Err::<Seq<u8>, RequestError>(e),
        },
{
    let n = line.len() - eol_len(line);
    let ghost l = strip_eol(line@);
    let i = find_space(line, n, 0);
    if i >= n {
        return Err(RequestError::InvalidHeader);
    }
    let j = find_space(line, n, i + 1);
    if j >= n {
        return Err(RequestError::InvalidHeader);
    }
    let e = find_space(line, n, j + 1);
    if e != n {
        return Err(RequestError::InvalidHeader);
    }
    // The target: '/' and visible ASCII.
    let mut target_ok = j > i + 1 && line[i + 1] == 47u8;
    let mut k = i + 1;
    while k < j
        invariant
            i + 1 <= k <= j,
            j < n <= line@.len(),
            target_ok == (j > i + 1 && line@[i + 1] == 47u8 && forall|m: int|
                i + 1 <= m < k ==> 33u8 <= #[trigger] line@[m] <= 126u8),
        decreases j - k,
    {
        if line[k] < 33u8 || line[k] > 126u8 {
            target_ok = false;
        }
        k = k + 1;
    }
    assert(l.subrange(i + 1, j as int) =~= line@.subrange(i + 1, j as int));
    proof {
        let t = l.subrange(i + 1, j as int);
        if target_ok {
            assert forall|m: int| 0 <= m < t.len() implies 33u8 <= #[trigger] t[m] <= 126u8 by {
                assert(t[m] == line@[i + 1 + m]);
            }
        } else if j > i + 1 && line@[i + 1] == 47u8 {
            let m = choose|m: int| i + 1 <= m < j && !(33u8 <= #[trigger] line@[m] <= 126u8);
            assert(t[m - i - 1] == line@[m]);
        }
    }
    let version_prefix: Vec<u8> = vec![72u8, 84u8, 84u8, 80u8, 47u8, 49u8, 46u8];
    assert(version_prefix@ =~= seq![72u8, 84u8, 84u8, 80u8, 47u8, 49u8, 46u8]);
    let version_ok = n - j == 9 && matches_at(line, j + 1, &version_prefix) && (line[j + 8] == 48u8
        || line[j + 8] == 49u8);
    proof {
        let v = l.subrange(j + 1, n as int);
        if n - j == 9 {
            assert(v.subrange(0, 7) =~= line@.subrange(j + 1, j + 8));
            assert(v[7] == line@[j + 8]);
        }
    }
    if !target_ok || !version_ok {
        return Err(RequestError::InvalidHeader);
    }
    let get: Vec<u8> = vec![71u8, 69u8, 84u8];
    assert(get@ =~= get_method());
    let is_get = i == 3 && matches_at(line, 0, &get);
    proof {
        if i == 3 {
            assert(l.subrange(0, 3) =~= line@.subrange(0, 3));
        }
    }
    if !is_get {
        return Err(RequestError::UnsupportedHttpMethod);
    }
    let mut path: Vec<u8> = Vec::new();
    let mut k = i + 2;
    while k < j
        invariant
            i + 2 <= k <= j,
            j < line@.len(),
            path@ == line@.subrange(i + 2, k as int),
        decreases j - k,
    {
        path.push(line[k]);
        k = k + 1;
        assert(path@ =~= line@.subrange(i + 2, k as int));
    }
    assert(l.subrange(i + 2, j as int) =~= path@);
    Ok(path)
}

/// Reads a header line: the resume offset when it is a `Range: bytes=<n>-`
/// header, `None` for any other line.
pub fn parse_range_header(line: &[u8]) -> (r: Option<u64>)
    ensures
        r == range_header_spec(line@),
{
    let n = line.len() - eol_len(line);
    let ghost l = strip_eol(line@);
    let prefix: Vec<u8> = vec![
        82u8, 97u8, 110u8, 103u8, 101u8, 58u8, 32u8, 98u8, 121u8, 116u8, 101u8, 115u8, 61u8,
    ];
    assert(prefix@ =~= range_prefix());
    if n < 15 || !matches_at(line, 0, &prefix) || line[n - 1] != 45u8 {
        proof {
            if n >= 15 {
                assert(l.subrange(0, 13) =~= line@.subrange(0, 13));
            }
        }
        return None;
    }
    assert(l.subrange(0, 13) =~= line@.subrange(0, 13));
    let digits = slice_part(line, 13, n - 1);
    assert(digits@ =~= l.subrange(13, l.len() - 1));
    parse_decimal(digits.as_slice())
}

fn slice_part(s: &[u8], from: usize, to: usize) -> (r: Vec<u8>)
    requires
        from <= to <= s@.len(),
    ensures
        r@ == s@.subrange(from as int, to as int),
{
    let mut v: Vec<u8> = Vec::new();
    let mut k = from;
    while k < to
        invariant
            from <= k <= to <= s@.len(),
            v@ == s@.subrange(from as int, k as int),
        decreases to - k,
    {
        v.push(s[k]);
        k = k + 1;
        assert(v@ =~= s@.subrange(from as int, k as int));
    }
    v
}

/// The ASCII lower case of a byte.
pub open spec fn ascii_lower(b: u8) -> u8 {
    if 65u8 <= b <= 90u8 {
        (b + 32) as u8
    } else {
        b
    }
}

pub open spec fn content_length_name() -> Seq<u8> {
    // "content-length:"
    seq![99u8, 111u8, 110u8, 116u8, 101u8, 110u8, 116u8, 45u8, 108u8, 101u8, 110u8, 103u8, 116u8, 104u8, 58u8]
}

/// `s` begins with `name`, ignoring ASCII case.
pub open spec fn starts_with_ci(s: Seq<u8>, name: Seq<u8>) -> bool {
    name.len() <= s.len() && forall|k: int| 0 <= k < name.len() ==> ascii_lower(#[trigger] s[k]) == name[k]
}

/// Index of the first byte at or after `from` that is not a space, or `s.len()`.
pub open spec fn skip_spaces(s: Seq<u8>, from: int) -> int
    decreases s.len() - from,
{
    if from >= s.len() {
        s.len() as int
    } else if s[from] != 32u8 {
        from
    } else {
        skip_spaces(s, from + 1)
    }
}

/// The length that a `Content-Length` header line gives (name in any case,
/// spaces before the value); nothing for any other line.
pub open spec fn content_length_header_spec(line: Seq<u8>) -> Option<u64> {
    let l = strip_eol(line);
    let p = content_length_name().len() as int;
    if starts_with_ci(l, content_length_name()) {
        decimal_reading(l.subrange(skip_spaces(l, p), l.len() as int))
    } else {
        None
    }
}

/// The status code of a response line `HTTP/1.<0|1> <three digits>[ <reason>]`.
pub open spec fn status_line_spec(line: Seq<u8>) -> Option<u16> {
    let l = strip_eol(line);
    if l.len() >= 12 && is_http1_version(l.subrange(0, 8)) && l[8] == 32u8 && all_digits(
        l.subrange(9, 12),
    ) && (l.len() == 12 || l[12] == 32u8) {
        Some(digits_value(l.subrange(9, 12)) as u16)
    } else {
        None
    }
}

/// Reads a header line of a response: the length it gives when it is a
/// `Content-Length` header, `None` for any other line.
pub fn parse_content_length_header(line: &[u8]) -> (r: Option<u64>)
    ensures
        r == content_length_header_spec(line@),
{
    let n = line.len() - eol_len(line);
    let ghost l = strip_eol(line@);
    let name: Vec<u8> = vec![
        99u8, 111u8, 110u8, 116u8, 101u8, 110u8, 116u8, 45u8, 108u8, 101u8, 110u8, 103u8, 116u8,
        104u8, 58u8,
    ];
    assert(name@ =~= content_length_name());
    if n < 15 {
        return None;
    }
    let mut k: usize = 0;
    while k < 15
        invariant
            k <= 15 <= n <= line@.len(),
            name@ == content_length_name(),
            l == line@.subrange(0, n as int),
            forall|m: int| 0 <= m < k ==> ascii_lower(#[trigger] l[m]) == name@[m],
        decreases 15 - k,
    {
        let b = line[k];
        let lower = if 65u8 <= b && b <= 90u8 {
            b + 32
        } else {
            b
        };
        if lower != name[k] {
            assert(ascii_lower(l[k as int]) != content_length_name()[k as int]);
            return None;
        }
        k = k + 1;
    }
    let mut v: usize = 15;
    while v < n && line[v] == 32u8
        invariant
            15 <= v <= n <= line@.len(),
            l == line@.subrange(0, n as int),
            skip_spaces(l, 15) == skip_spaces(l, v as int),
        decreases n - v,
    {
        v = v + 1;
    }
    let digits = slice_part(line, v, n);
    assert(digits@ =~= l.subrange(v as int, l.len() as int));
    parse_decimal(digits.as_slice())
}

/// Reads the status line of a response: its status code.
pub fn parse_status_line(line: &[u8]) -> (r: Option<u16>)
    ensures
        r == status_line_spec(line@),
{
    let n = line.len() - eol_len(line);
    let ghost l = strip_eol(line@);
    if n < 12 {
        return None;
    }
    let version_prefix: Vec<u8> = vec![72u8, 84u8, 84u8, 80u8, 47u8, 49u8, 46u8];
    assert(version_prefix@ =~= seq![72u8, 84u8, 84u8, 80u8, 47u8, 49u8, 46u8]);
    let version_ok = matches_at(line, 0, &version_prefix) && (line[7] == 48u8 || line[7] == 49u8);
    assert(l.subrange(0, 8).subrange(0, 7) =~= line@.subrange(0, 7));
    let digits = slice_part(line, 9, 12);
    assert(digits@ =~= l.subrange(9, 12));
    let code = parse_decimal(digits.as_slice());
    let ends_ok = n == 12 || line[12] == 32u8;
    proof {
        assert(l.subrange(0, 8)[7] == line@[7]);
        assert(l[8] == line@[8]);
        if n > 12 {
            assert(l[12] == line@[12]);
        }
        if all_digits(digits@) {
            lemma_three_digits_below_thousand(digits@);
        }
    }
    if !version_ok || line[8] != 32u8 || !ends_ok {
        return None;
    }
    match code {
        Some(c) => {
            Some(c as u16)
        },
        None => None,
    }
}

proof fn lemma_three_digits_below_thousand(s: Seq<u8>)
    requires
        s.len() == 3,
        all_digits(s),
    ensures
        digits_value(s) < 1000,
{
    let s2 = s.drop_last();
    let s1 = s2.drop_last();
    let s0 = s1.drop_last();
    assert(s0.len() == 0);
    assert(digits_value(s0) == 0);
    assert(s1.last() == s[0] && s2.last() == s[1] && s.last() == s[2]);
    assert(is_digit_byte(s[0]) && is_digit_byte(s[1]) && is_digit_byte(s[2]));
    assert(digits_value(s1) == digits_value(s0) * 10 + (s1.last() - 48) as nat);
    assert(digits_value(s2) == digits_value(s1) * 10 + (s2.last() - 48) as nat);
    assert(digits_value(s) == digits_value(s2) * 10 + (s.last() - 48) as nat);
}

/// Tells whether `line` is the blank line that ends a request head.
pub fn is_end_of_head(line: &[u8]) -> (r: bool)
    ensures
        r == (line@.len() > 0 && strip_eol(line@).len() == 0),
{
    line.len() > 0 && eol_len(line) == line.len()
}

} // verus!
