//! The body-framing decision and the byte-level text helpers it needs:
//! ASCII case-insensitive matching, whitespace trimming, and the decimal
//! and hexadecimal numerals that `Content-Length` values and chunk sizes
//! are written in.
use vstd::prelude::*;

verus! {

/// How the body of a request is framed, decided from its header lines.
#[derive(Debug, Clone, Copy, PartialEq, Eq)]
pub enum BodyFraming {
    /// A `Transfer-Encoding: chunked` header is present: the body is a
    /// sequence of length-prefixed chunks ended by a zero-length chunk.
    Chunked,
    /// A `Content-Length` header names the exact byte count of the body.
    ContentLength(usize),
    /// Neither header is present: the request carries no body.
    NoBody,
}

// ---------------------------------------------------------------------------
// ASCII case-insensitive matching
// ---------------------------------------------------------------------------

/// `b` with an ASCII upper-case letter folded to lower case.
pub open spec fn lower_byte(b: u8) -> u8 {
    if 65 <= b <= 90 {
        (b + 32) as u8
    } else {
        b
    }
}

/// The lower-cased pattern `p` occurs in `l` at position `at`,
/// comparing ASCII letters case-insensitively.
pub open spec fn matches_ci_at(l: Seq<u8>, p: Seq<u8>, at: int) -> bool {
    &&& 0 <= at
    &&& at + p.len() <= l.len()
    &&& forall|j: int| 0 <= j < p.len() ==> lower_byte(l[at + j]) == p[j]
}

/// `l` begins, ASCII case-insensitively, with the lower-cased pattern `p`.
pub open spec fn has_prefix_ci(l: Seq<u8>, p: Seq<u8>) -> bool {
    matches_ci_at(l, p, 0)
}

/// The lower-cased pattern `p` occurs, ASCII case-insensitively,
/// somewhere in `l`.
pub open spec fn contains_ci(l: Seq<u8>, p: Seq<u8>) -> bool {
    exists|at: int| matches_ci_at(l, p, at)
}

fn lower(b: u8) -> (r: u8)
    ensures
        r == lower_byte(b),
{
    if 65 <= b && b <= 90 {
        b + 32
    } else {
        b
    }
}

fn match_ci_at(l: &Vec<u8>, p: &Vec<u8>, at: usize) -> (r: bool)
    ensures
        r == matches_ci_at(l@, p@, at as int),
{
    if at > l.len() || p.len() > l.len() - at {
        return false;
    }
    let mut j: usize = 0;
    while j < p.len()
        invariant
            at + p.len() <= l.len(),
            0 <= j <= p.len(),
            forall|k: int| 0 <= k < j ==> lower_byte(l@[at + k]) == p@[k],
        decreases p.len() - j,
    {
        if lower(l[at + j]) != p[j] {
            return false;
        }
        j += 1;
    }
    true
}

fn contains_ci_exec(l: &Vec<u8>, p: &Vec<u8>) -> (r: bool)
    ensures
        r == contains_ci(l@, p@),
{
    if p.len() > l.len() {
        return false;
    }
    let mut at: usize = 0;
    while at <= l.len() - p.len()
        invariant
            p.len() <= l.len(),
            0 <= at <= l.len() - p.len() + 1,
            forall|a: int| 0 <= a < at ==> !matches_ci_at(l@, p@, a),
        decreases l.len() - at,
    {
        if match_ci_at(l, p, at) {
            return true;
        }
        at += 1;
    }
    assert(forall|a: int| !matches_ci_at(l@, p@, a));
    false
}

// ---------------------------------------------------------------------------
// Whitespace trimming
// ---------------------------------------------------------------------------

/// `b` is an ASCII whitespace byte.
pub open spec fn is_ws(b: u8) -> bool {
    b == 9 || b == 10 || b == 11 || b == 12 || b == 13 || b == 32
}

/// `s` with its leading whitespace bytes removed.
pub open spec fn trim_start(s: Seq<u8>) -> Seq<u8>
    decreases s.len(),
{
    if s.len() > 0 && is_ws(s[0]) {
        trim_start(s.drop_first())
    } else {
        s
    }
}

/// `s` with its trailing whitespace bytes removed.
pub open spec fn trim_end(s: Seq<u8>) -> Seq<u8>
    decreases s.len(),
{
    if s.len() > 0 && is_ws(s.last()) {
        trim_end(s.drop_last())
    } else {
        s
    }
}

/// `s` with leading and trailing whitespace bytes removed.
pub open spec fn spec_trim(s: Seq<u8>) -> Seq<u8> {
    trim_end(trim_start(s))
}

fn is_ws_exec(b: u8) -> (r: bool)
    ensures
        r == is_ws(b),
{
    b == 9 || b == 10 || b == 11 || b == 12 || b == 13 || b == 32
}

/// A fresh copy of `line` with leading and trailing ASCII whitespace removed.
pub fn trim_bytes(line: &Vec<u8>) -> (r: Vec<u8>)
    ensures
        r@ == spec_trim(line@),
{
    let n: usize = line.len();
    proof {
        assert(line@.subrange(0, n as int) =~= line@);
    }
    let mut lo: usize = 0;
    while lo < n && is_ws_exec(line[lo])
        invariant
            0 <= lo <= n,
            n == line@.len(),
            trim_start(line@) == trim_start(line@.subrange(lo as int, n as int)),
        decreases n - lo,
    {
        proof {
            let sub = line@.subrange(lo as int, n as int);
            assert(sub.drop_first() =~= line@.subrange(lo as int + 1, n as int));
        }
        lo += 1;
    }
    proof {
        let sub = line@.subrange(lo as int, n as int);
        assert(trim_start(sub) == sub);
    }
    let mut hi: usize = n;
    while hi > lo && is_ws_exec(line[hi - 1])
        invariant
            0 <= lo <= hi <= n,
            n == line@.len(),
            trim_end(line@.subrange(lo as int, n as int)) == trim_end(
                line@.subrange(lo as int, hi as int),
            ),
        decreases hi,
    {
        proof {
            let sub = line@.subrange(lo as int, hi as int);
            assert(sub.drop_last() =~= line@.subrange(lo as int, hi as int - 1));
        }
        hi -= 1;
    }
    proof {
        let sub = line@.subrange(lo as int, hi as int);
        assert(trim_end(sub) == sub);
    }
    let mut r: Vec<u8> = Vec::new();
    let mut k: usize = lo;
    while k < hi
        invariant
            lo <= k <= hi <= n,
            n == line@.len(),
            r@ =~= line@.subrange(lo as int, k as int),
        decreases hi - k,
    {
        r.push(line[k]);
        k += 1;
    }
    assert(r@ =~= line@.subrange(lo as int, hi as int));
    r
}

// ---------------------------------------------------------------------------
// Decimal numerals (Content-Length values)
// ---------------------------------------------------------------------------

/// `b` is an ASCII decimal digit.
pub open spec fn is_dec_digit(b: u8) -> bool {
    48 <= b <= 57
}

/// The value of the decimal digit `b`, and 0 for any other byte.
pub open spec fn dec_digit_val(b: u8) -> int {
    if is_dec_digit(b) {
        b - 48
    } else {
        0
    }
}

/// The value of `s` read as a base-10 numeral, most significant digit first.
pub open spec fn dec_value(s: Seq<u8>) -> int
    decreases s.len(),
{
    if s.len() == 0 {
        0
    } else {
        dec_value(s.drop_last()) * 10 + dec_digit_val(s.last())
    }
}

/// Every byte of `s` is a decimal digit.
pub open spec fn all_dec_digits(s: Seq<u8>) -> bool {
    forall|i: int| 0 <= i < s.len() ==> is_dec_digit(s[i])
}

/// The digits of a numeral `s`: all of it, or all but an optional
/// leading `+` sign.
pub open spec fn digits_part(s: Seq<u8>) -> Seq<u8> {
    if s.len() > 0 && s[0] == 43 {
        s.drop_first()
    } else {
        s
    }
}

/// The value of `s` parsed as a `usize` the way `str::parse` reads it: an
/// optional leading `+`, then one or more decimal digits, rejected when the
/// value exceeds `usize::MAX`.
pub open spec fn parse_dec_spec(s: Seq<u8>) -> Option<usize> {
    let ds = digits_part(s);
    if ds.len() > 0 && all_dec_digits(ds) && dec_value(ds) <= usize::MAX {
        Some(dec_value(ds) as usize)
    } else {
        None
    }
}

proof fn lemma_dec_value_nonneg(s: Seq<u8>)
    ensures
        dec_value(s) >= 0,
    decreases s.len(),
{
    if s.len() > 0 {
        lemma_dec_value_nonneg(s.drop_last());
    }
}

proof fn lemma_dec_prefix_le(s: Seq<u8>, j: int)
    requires
        0 <= j <= s.len(),
    ensures
        dec_value(s.take(j)) <= dec_value(s),
    decreases s.len() - j,
{
    if j < s.len() {
        assert(s.take(j + 1).drop_last() =~= s.take(j));
        lemma_dec_value_nonneg(s.take(j));
        lemma_dec_prefix_le(s, j + 1);
    } else {
        assert(s.take(j) =~= s);
    }
}

fn dec_val(b: u8) -> (r: u8)
    ensures
        r == dec_digit_val(b),
{
    if 48 <= b && b <= 57 {
        b - 48
    } else {
        0
    }
}

/// Parse `s` as a base-10 `usize`, as `str::parse::<usize>` would.
pub fn parse_dec(s: &Vec<u8>) -> (r: Option<usize>)
    ensures
        r == parse_dec_spec(s@),
{
    let n: usize = s.len();
    let mut start: usize = 0;
    if n > 0 && s[0] == 43 {
        start = 1;
    }
    let ghost ds = digits_part(s@);
    proof {
        assert(ds =~= s@.subrange(start as int, n as int));
    }
    if start >= n {
        return None;
    }
    let mut acc: usize = 0;
    let mut k: usize = start;
    while k < n
        invariant
            0 <= start <= k <= n,
            n == s@.len(),
            ds == digits_part(s@),
            ds =~= s@.subrange(start as int, n as int),
            acc == dec_value(ds.take(k - start)),
            all_dec_digits(ds.take(k - start)),
        decreases n - k,
    {
        let b = s[k];
        if !(48 <= b && b <= 57) {
            proof {
                assert(!is_dec_digit(ds[k - start]));
                assert(!all_dec_digits(ds));
            }
            return None;
        }
        let d = dec_val(b);
        proof {
            assert(ds.take(k - start + 1).drop_last() =~= ds.take(k - start));
        }
        let acc2 = match acc.checked_mul(10) {
            Some(v) => v,
            None => {
                proof {
                    assert(ds.take(k - start + 1).last() == ds[k - start]);
                    assert(dec_value(ds.take(k - start + 1)) == acc * 10 + dec_digit_val(
                        ds[k - start],
                    ));
                    lemma_dec_prefix_le(ds, k - start + 1);
                    assert(dec_value(ds) > usize::MAX);
                }
                return None;
            },
        };
        let acc3 = match acc2.checked_add(d as usize) {
            Some(v) => v,
            None => {
                proof {
                    assert(ds.take(k - start + 1).last() == ds[k - start]);
                    assert(dec_value(ds.take(k - start + 1)) == acc * 10 + dec_digit_val(
                        ds[k - start],
                    ));
                    lemma_dec_prefix_le(ds, k - start + 1);
                    assert(dec_value(ds) > usize::MAX);
                }
                return None;
            },
        };
        acc = acc3;
        k += 1;
    }
    proof {
        assert(ds.take(n - start) =~= ds);
    }
    Some(acc)
}

// ---------------------------------------------------------------------------
// Hexadecimal numerals (chunk sizes)
// ---------------------------------------------------------------------------

/// `b` is an ASCII hexadecimal digit, either case.
pub open spec fn is_hex_digit(b: u8) -> bool {
    (48 <= b <= 57) || (97 <= b <= 102) || (65 <= b <= 70)
}

/// The value of the hexadecimal digit `b`, and 0 for any other byte.
pub open spec fn hex_digit_val(b: u8) -> int {
    if 48 <= b <= 57 {
        b - 48
    } else if 97 <= b <= 102 {
        b - 87
    } else if 65 <= b <= 70 {
        b - 55
    } else {
        0
    }
}

/// The value of `s` read as a base-16 numeral, most significant digit first.
pub open spec fn hex_value(s: Seq<u8>) -> int
    decreases s.len(),
{
    if s.len() == 0 {
        0
    } else {
        hex_value(s.drop_last()) * 16 + hex_digit_val(s.last())
    }
}

/// Every byte of `s` is a hexadecimal digit.
pub open spec fn all_hex_digits(s: Seq<u8>) -> bool {
    forall|i: int| 0 <= i < s.len() ==> is_hex_digit(s[i])
}

/// The value of `s` parsed as a base-16 `usize` the way
/// `usize::from_str_radix(s, 16)` reads it: an optional leading `+`, then
/// one or more hexadecimal digits, rejected when the value exceeds
/// `usize::MAX`.
pub open spec fn parse_hex_spec(s: Seq<u8>) -> Option<usize> {
    let ds = digits_part(s);
    if ds.len() > 0 && all_hex_digits(ds) && hex_value(ds) <= usize::MAX {
        Some(hex_value(ds) as usize)
    } else {
        None
    }
}

/// The chunk size written on the (already trimmed) line `s`: its value as a
/// hexadecimal numeral, and 0 when `s` is not one — the same signal as a
/// legitimate terminal chunk.
pub open spec fn chunk_size_spec(s: Seq<u8>) -> usize {
    match parse_hex_spec(s) {
        Some(n) => n,
        None => 0,
    }
}

proof fn lemma_hex_value_nonneg(s: Seq<u8>)
    ensures
        hex_value(s) >= 0,
    decreases s.len(),
{
    if s.len() > 0 {
        lemma_hex_value_nonneg(s.drop_last());
    }
}

proof fn lemma_hex_prefix_le(s: Seq<u8>, j: int)
    requires
        0 <= j <= s.len(),
    ensures
        hex_value(s.take(j)) <= hex_value(s),
    decreases s.len() - j,
{
    if j < s.len() {
        assert(s.take(j + 1).drop_last() =~= s.take(j));
        lemma_hex_value_nonneg(s.take(j));
        lemma_hex_prefix_le(s, j + 1);
    } else {
        assert(s.take(j) =~= s);
    }
}

fn hex_val(b: u8) -> (r: u8)
    ensures
        r == hex_digit_val(b),
{
    if 48 <= b && b <= 57 {
        b - 48
    } else if 97 <= b && b <= 102 {
        b - 87
    } else if 65 <= b && b <= 70 {
        b - 55
    } else {
        0
    }
}

/// Parse `s` as a base-16 `usize`, as `usize::from_str_radix(s, 16)` would.
pub fn parse_hex(s: &Vec<u8>) -> (r: Option<usize>)
    ensures
        r == parse_hex_spec(s@),
{
    let n: usize = s.len();
    let mut start: usize = 0;
    if n > 0 && s[0] == 43 {
        start = 1;
    }
    let ghost ds = digits_part(s@);
    proof {
        assert(ds =~= s@.subrange(start as int, n as int));
    }
    if start >= n {
        return None;
    }
    let mut acc: usize = 0;
    let mut k: usize = start;
    while k < n
        invariant
            0 <= start <= k <= n,
            n == s@.len(),
            ds == digits_part(s@),
            ds =~= s@.subrange(start as int, n as int),
            acc == hex_value(ds.take(k - start)),
            all_hex_digits(ds.take(k - start)),
        decreases n - k,
    {
        let b = s[k];
        if !((48 <= b && b <= 57) || (97 <= b && b <= 102) || (65 <= b && b <= 70)) {
            proof {
                assert(!is_hex_digit(ds[k - start]));
                assert(!all_hex_digits(ds));
            }
            return None;
        }
        let d = hex_val(b);
        proof {
            assert(ds.take(k - start + 1).drop_last() =~= ds.take(k - start));
        }
        let acc2 = match acc.checked_mul(16) {
            Some(v) => v,
            None => {
                proof {
                    assert(ds.take(k - start + 1).last() == ds[k - start]);
                    assert(hex_value(ds.take(k - start + 1)) == acc * 16 + hex_digit_val(
                        ds[k - start],
                    ));
                    lemma_hex_prefix_le(ds, k - start + 1);
                    assert(hex_value(ds) > usize::MAX);
                }
                return None;
            },
        };
        let acc3 = match acc2.checked_add(d as usize) {
            Some(v) => v,
            None => {
                proof {
                    assert(ds.take(k - start + 1).last() == ds[k - start]);
                    assert(hex_value(ds.take(k - start + 1)) == acc * 16 + hex_digit_val(
                        ds[k - start],
                    ));
                    lemma_hex_prefix_le(ds, k - start + 1);
                    assert(hex_value(ds) > usize::MAX);
                }
                return None;
            },
        };
        acc = acc3;
        k += 1;
    }
    proof {
        assert(ds.take(n - start) =~= ds);
    }
    Some(acc)
}

/// The chunk size announced by the line `line`: the line is trimmed and read
/// as a hexadecimal numeral, with an unparseable numeral giving 0 — the same
/// value as a legitimate terminal chunk.
pub fn chunk_size_of(line: &Vec<u8>) -> (r: usize)
    ensures
        r == chunk_size_spec(spec_trim(line@)),
{
    let t = trim_bytes(line);
    match parse_hex(&t) {
        Some(n) => n,
        None => 0,
    }
}

// ---------------------------------------------------------------------------
// The framing decision
// ---------------------------------------------------------------------------

/// The lower-cased header name `transfer-encoding:` as bytes.
pub open spec fn te_prefix() -> Seq<u8> {
    seq![116u8, 114u8, 97u8, 110u8, 115u8, 102u8, 101u8, 114u8, 45u8, 101u8, 110u8, 99u8, 111u8, 100u8, 105u8, 110u8, 103u8, 58u8]
}

/// The lower-cased word `chunked` as bytes.
pub open spec fn chunked_pattern() -> Seq<u8> {
    seq![99u8, 104u8, 117u8, 110u8, 107u8, 101u8, 100u8]
}

/// The lower-cased header name `content-length:` as bytes.
pub open spec fn cl_prefix() -> Seq<u8> {
    seq![99u8, 111u8, 110u8, 116u8, 101u8, 110u8, 116u8, 45u8, 108u8, 101u8, 110u8, 103u8, 116u8, 104u8, 58u8]
}

fn te_prefix_vec() -> (r: Vec<u8>)
    ensures
        r@ == te_prefix(),
{
    let mut r: Vec<u8> = Vec::new();
    r.push(116);
    r.push(114);
    r.push(97);
    r.push(110);
    r.push(115);
    r.push(102);
    r.push(101);
    r.push(114);
    r.push(45);
    r.push(101);
    r.push(110);
    r.push(99);
    r.push(111);
    r.push(100);
    r.push(105);
    r.push(110);
    r.push(103);
    r.push(58);
    assert(r@ =~= te_prefix());
    r
}

fn chunked_pattern_vec() -> (r: Vec<u8>)
    ensures
        r@ == chunked_pattern(),
{
    let mut r: Vec<u8> = Vec::new();
    r.push(99);
    r.push(104);
    r.push(117);
    r.push(110);
    r.push(107);
    r.push(101);
    r.push(100);
    assert(r@ =~= chunked_pattern());
    r
}

fn cl_prefix_vec() -> (r: Vec<u8>)
    ensures
        r@ == cl_prefix(),
{
    let mut r: Vec<u8> = Vec::new();
    r.push(99);
    r.push(111);
    r.push(110);
    r.push(116);
    r.push(101);
    r.push(110);
    r.push(116);
    r.push(45);
    r.push(108);
    r.push(101);
    r.push(110);
    r.push(103);
    r.push(116);
    r.push(104);
    r.push(58);
    assert(r@ =~= cl_prefix());
    r
}

/// `l` announces, case-insensitively, a chunked transfer encoding: it
/// begins with `transfer-encoding:` and holds `chunked` somewhere.
pub open spec fn is_chunked_line(l: Seq<u8>) -> bool {
    has_prefix_ci(l, te_prefix()) && contains_ci(l, chunked_pattern())
}

/// Some header line announces a chunked transfer encoding.
pub open spec fn spec_is_chunked(hs: Seq<Seq<u8>>) -> bool {
    exists|i: int| 0 <= i < hs.len() && is_chunked_line(hs[i])
}

/// `l` begins, case-insensitively, with `content-length:`.
pub open spec fn is_cl_line(l: Seq<u8>) -> bool {
    has_prefix_ci(l, cl_prefix())
}

/// The two-byte separator `": "` stands at position `i` of `l`.
pub open spec fn is_sep_at(l: Seq<u8>, i: int) -> bool {
    0 <= i && i + 2 <= l.len() && l[i] == 58 && l[i + 1] == 32
}

/// The first position at or after `from` where `": "` stands in `l`.
pub open spec fn first_sep_from(l: Seq<u8>, from: int) -> Option<int>
    decreases l.len() - from,
{
    if from < 0 || from + 2 > l.len() {
        None
    } else if is_sep_at(l, from) {
        Some(from)
    } else {
        first_sep_from(l, from + 1)
    }
}

proof fn lemma_first_sep_bounds(l: Seq<u8>, from: int, j: int)
    requires
        first_sep_from(l, from) == Some(j),
    ensures
        from <= j,
        is_sep_at(l, j),
    decreases l.len() - from,
{
    if from < 0 || from + 2 > l.len() {
    } else if is_sep_at(l, from) {
    } else {
        lemma_first_sep_bounds(l, from + 1, j);
    }
}

/// The second `": "`-separated segment of `l`: the piece between the first
/// separator and the next one, or the end of the line.
pub open spec fn second_segment(l: Seq<u8>) -> Option<Seq<u8>> {
    match first_sep_from(l, 0) {
        None => None,
        Some(i) => {
            let beg = i + 2;
            let end = match first_sep_from(l, beg) {
                None => l.len() as int,
                Some(j) => j,
            };
            Some(l.subrange(beg, end))
        },
    }
}

/// The body length a `content-length:` line names: its second
/// `": "`-separated segment, trimmed and read as a base-10 `usize`.
pub open spec fn spec_cl_value(l: Seq<u8>) -> Option<usize> {
    match second_segment(l) {
        None => None,
        Some(seg) => parse_dec_spec(spec_trim(seg)),
    }
}

/// The content length of a header block: the value of the first line that
/// begins, case-insensitively, with `content-length:`.
pub open spec fn spec_content_length(hs: Seq<Seq<u8>>) -> Option<usize>
    decreases hs.len(),
{
    if hs.len() == 0 {
        None
    } else if is_cl_line(hs[0]) {
        spec_cl_value(hs[0])
    } else {
        spec_content_length(hs.drop_first())
    }
}

/// The framing of the request body, decided from the header lines:
/// `Chunked` wins over `ContentLength`, and a request with neither header
/// (or an unparseable length value) carries no body.
pub open spec fn spec_framing(hs: Seq<Seq<u8>>) -> BodyFraming {
    if spec_is_chunked(hs) {
        BodyFraming::Chunked
    } else {
        match spec_content_length(hs) {
            Some(n) => BodyFraming::ContentLength(n),
            None => BodyFraming::NoBody,
        }
    }
}

fn find_sep_from(l: &Vec<u8>, from: usize) -> (r: Option<usize>)
    ensures
        r is Some <==> first_sep_from(l@, from as int) is Some,
        r matches Some(i) ==> first_sep_from(l@, from as int) == Some(i as int),
{
    let n: usize = l.len();
    let mut i: usize = from;
    if n < 2 || i > n - 2 {
        return None;
    }
    while i <= n - 2
        invariant
            2 <= n == l@.len(),
            from <= i <= n - 1,
            first_sep_from(l@, from as int) == first_sep_from(l@, i as int),
        decreases n - i,
    {
        if l[i] == 58 && l[i + 1] == 32 {
            return Some(i);
        }
        i += 1;
    }
    None
}

fn cl_value(l: &Vec<u8>) -> (r: Option<usize>)
    ensures
        r == spec_cl_value(l@),
{
    match find_sep_from(l, 0) {
        None => None,
        Some(i) => {
            let ln: usize = l.len();
            proof {
                lemma_first_sep_bounds(l@, 0, i as int);
                assert(i + 2 <= ln);
            }
            let beg: usize = i + 2;
            let end: usize = match find_sep_from(l, beg) {
                None => l.len(),
                Some(j) => {
                    proof {
                        lemma_first_sep_bounds(l@, beg as int, j as int);
                    }
                    j
                },
            };
            let mut seg: Vec<u8> = Vec::new();
            let mut k: usize = beg;
            while k < end
                invariant
                    beg <= k <= end <= l@.len(),
                    seg@ =~= l@.subrange(beg as int, k as int),
                decreases end - k,
            {
                seg.push(l[k]);
                k += 1;
            }
            assert(seg@ =~= l@.subrange(beg as int, end as int));
            let t = trim_bytes(&seg);
            parse_dec(&t)
        },
    }
}

fn headers_chunked(hs: &Vec<Vec<u8>>) -> (r: bool)
    ensures
        r == spec_is_chunked(hs.deep_view()),
{
    let te = te_prefix_vec();
    let ch = chunked_pattern_vec();
    let ghost m = hs.deep_view();
    let mut i: usize = 0;
    while i < hs.len()
        invariant
            m == hs.deep_view(),
            m.len() == hs@.len(),
            te@ == te_prefix(),
            ch@ == chunked_pattern(),
            0 <= i <= hs@.len(),
            forall|k: int| 0 <= k < i ==> !is_chunked_line(m[k]),
        decreases hs@.len() - i,
    {
        proof {
            assert(m[i as int] =~= hs@[i as int]@);
        }
        if match_ci_at(&hs[i], &te, 0) && contains_ci_exec(&hs[i], &ch) {
            assert(is_chunked_line(m[i as int]));
            return true;
        }
        i += 1;
    }
    false
}

fn content_length_of(hs: &Vec<Vec<u8>>) -> (r: Option<usize>)
    ensures
        r == spec_content_length(hs.deep_view()),
{
    let cl = cl_prefix_vec();
    let ghost m = hs.deep_view();
    proof {
        assert(m.skip(0) =~= m);
    }
    let mut i: usize = 0;
    while i < hs.len()
        invariant
            m == hs.deep_view(),
            m.len() == hs@.len(),
            cl@ == cl_prefix(),
            0 <= i <= hs@.len(),
            spec_content_length(m) == spec_content_length(m.skip(i as int)),
        decreases hs@.len() - i,
    {
        proof {
            assert(m[i as int] =~= hs@[i as int]@);
            assert(m.skip(i as int)[0] == m[i as int]);
        }
        if match_ci_at(&hs[i], &cl, 0) {
            let r = cl_value(&hs[i]);
            assert(is_cl_line(m.skip(i as int)[0]));
            return r;
        }
        proof {
            assert(m.skip(i as int).drop_first() =~= m.skip(i as int + 1));
            assert(!is_cl_line(m.skip(i as int)[0]));
        }
        i += 1;
    }
    assert(m.skip(i as int) =~= Seq::<Seq<u8>>::empty());
    None
}

/// Decide how the body of a request with header lines `hs` is framed.
pub fn detect_framing(hs: &Vec<Vec<u8>>) -> (f: BodyFraming)
    ensures
        f == spec_framing(hs.deep_view()),
{
    if headers_chunked(hs) {
        BodyFraming::Chunked
    } else {
        match content_length_of(hs) {
            Some(n) => BodyFraming::ContentLength(n),
            None => BodyFraming::NoBody,
        }
    }
}

} // verus!
