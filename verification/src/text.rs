use vstd::prelude::*;
use vstd::string::StrSliceExecFns;
use vstd::string::StringSliceAdditionalSpecFns;

verus! {

// ---------------------------------------------------------------------------
// Byte-level text model.
//
// Device responses carry fixed-width ASCII fields padded with spaces or NUL
// bytes.  All cleaning, trimming and matching is specified over `Seq<u8>`;
// a `String` is produced only at the very end, character for character.
// ---------------------------------------------------------------------------

/// Printable ASCII, space excluded.
pub open spec fn spec_graphic(b: u8) -> bool {
    0x21 <= b && b <= 0x7E
}

/// Keep printable bytes and spaces; every other byte becomes a space.
pub open spec fn spec_keep_printable(b: u8) -> u8 {
    if spec_graphic(b) || b == 0x20 {
        b
    } else {
        0x20
    }
}

/// The cleaned form of a raw text field.
pub open spec fn spec_clean(s: Seq<u8>) -> Seq<u8> {
    Seq::new(s.len(), |i: int| spec_keep_printable(s[i]))
}

/// Drop leading spaces.
pub open spec fn spec_trim_start(s: Seq<u8>) -> Seq<u8>
    decreases s.len(),
{
    if s.len() > 0 && s[0] == 0x20u8 {
        spec_trim_start(s.drop_first())
    } else {
        s
    }
}

/// Drop trailing spaces.
pub open spec fn spec_trim_end(s: Seq<u8>) -> Seq<u8>
    decreases s.len(),
{
    if s.len() > 0 && s.last() == 0x20u8 {
        spec_trim_end(s.drop_last())
    } else {
        s
    }
}

/// Drop spaces from both ends.
pub open spec fn spec_trim(s: Seq<u8>) -> Seq<u8> {
    spec_trim_end(spec_trim_start(s))
}

/// The characters of an ASCII byte sequence.
pub open spec fn spec_chars(s: Seq<u8>) -> Seq<char> {
    Seq::new(s.len(), |i: int| s[i] as char)
}

/// `p` is a prefix of `s`.
pub open spec fn spec_starts_with(s: Seq<u8>, p: Seq<u8>) -> bool {
    p.len() <= s.len() && (forall|i: int| 0 <= i < p.len() ==> s[i] == p[i])
}

/// `p` occurs in `s` at position `pos`.
pub open spec fn spec_match_at(s: Seq<u8>, p: Seq<u8>, pos: int) -> bool {
    0 <= pos && pos + p.len() <= s.len() && (forall|i: int| 0 <= i < p.len() ==> s[pos + i]
        == p[i])
}

/// `p` occurs somewhere in `s`.
pub open spec fn spec_contains(s: Seq<u8>, p: Seq<u8>) -> bool {
    exists|pos: int| spec_match_at(s, p, pos)
}

/// Prefix versions of the above for character sequences.
pub open spec fn spec_starts_with_c(s: Seq<char>, p: Seq<char>) -> bool {
    p.len() <= s.len() && (forall|i: int| 0 <= i < p.len() ==> s[i] == p[i])
}

pub open spec fn spec_match_at_c(s: Seq<char>, p: Seq<char>, pos: int) -> bool {
    0 <= pos && pos + p.len() <= s.len() && (forall|i: int| 0 <= i < p.len() ==> s[pos + i]
        == p[i])
}

pub open spec fn spec_contains_c(s: Seq<char>, p: Seq<char>) -> bool {
    exists|pos: int| spec_match_at_c(s, p, pos)
}

// ---------------------------------------------------------------------------
// Executable counterparts.
// ---------------------------------------------------------------------------

pub fn is_graphic(b: u8) -> (r: bool)
    ensures
        r == spec_graphic(b),
{
    0x21 <= b && b <= 0x7E
}

/// Replace non-printable bytes with spaces, byte for byte.
pub fn clean_bytes(s: &[u8]) -> (r: Vec<u8>)
    ensures
        r@ == spec_clean(s@),
{
    let mut out: Vec<u8> = Vec::new();
    let mut i: usize = 0;
    while i < s.len()
        invariant
            i <= s.len(),
            out@.len() == i,
            forall|j: int| 0 <= j < i ==> out@[j] == spec_keep_printable(s@[j]),
        decreases s.len() - i,
    {
        let b = s[i];
        if is_graphic(b) || b == 0x20 {
            out.push(b);
        } else {
            out.push(0x20);
        }
        i += 1;
    }
    proof {
        assert(out@ =~= spec_clean(s@));
    }
    out
}

proof fn lemma_trim_start_at(s: Seq<u8>, k: int)
    requires
        0 <= k <= s.len(),
        forall|i: int| 0 <= i < k ==> s[i] == 0x20u8,
        k < s.len() ==> s[k] != 0x20u8,
    ensures
        spec_trim_start(s) =~= s.subrange(k, s.len() as int),
    decreases k,
{
    if k == 0 {
        if s.len() > 0 && s[0] == 0x20u8 {
            assert(false);
        }
        assert(spec_trim_start(s) == s);
        assert(s =~= s.subrange(0, s.len() as int));
    } else {
        assert(s.len() > 0 && s[0] == 0x20u8);
        let t = s.drop_first();
        assert(t =~= s.subrange(1, s.len() as int));
        lemma_trim_start_at(t, k - 1);
        assert(t.subrange(k - 1, t.len() as int) =~= s.subrange(k, s.len() as int));
    }
}

proof fn lemma_trim_end_at(s: Seq<u8>, k: int)
    requires
        0 <= k <= s.len(),
        forall|i: int| k <= i < s.len() ==> s[i] == 0x20u8,
        k > 0 ==> s[k - 1] != 0x20u8,
    ensures
        spec_trim_end(s) =~= s.subrange(0, k),
    decreases s.len() - k,
{
    if k == s.len() {
        if s.len() > 0 && s.last() == 0x20u8 {
            assert(false);
        }
        assert(s =~= s.subrange(0, s.len() as int));
    } else {
        assert(s.len() > 0 && s.last() == 0x20u8);
        let t = s.drop_last();
        assert(t =~= s.subrange(0, s.len() - 1));
        lemma_trim_end_at(t, k);
    }
}

/// Strip leading and trailing spaces.
pub fn trim_bytes(s: &[u8]) -> (r: Vec<u8>)
    ensures
        r@ == spec_trim(s@),
{
    let mut start: usize = 0;
    while start < s.len() && s[start] == 0x20
        invariant
            start <= s.len(),
            forall|i: int| 0 <= i < start ==> s@[i] == 0x20u8,
        decreases s.len() - start,
    {
        start += 1;
    }
    proof {
        lemma_trim_start_at(s@, start as int);
    }
    let ghost mid: Seq<u8> = s@.subrange(start as int, s@.len() as int);
    let mut end: usize = s.len();
    while end > start && s[end - 1] == 0x20
        invariant
            start <= end <= s.len(),
            forall|i: int| end <= i < s.len() ==> s@[i] == 0x20u8,
        decreases end,
    {
        end -= 1;
    }
    proof {
        lemma_trim_end_at(mid, end - start);
    }
    let mut out: Vec<u8> = Vec::new();
    let mut i: usize = start;
    while i < end
        invariant
            start <= i <= end <= s.len(),
            out@.len() == i - start,
            forall|j: int| 0 <= j < out@.len() ==> out@[j] == s@[start + j],
        decreases end - i,
    {
        out.push(s[i]);
        i += 1;
    }
    proof {
        assert(out@ =~= mid.subrange(0, end - start as int));
    }
    out
}

/// Relies on `String::push` from std: appends exactly the given character
/// to the end of the string.
#[verifier::external_body]
fn push_char(s: &mut String, c: char)
    ensures
        final(s)@ == old(s)@.push(c),
{
    s.push(c)
}

/// Build a `String` from bytes, mapping each byte to the character with
/// the same code.
pub fn ascii_string(bytes: &[u8]) -> (r: String)
    ensures
        r@ == spec_chars(bytes@),
        r@.len() == bytes@.len(),
{
    let mut out = String::new();
    let mut i: usize = 0;
    while i < bytes.len()
        invariant
            i <= bytes.len(),
            out@.len() == i,
            forall|j: int| 0 <= j < i ==> out@[j] == bytes@[j] as char,
        decreases bytes.len() - i,
    {
        let c = bytes[i] as char;
        push_char(&mut out, c);
        i += 1;
    }
    proof {
        assert(out@ =~= spec_chars(bytes@));
    }
    out
}

/// Clean a raw field, trim it, and render it as a `String`.
pub fn clean_trimmed_string(raw: &[u8]) -> (r: String)
    ensures
        r@ == spec_chars(spec_trim(spec_clean(raw@))),
{
    let cleaned = clean_bytes(raw);
    let trimmed = trim_bytes(&cleaned);
    proof {
        lemma_trim_bounds(cleaned@);
        assert(forall|i: int|
            0 <= i < trimmed@.len() ==> spec_trim(cleaned@)[i] < 128);
    }
    ascii_string(trimmed.as_slice())
}

/// Trimming the cleaned field keeps every byte below 0x7F.
pub proof fn lemma_trim_bounds(s: Seq<u8>)
    requires
        forall|i: int| 0 <= i < s.len() ==> s[i] <= 0x7E,
    ensures
        forall|i: int| 0 <= i < spec_trim(s).len() ==> spec_trim(s)[i] < 128,
{
    lemma_trim_start_is_suffix(s);
    let t = spec_trim_start(s);
    lemma_trim_end_is_prefix(t);
    assert forall|i: int| 0 <= i < spec_trim(s).len() implies spec_trim(s)[i] < 128 by {
        let off = s.len() - t.len();
        assert(spec_trim(s)[i] == t[i]);
        assert(t[i] == s[off + i]);
    }
}

proof fn lemma_trim_start_is_suffix(s: Seq<u8>)
    ensures
        spec_trim_start(s).len() <= s.len(),
        forall|i: int|
            0 <= i < spec_trim_start(s).len() ==> spec_trim_start(s)[i] == s[s.len()
                - spec_trim_start(s).len() + i],
    decreases s.len(),
{
    if s.len() > 0 && s[0] == 0x20u8 {
        lemma_trim_start_is_suffix(s.drop_first());
    }
}

proof fn lemma_trim_end_is_prefix(s: Seq<u8>)
    ensures
        spec_trim_end(s).len() <= s.len(),
        forall|i: int| 0 <= i < spec_trim_end(s).len() ==> spec_trim_end(s)[i] == s[i],
    decreases s.len(),
{
    if s.len() > 0 && s.last() == 0x20u8 {
        lemma_trim_end_is_prefix(s.drop_last());
        assert(forall|i: int|
            0 <= i < s.drop_last().len() ==> s.drop_last()[i] == s[i]);
    }
}

/// `p` is a prefix of `s`, on byte slices.
pub fn bytes_start_with(s: &[u8], p: &[u8]) -> (r: bool)
    ensures
        r == spec_starts_with(s@, p@),
{
    if p.len() > s.len() {
        return false;
    }
    let mut i: usize = 0;
    while i < p.len()
        invariant
            i <= p.len() <= s.len(),
            forall|j: int| 0 <= j < i ==> s@[j] == p@[j],
        decreases p.len() - i,
    {
        if s[i] != p[i] {
            return false;
        }
        i += 1;
    }
    true
}

/// `p` occurs somewhere in `s`, on byte slices.
pub fn bytes_contain(s: &[u8], p: &[u8]) -> (r: bool)
    ensures
        r == spec_contains(s@, p@),
{
    if p.len() > s.len() {
        proof {
            assert(forall|pos: int| !spec_match_at(s@, p@, pos));
        }
        return false;
    }
    let mut pos: usize = 0;
    while pos <= s.len() - p.len()
        invariant
            p.len() <= s.len(),
            pos <= s.len() - p.len() + 1,
            forall|q: int| 0 <= q < pos ==> !spec_match_at(s@, p@, q),
        decreases s.len() - pos,
    {
        let mut i: usize = 0;
        let mut hit = true;
        while i < p.len()
            invariant
                pos + p.len() <= s.len(),
                i <= p.len(),
                hit == (forall|j: int| 0 <= j < i ==> s@[pos + j] == p@[j]),
            decreases p.len() - i,
        {
            if s[pos + i] != p[i] {
                hit = false;
            }
            i += 1;
        }
        if hit {
            assert(spec_match_at(s@, p@, pos as int));
            return true;
        }
        pos += 1;
    }
    proof {
        assert forall|q: int| !spec_match_at(s@, p@, q) by {
            if q >= pos {
                assert(q + p@.len() > s@.len());
            }
        }
    }
    false
}

/// Decimal digits of `n`, most significant first, as ASCII bytes.
pub open spec fn spec_dec_digits(n: nat) -> Seq<u8>
    decreases n,
{
    if n < 10 {
        seq![(0x30 + n) as u8]
    } else {
        spec_dec_digits(n / 10).push((0x30 + n % 10) as u8)
    }
}

/// Render `n` in decimal.
pub fn dec_u32(n: u32) -> (r: Vec<u8>)
    ensures
        r@ == spec_dec_digits(n as nat),
    decreases n,
{
    if n < 10 {
        let mut v: Vec<u8> = Vec::new();
        v.push(0x30 + n as u8);
        v
    } else {
        let mut v = dec_u32(n / 10);
        v.push(0x30 + (n % 10) as u8);
        v
    }
}

/// The ASCII byte of one lower-case hex digit.
pub open spec fn spec_hex_digit(d: u8) -> u8 {
    if d < 10 {
        (0x30 + d) as u8
    } else {
        (0x57 + d) as u8
    }
}

/// The two lower-case hex digits of a byte.
pub open spec fn spec_hex_byte(b: u8) -> Seq<u8> {
    seq![spec_hex_digit(b / 16), spec_hex_digit(b % 16)]
}

/// Append the two lower-case hex digits of `b`.
pub fn push_hex_byte(out: &mut Vec<u8>, b: u8)
    ensures
        final(out)@ == old(out)@ + spec_hex_byte(b),
{
    let hi = b / 16;
    let lo = b % 16;
    out.push(if hi < 10 { 0x30 + hi } else { 0x57 + hi });
    out.push(if lo < 10 { 0x30 + lo } else { 0x57 + lo });
    proof {
        assert(out@ =~= old(out)@ + spec_hex_byte(b));
    }
}

/// The ASCII byte of one upper-case hex digit.
pub open spec fn spec_hex_digit_upper(d: u8) -> u8 {
    if d < 10 {
        (0x30 + d) as u8
    } else {
        (0x37 + d) as u8
    }
}

/// The four upper-case hex digits of a 16-bit value.
pub open spec fn spec_hex_u16_upper(v: u16) -> Seq<u8> {
    seq![
        spec_hex_digit_upper((v / 0x1000 % 16) as u8),
        spec_hex_digit_upper((v / 0x100 % 16) as u8),
        spec_hex_digit_upper((v / 0x10 % 16) as u8),
        spec_hex_digit_upper((v % 16) as u8),
    ]
}

/// Append the four upper-case hex digits of `v`.
pub fn push_hex_u16_upper(out: &mut Vec<u8>, v: u16)
    ensures
        final(out)@ == old(out)@ + spec_hex_u16_upper(v),
{
    let d3 = (v / 0x1000 % 16) as u8;
    let d2 = (v / 0x100 % 16) as u8;
    let d1 = (v / 0x10 % 16) as u8;
    let d0 = (v % 16) as u8;
    out.push(if d3 < 10 { 0x30 + d3 } else { 0x37 + d3 });
    out.push(if d2 < 10 { 0x30 + d2 } else { 0x37 + d2 });
    out.push(if d1 < 10 { 0x30 + d1 } else { 0x37 + d1 });
    out.push(if d0 < 10 { 0x30 + d0 } else { 0x37 + d0 });
    proof {
        assert(out@ =~= old(out)@ + spec_hex_u16_upper(v));
    }
}

/// The first position at or after `from` where `p` occurs in `s`,
/// or -1 when it occurs nowhere.
pub open spec fn spec_find_from(s: Seq<u8>, p: Seq<u8>, from: int) -> int
    decreases s.len() - from,
{
    if from < 0 || from + p.len() > s.len() {
        -1
    } else if spec_match_at(s, p, from) {
        from
    } else {
        spec_find_from(s, p, from + 1)
    }
}

proof fn lemma_find_from_hit(s: Seq<u8>, p: Seq<u8>, from: int, pos: int)
    requires
        0 <= from <= pos,
        pos + p.len() <= s.len(),
        forall|q: int| from <= q < pos ==> !spec_match_at(s, p, q),
        spec_match_at(s, p, pos),
    ensures
        spec_find_from(s, p, from) == pos,
    decreases pos - from,
{
    if from < pos {
        lemma_find_from_hit(s, p, from + 1, pos);
    }
}

proof fn lemma_find_from_miss(s: Seq<u8>, p: Seq<u8>, from: int)
    requires
        0 <= from,
        forall|q: int| from <= q ==> !spec_match_at(s, p, q),
    ensures
        spec_find_from(s, p, from) == -1,
    decreases s.len() - from,
{
    if from + p.len() <= s.len() {
        if p.len() == 0 {
            assert(spec_match_at(s, p, from));
        } else {
            lemma_find_from_miss(s, p, from + 1);
        }
    }
}

/// Find the first occurrence of `p` in `s`.
pub fn bytes_find(s: &[u8], p: &[u8]) -> (r: Option<usize>)
    ensures
        spec_find_from(s@, p@, 0) >= 0 ==> (r matches Some(i) && i == spec_find_from(s@,
            p@, 0) && i + p@.len() <= s@.len()),
        spec_find_from(s@, p@, 0) < 0 ==> r is None,
{
    if p.len() > s.len() {
        proof {
            assert(forall|q: int| !spec_match_at(s@, p@, q));
            lemma_find_from_miss(s@, p@, 0);
        }
        return None;
    }
    let mut pos: usize = 0;
    while pos <= s.len() - p.len()
        invariant
            p.len() <= s.len(),
            pos <= s.len() - p.len() + 1,
            forall|q: int| 0 <= q < pos ==> !spec_match_at(s@, p@, q),
        decreases s.len() - pos,
    {
        let mut i: usize = 0;
        let mut hit = true;
        while i < p.len()
            invariant
                pos + p.len() <= s.len(),
                i <= p.len(),
                hit == (forall|j: int| 0 <= j < i ==> s@[pos + j] == p@[j]),
            decreases p.len() - i,
        {
            if s[pos + i] != p[i] {
                hit = false;
            }
            i += 1;
        }
        if hit {
            proof {
                assert(spec_match_at(s@, p@, pos as int));
                lemma_find_from_hit(s@, p@, 0, pos as int);
            }
            return Some(pos);
        }
        pos += 1;
    }
    proof {
        assert forall|q: int| 0 <= q implies !spec_match_at(s@, p@, q) by {
            if q >= pos {
                assert(q + p@.len() > s@.len());
            }
        }
        lemma_find_from_miss(s@, p@, 0);
    }
    None
}

/// The bytes that are not NUL.
pub open spec fn pred_nonzero() -> spec_fn(u8) -> bool {
    |b: u8| b != 0u8
}

/// The printable bytes, space excluded.
pub open spec fn pred_graphic() -> spec_fn(u8) -> bool {
    |b: u8| spec_graphic(b)
}

/// The printable bytes, space included.
pub open spec fn pred_printable() -> spec_fn(u8) -> bool {
    |b: u8| spec_graphic(b) || b == 0x20u8
}

/// The byte range some vendors use for embedded model text.
pub open spec fn pred_model_text() -> spec_fn(u8) -> bool {
    |b: u8| 0x20u8 <= b && b <= 0x7Au8
}

/// The length of the run of bytes satisfying `p` that starts at `from`.
pub open spec fn spec_run_len(s: Seq<u8>, from: int, p: spec_fn(u8) -> bool) -> int
    decreases s.len() - from,
{
    if from < 0 || from >= s.len() {
        0
    } else if !p(s[from]) {
        0
    } else {
        1 + spec_run_len(s, from + 1, p)
    }
}

/// Every byte inside a run satisfies the predicate.
pub proof fn lemma_run_all(s: Seq<u8>, from: int, p: spec_fn(u8) -> bool)
    ensures
        forall|j: int| from <= j < from + spec_run_len(s, from, p) ==> p(s[j]),
    decreases s.len() - from,
{
    if 0 <= from < s.len() && p(s[from]) {
        lemma_run_all(s, from + 1, p);
    }
}

/// A run is exactly the stretch up to the first byte that fails `p`.
pub proof fn lemma_run_len(s: Seq<u8>, from: int, e: int, p: spec_fn(u8) -> bool)
    requires
        0 <= from <= e <= s.len(),
        forall|j: int| from <= j < e ==> p(s[j]),
        e < s.len() ==> !p(s[e]),
    ensures
        spec_run_len(s, from, p) == e - from,
    decreases e - from,
{
    if from < e {
        lemma_run_len(s, from + 1, e, p);
    }
}

/// The byte values of an ASCII character sequence.
pub open spec fn spec_ascii_bytes(s: Seq<char>) -> Seq<u8> {
    Seq::new(s.len(), |i: int| s[i] as u8)
}

/// The bytes of an ASCII string slice.
pub fn str_bytes<'a>(s: &'a str) -> (b: &'a [u8])
    requires
        s.is_ascii(),
    ensures
        b@ == spec_ascii_bytes(s@),
{
    proof {
        vstd::string::is_ascii_spec_bytes(s);
        assert(s.spec_bytes() =~= spec_ascii_bytes(s@));
    }
    s.as_bytes()
}

/// Two ASCII characters with the same byte value are the same character.
proof fn lemma_ascii_char_eq(c1: char, c2: char)
    requires
        ('\0' <= c1 && c1 <= '\u{7f}'),
        ('\0' <= c2 && c2 <= '\u{7f}'),
        c1 as u8 == c2 as u8,
    ensures
        c1 == c2,
{
    assert(c1 as u32 == (c1 as u8) as u32);
    assert(c2 as u32 == (c2 as u8) as u32);
    vstd::utf8::char_u32_cast(c1, c1 as u32);
    vstd::utf8::char_u32_cast(c2, c2 as u32);
}

/// Character count of an ASCII string slice.
pub fn str_len_ascii(s: &str) -> (n: usize)
    requires
        s.is_ascii(),
    ensures
        n == s@.len(),
{
    s.unicode_len()
}

/// `p` is a prefix of `s`, on ASCII string slices.
pub fn str_starts_with(s: &str, p: &str) -> (r: bool)
    requires
        s.is_ascii(),
        p.is_ascii(),
    ensures
        r == spec_starts_with_c(s@, p@),
{
    let sn = str_len_ascii(s);
    let pn = str_len_ascii(p);
    if pn > sn {
        return false;
    }
    let mut i: usize = 0;
    while i < pn
        invariant
            i <= pn,
            pn <= sn,
            pn == p@.len(),
            sn == s@.len(),
            s.is_ascii(),
            p.is_ascii(),
            forall|j: int| 0 <= j < i ==> s@[j] == p@[j],
        decreases pn - i,
    {
        let a = s.get_ascii(i);
        let b = p.get_ascii(i);
        if a != b {
            return false;
        }
        proof {
            lemma_ascii_char_eq(s@[i as int], p@[i as int]);
        }
        i += 1;
    }
    true
}

/// Character-for-character equality of two ASCII string slices.
pub fn str_eq(s: &str, p: &str) -> (r: bool)
    requires
        s.is_ascii(),
        p.is_ascii(),
    ensures
        r == (s@ == p@),
{
    let sn = str_len_ascii(s);
    let pn = str_len_ascii(p);
    if sn != pn {
        return false;
    }
    let r = str_starts_with(s, p);
    proof {
        if r {
            assert(s@ =~= p@);
        }
    }
    r
}

/// `p` occurs somewhere in `s`, on ASCII string slices.
pub fn str_contains(s: &str, p: &str) -> (r: bool)
    requires
        s.is_ascii(),
        p.is_ascii(),
    ensures
        r == spec_contains_c(s@, p@),
{
    let sn = str_len_ascii(s);
    let pn = str_len_ascii(p);
    if pn > sn {
        proof {
            assert(forall|pos: int| !spec_match_at_c(s@, p@, pos));
        }
        return false;
    }
    let mut pos: usize = 0;
    while pos <= sn - pn
        invariant
            pn <= sn,
            pn == p@.len(),
            sn == s@.len(),
            s.is_ascii(),
            p.is_ascii(),
            pos <= sn - pn + 1,
            forall|q: int| 0 <= q < pos ==> !spec_match_at_c(s@, p@, q),
        decreases sn - pos,
    {
        let mut i: usize = 0;
        let mut hit = true;
        while i < pn
            invariant
                pos + pn <= sn,
                pn == p@.len(),
                sn == s@.len(),
                s.is_ascii(),
                p.is_ascii(),
                i <= pn,
                hit == (forall|j: int| 0 <= j < i ==> s@[pos + j] == p@[j]),
            decreases pn - i,
        {
            let a = s.get_ascii(pos + i);
            let b = p.get_ascii(i);
            if a != b {
                proof {
                    if s@[pos + i as int] == p@[i as int] {
                        assert(false);
                    }
                }
                hit = false;
            } else {
                proof {
                    lemma_ascii_char_eq(s@[pos + i as int], p@[i as int]);
                }
            }
            i += 1;
        }
        if hit {
            assert(spec_match_at_c(s@, p@, pos as int));
            return true;
        }
        pos += 1;
    }
    proof {
        assert forall|q: int| !spec_match_at_c(s@, p@, q) by {
            if q >= pos {
                assert(q + p@.len() > s@.len());
            }
        }
    }
    false
}

} // verus!
