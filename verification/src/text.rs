use vstd::prelude::*;
use vstd::utf8::*;

verus! {

/// Unicode `White_Space`: the characters that `str::trim` and
/// `str::split_whitespace` treat as blank.
pub open spec fn is_space(c: char) -> bool {
    let v = c as u32;
    ||| 0x09 <= v <= 0x0D
    ||| v == 0x20
    ||| v == 0x85
    ||| v == 0xA0
    ||| v == 0x1680
    ||| 0x2000 <= v <= 0x200A
    ||| v == 0x2028
    ||| v == 0x2029
    ||| v == 0x202F
    ||| v == 0x205F
    ||| v == 0x3000
}

pub fn space_char(c: char) -> (res: bool)
    ensures
        res == is_space(c),
{
    let v = c as u32;
    (0x09 <= v && v <= 0x0D) || v == 0x20 || v == 0x85 || v == 0xA0 || v == 0x1680 || (0x2000
        <= v && v <= 0x200A) || v == 0x2028 || v == 0x2029 || v == 0x202F || v == 0x205F || v
        == 0x3000
}

/// The text without its leading blanks.
pub open spec fn trim_start(s: Seq<char>) -> Seq<char>
    decreases s.len(),
{
    if s.len() > 0 && is_space(s[0]) {
        trim_start(s.drop_first())
    } else {
        s
    }
}

/// The text without its trailing blanks.
pub open spec fn trim_end(s: Seq<char>) -> Seq<char>
    decreases s.len(),
{
    if s.len() > 0 && is_space(s.last()) {
        trim_end(s.drop_last())
    } else {
        s
    }
}

/// The text without leading and trailing blanks, as `str::trim` gives it.
pub open spec fn trim(s: Seq<char>) -> Seq<char> {
    trim_end(trim_start(s))
}

/// The characters of a string slice, in order.
pub fn chars_of(s: &str) -> (res: Vec<char>)
    ensures
        res@ == s@,
{
    let mut out: Vec<char> = Vec::new();
    let n = s.unicode_len();
    let mut i: usize = 0;
    while i < n
        invariant
            n == s@.len(),
            i <= n,
            out@ == s@.take(i as int),
        decreases n - i,
    {
        let c = s.get_char(i);
        out.push(c);
        assert(out@ =~= s@.take(i + 1));
        i = i + 1;
    }
    assert(s@.take(n as int) =~= s@);
    out
}

/// A string made of the given characters.
///
/// Trusted: collects the characters into a `String` (`FromIterator<char>`),
/// which the standard library documents as concatenating them in order.
#[verifier::external_body]
pub(crate) fn string_of(chars: &[char]) -> (res: String)
    ensures
        res@ == chars@,
{
    chars.iter().collect()
}

/// `str::trim`, proved against the definition above.
pub fn trimmed(s: &str) -> (res: String)
    ensures
        res@ == trim(s@),
{
    let v = chars_of(s);
    let n = v.len();
    let mut i: usize = 0;
    assert(v@.subrange(0, n as int) =~= v@);
    while i < n && space_char(v[i])
        invariant
            i <= n,
            n == v@.len(),
            trim_start(v@) == trim_start(v@.subrange(i as int, n as int)),
        decreases n - i,
    {
        assert(v@.subrange(i as int, n as int).drop_first() =~= v@.subrange(i + 1, n as int));
        i = i + 1;
    }
    assert(trim_start(v@) == v@.subrange(i as int, n as int));
    let mut j: usize = n;
    while j > i && space_char(v[j - 1])
        invariant
            i <= j <= n,
            n == v@.len(),
            trim_end(v@.subrange(i as int, n as int)) == trim_end(v@.subrange(i as int, j as int)),
        decreases j,
    {
        assert(v@.subrange(i as int, j as int).drop_last() =~= v@.subrange(i as int, j - 1));
        j = j - 1;
    }
    let mut out: Vec<char> = Vec::new();
    let mut k: usize = i;
    while k < j
        invariant
            i <= k <= j <= n,
            n == v@.len(),
            out@ =~= v@.subrange(i as int, k as int),
        decreases j - k,
    {
        out.push(v[k]);
        k = k + 1;
    }
    string_of(out.as_slice())
}

/// The decimal digit character for `d < 10`.
pub open spec fn digit_char(d: nat) -> char {
    ((48 + d) as u32) as char
}

/// Decimal notation of a natural number, as `Display` writes it.
pub open spec fn decimal(n: nat) -> Seq<char>
    decreases n,
{
    if n < 10 {
        seq![digit_char(n)]
    } else {
        decimal(n / 10).push(digit_char(n % 10))
    }
}

/// Decimal notation of an integer, with `-` in front of a negative one.
pub open spec fn signed_decimal(n: int) -> Seq<char> {
    if n < 0 {
        seq!['-'] + decimal((-n) as nat)
    } else {
        decimal(n as nat)
    }
}

fn digit(d: u64) -> (c: char)
    requires
        d < 10,
    ensures
        c == digit_char(d as nat),
{
    let digits = ['0', '1', '2', '3', '4', '5', '6', '7', '8', '9'];
    let c = digits[d as usize];
    assert(c == digit_char(d as nat)) by {
        assert(digits@[d as int] == digit_char(d as nat));
    }
    c
}

/// Decimal notation of an unsigned number.
pub fn decimal_text(n: u64) -> (res: String)
    ensures
        res@ == decimal(n as nat),
{
    let mut m: u64 = n;
    let mut out: Vec<char> = Vec::new();
    while m >= 10
        invariant
            decimal(n as nat) == decimal(m as nat) + out@,
        decreases m,
    {
        let c = digit(m % 10);
        assert(decimal(m as nat) == decimal((m / 10) as nat).push(c));
        assert(decimal((m / 10) as nat) + seq![c] + out@ =~= decimal((m / 10) as nat) + out@.insert(
            0,
            c,
        ));
        out.insert(0, c);
        m = m / 10;
    }
    let c = digit(m);
    assert(decimal(m as nat) == seq![c]);
    out.insert(0, c);
    assert(out@ =~= decimal(n as nat));
    string_of(out.as_slice())
}

/// Decimal notation of a signed number.
pub fn signed_decimal_text(n: i32) -> (res: String)
    ensures
        res@ == signed_decimal(n as int),
{
    if n < 0 {
        let magnitude: i64 = -(n as i64);
        let digits = decimal_text(magnitude as u64);
        let mut out = String::from_str("-");
        out.append(digits.as_str());
        proof {
            reveal_strlit("-");
        }
        out
    } else {
        decimal_text(n as u64)
    }
}

/// Decode UTF-8 bytes into text when they are valid.
///
/// Trusted: calls `std::str::from_utf8`, documented to accept exactly the
/// valid UTF-8 byte strings; the decoding is vstd's `decode_utf8`.
#[verifier::external_body]
pub(crate) fn utf8_text(bytes: &[u8]) -> (res: Option<String>)
    ensures
        res is Some <==> valid_utf8(bytes@),
        res matches Some(s) ==> s@ == decode_utf8(bytes@),
{
    match std::str::from_utf8(bytes) {
        Ok(text) => Some(text.to_owned()),
        Err(_) => None,
    }
}

/// What `String::from_utf8_lossy` makes of a byte string: invalid sequences
/// become U+FFFD.
pub uninterp spec fn lossy_text(bytes: Seq<u8>) -> Seq<char>;

/// The text of a byte string as paths are shown to the user.
///
/// Trusted: calls `String::from_utf8_lossy`, whose result is named
/// `lossy_text`; its documentation says that valid UTF-8 is decoded
/// unchanged, which the second clause states. Which characters stand for
/// invalid sequences is left unsaid here: only the name covers it.
#[verifier::external_body]
pub(crate) fn lossy(bytes: &[u8]) -> (res: String)
    ensures
        res@ == lossy_text(bytes@),
        valid_utf8(bytes@) ==> res@ == decode_utf8(bytes@),
{
    String::from_utf8_lossy(bytes).into_owned()
}

/// What `{:?}` writes for a string: the text in double quotes, with
/// `str::escape_debug` escapes.
pub uninterp spec fn debug_quoted(s: Seq<char>) -> Seq<char>;

/// The text as `{:?}` shows a string.
///
/// Trusted: formats with `{:?}` (`<str as Debug>::fmt`); the result is
/// named `debug_quoted` and nothing more is claimed of it.
#[verifier::external_body]
pub(crate) fn debug_text(s: &str) -> (res: String)
    ensures
        res@ == debug_quoted(s@),
{
    format!("{s:?}")
}

/// Byte-wise equality of two byte strings.
pub fn same_bytes(a: &[u8], b: &[u8]) -> (res: bool)
    ensures
        res == (a@ == b@),
{
    if a.len() != b.len() {
        return false;
    }
    let mut i: usize = 0;
    while i < a.len()
        invariant
            a@.len() == b@.len(),
            i <= a@.len(),
            forall|k: int| 0 <= k < i ==> a@[k] == b@[k],
        decreases a@.len() - i,
    {
        if a[i] != b[i] {
            return false;
        }
        i = i + 1;
    }
    assert(a@ =~= b@);
    true
}

/// Character-wise equality of two texts.
pub fn same_text(a: &str, b: &str) -> (res: bool)
    ensures
        res == (a@ == b@),
{
    let x = chars_of(a);
    let y = chars_of(b);
    if x.len() != y.len() {
        return false;
    }
    let mut i: usize = 0;
    while i < x.len()
        invariant
            x@ == a@,
            y@ == b@,
            x@.len() == y@.len(),
            i <= x@.len(),
            forall|k: int| 0 <= k < i ==> x@[k] == y@[k],
        decreases x@.len() - i,
    {
        if x[i] != y[i] {
            assert(a@[i as int] != b@[i as int]);
            return false;
        }
        i = i + 1;
    }
    assert(x@ =~= y@);
    true
}

/// The UTF-8 bytes of a text, as `str::as_bytes` gives them.
pub fn bytes_of(s: &str) -> (res: Vec<u8>)
    ensures
        res@ == encode_utf8(s@),
{
    vstd::slice::slice_to_vec(s.as_bytes())
}

/// The pieces of a sequence between separators, as `slice::split` and
/// `str::split` yield them: `n` separators give `n + 1` pieces.
pub open spec fn pieces<T>(s: Seq<T>, is_sep: spec_fn(T) -> bool) -> Seq<Seq<T>>
    decreases s.len(),
{
    if s.len() == 0 {
        seq![Seq::empty()]
    } else {
        let p = pieces(s.drop_last(), is_sep);
        if is_sep(s.last()) {
            p.push(Seq::empty())
        } else {
            p.update(p.len() - 1, p.last().push(s.last()))
        }
    }
}

/// The pieces that are not empty, in order.
pub open spec fn non_empty<T>(ps: Seq<Seq<T>>) -> Seq<Seq<T>>
    decreases ps.len(),
{
    if ps.len() == 0 {
        ps
    } else {
        let r = non_empty(ps.drop_last());
        if ps.last().len() > 0 {
            r.push(ps.last())
        } else {
            r
        }
    }
}

/// Separator test for one byte value.
pub open spec fn at_byte(sep: u8) -> spec_fn(u8) -> bool {
    |b: u8| b == sep
}

/// Separator test for blanks.
pub open spec fn at_space() -> spec_fn(char) -> bool {
    |c: char| is_space(c)
}

/// The blank-separated words of a text, as `str::split_whitespace` yields them.
pub open spec fn words(s: Seq<char>) -> Seq<Seq<char>> {
    non_empty(pieces(s, at_space()))
}

proof fn lemma_deep_bytes(v: Vec<u8>)
    ensures
        v.deep_view() == v@,
{
    assert(v.deep_view() =~= v@);
}

proof fn lemma_deep_chars(v: Vec<char>)
    ensures
        v.deep_view() == v@,
{
    assert(v.deep_view() =~= v@);
}

pub proof fn lemma_pieces_len<T>(s: Seq<T>, is_sep: spec_fn(T) -> bool)
    ensures
        pieces(s, is_sep).len() >= 1,
    decreases s.len(),
{
    if s.len() > 0 {
        lemma_pieces_len(s.drop_last(), is_sep);
    }
}

/// Splits a byte string at every `sep`, keeping empty pieces.
pub fn split_bytes(s: &[u8], sep: u8) -> (res: Vec<Vec<u8>>)
    ensures
        res.deep_view() == pieces(s@, at_byte(sep)),
{
    let mut done: Vec<Vec<u8>> = Vec::new();
    let mut cur: Vec<u8> = Vec::new();
    let mut k: usize = 0;
    assert(s@.take(0) =~= Seq::<u8>::empty());
    while k < s.len()
        invariant
            k <= s@.len(),
            done.deep_view().push(cur@) =~= pieces(s@.take(k as int), at_byte(sep)),
        decreases s@.len() - k,
    {
        let b = s[k];
        assert(s@.take(k + 1).drop_last() =~= s@.take(k as int));
        proof {
            lemma_pieces_len(s@.take(k as int), at_byte(sep));
        }
        let ghost before = done.deep_view();
        proof { lemma_deep_bytes(cur); }
        let ghost cv = cur@;
        if b == sep {
            done.push(cur);
            assert(done.deep_view() =~= before.push(cv));
            cur = Vec::new();
        } else {
            cur.push(b);
        }
        k = k + 1;
    }
    assert(s@.take(s@.len() as int) =~= s@);
    let ghost before = done.deep_view();
    proof { lemma_deep_bytes(cur); }
    let ghost cv = cur@;
    done.push(cur);
    assert(done.deep_view() =~= before.push(cv));
    done
}

/// The non-empty pieces of a byte string between `sep` bytes.
pub fn non_empty_pieces(s: &[u8], sep: u8) -> (res: Vec<Vec<u8>>)
    ensures
        res.deep_view() == non_empty(pieces(s@, at_byte(sep))),
{
    let mut done: Vec<Vec<u8>> = Vec::new();
    let mut cur: Vec<u8> = Vec::new();
    let mut k: usize = 0;
    assert(s@.take(0) =~= Seq::<u8>::empty());
    while k < s.len()
        invariant
            k <= s@.len(),
            pieces(s@.take(k as int), at_byte(sep)).len() >= 1,
            done.deep_view() =~= non_empty(pieces(s@.take(k as int), at_byte(sep)).drop_last()),
            cur@ =~= pieces(s@.take(k as int), at_byte(sep)).last(),
        decreases s@.len() - k,
    {
        let b = s[k];
        let ghost p = pieces(s@.take(k as int), at_byte(sep));
        assert(s@.take(k + 1).drop_last() =~= s@.take(k as int));
        if b == sep {
            assert(pieces(s@.take(k + 1), at_byte(sep)) == p.push(Seq::empty()));
            assert(p.push(Seq::empty()).drop_last() =~= p);
            if cur.len() > 0 {
                let ghost before = done.deep_view();
                proof { lemma_deep_bytes(cur); }
                let ghost cv = cur@;
                done.push(cur);
                assert(done.deep_view() =~= before.push(cv));
            }
            cur = Vec::new();
        } else {
            let ghost q = p.update(p.len() - 1, p.last().push(b));
            assert(pieces(s@.take(k + 1), at_byte(sep)) == q);
            assert(q.drop_last() =~= p.drop_last());
            cur.push(b);
        }
        k = k + 1;
    }
    assert(s@.take(s@.len() as int) =~= s@);
    let ghost p = pieces(s@, at_byte(sep));
    assert(non_empty(p) == if p.last().len() > 0 {
        non_empty(p.drop_last()).push(p.last())
    } else {
        non_empty(p.drop_last())
    });
    if cur.len() > 0 {
        let ghost before = done.deep_view();
        proof { lemma_deep_bytes(cur); }
        let ghost cv = cur@;
        done.push(cur);
        assert(done.deep_view() =~= before.push(cv));
    }
    done
}

/// The blank-separated words of a text.
pub fn split_words(s: &[char]) -> (res: Vec<Vec<char>>)
    ensures
        res.deep_view() == words(s@),
{
    let mut done: Vec<Vec<char>> = Vec::new();
    let mut cur: Vec<char> = Vec::new();
    let mut k: usize = 0;
    assert(s@.take(0) =~= Seq::<char>::empty());
    while k < s.len()
        invariant
            k <= s@.len(),
            pieces(s@.take(k as int), at_space()).len() >= 1,
            done.deep_view() =~= non_empty(pieces(s@.take(k as int), at_space()).drop_last()),
            cur@ =~= pieces(s@.take(k as int), at_space()).last(),
        decreases s@.len() - k,
    {
        let c = s[k];
        let ghost p = pieces(s@.take(k as int), at_space());
        assert(s@.take(k + 1).drop_last() =~= s@.take(k as int));
        if space_char(c) {
            assert(pieces(s@.take(k + 1), at_space()) == p.push(Seq::empty()));
            assert(p.push(Seq::empty()).drop_last() =~= p);
            if cur.len() > 0 {
                let ghost before = done.deep_view();
                proof { lemma_deep_chars(cur); }
                let ghost cv = cur@;
                done.push(cur);
                assert(done.deep_view() =~= before.push(cv));
            }
            cur = Vec::new();
        } else {
            let ghost q = p.update(p.len() - 1, p.last().push(c));
            assert(pieces(s@.take(k + 1), at_space()) == q);
            assert(q.drop_last() =~= p.drop_last());
            cur.push(c);
        }
        k = k + 1;
    }
    assert(s@.take(s@.len() as int) =~= s@);
    let ghost p = pieces(s@, at_space());
    assert(non_empty(p) == if p.last().len() > 0 {
        non_empty(p.drop_last()).push(p.last())
    } else {
        non_empty(p.drop_last())
    });
    if cur.len() > 0 {
        let ghost before = done.deep_view();
        proof { lemma_deep_chars(cur); }
        let ghost cv = cur@;
        done.push(cur);
        assert(done.deep_view() =~= before.push(cv));
    }
    done
}

/// Separator test for one character.
pub open spec fn at_char(sep: char) -> spec_fn(char) -> bool {
    |c: char| c == sep
}

/// Splits a text at every `sep`, keeping empty pieces.
pub fn split_chars(s: &[char], sep: char) -> (res: Vec<Vec<char>>)
    ensures
        res.deep_view() == pieces(s@, at_char(sep)),
{
    let mut done: Vec<Vec<char>> = Vec::new();
    let mut cur: Vec<char> = Vec::new();
    let mut k: usize = 0;
    assert(s@.take(0) =~= Seq::<char>::empty());
    while k < s.len()
        invariant
            k <= s@.len(),
            done.deep_view().push(cur@) =~= pieces(s@.take(k as int), at_char(sep)),
        decreases s@.len() - k,
    {
        let c = s[k];
        assert(s@.take(k + 1).drop_last() =~= s@.take(k as int));
        proof {
            lemma_pieces_len(s@.take(k as int), at_char(sep));
        }
        let ghost before = done.deep_view();
        proof {
            lemma_deep_chars(cur);
        }
        let ghost cv = cur@;
        if c == sep {
            done.push(cur);
            assert(done.deep_view() =~= before.push(cv));
            cur = Vec::new();
        } else {
            cur.push(c);
        }
        k = k + 1;
    }
    assert(s@.take(s@.len() as int) =~= s@);
    let ghost before = done.deep_view();
    proof {
        lemma_deep_chars(cur);
    }
    let ghost cv = cur@;
    done.push(cur);
    assert(done.deep_view() =~= before.push(cv));
    done
}

pub open spec fn is_digit(c: char) -> bool {
    48 <= c as u32 <= 57
}

/// The number that a string of decimal digits denotes.
pub open spec fn digits_value(s: Seq<char>) -> nat
    decreases s.len(),
{
    if s.len() == 0 {
        0
    } else {
        digits_value(s.drop_last()) * 10 + ((s.last() as u32) - 48) as nat
    }
}

/// The digits of an unsigned number's text: the text without one leading `+`.
pub open spec fn unsigned_digits(s: Seq<char>) -> Seq<char> {
    if s.len() > 0 && s[0] == '+' {
        s.drop_first()
    } else {
        s
    }
}

pub open spec fn all_digits(d: Seq<char>) -> bool {
    forall|i: int| 0 <= i < d.len() ==> is_digit(#[trigger] d[i])
}

/// What `str::parse` gives for an unsigned integer type whose largest value
/// is `max`: an optional `+`, then at least one decimal digit and nothing
/// else, denoting a value no greater than `max`.
pub open spec fn parse_unsigned(s: Seq<char>, max: nat) -> Option<nat> {
    let d = unsigned_digits(s);
    if d.len() > 0 && all_digits(d) && digits_value(d) <= max {
        Some(digits_value(d))
    } else {
        None
    }
}

proof fn lemma_digits_value_grows(s: Seq<char>, k: int)
    requires
        0 <= k <= s.len(),
    ensures
        digits_value(s.take(k)) <= digits_value(s),
    decreases s.len(),
{
    if k < s.len() {
        assert(s.drop_last().take(k) =~= s.take(k));
        lemma_digits_value_grows(s.drop_last(), k);
    } else {
        assert(s.take(k) =~= s);
    }
}

/// `str::parse` for an unsigned type whose largest value is `max`.
pub fn parse_unsigned_text(s: &[char], max: u64) -> (res: Option<u64>)
    ensures
        res is Some <==> parse_unsigned(s@, max as nat) is Some,
        res matches Some(v) ==> v as nat == parse_unsigned(s@, max as nat)->0,
{
    let start: usize = if s.len() > 0 && s[0] == '+' {
        1
    } else {
        0
    };
    let ghost d = unsigned_digits(s@);
    assert(d =~= s@.subrange(start as int, s@.len() as int));
    if start >= s.len() {
        return None;
    }
    let mut i: usize = start;
    while i < s.len()
        invariant
            start <= i <= s@.len(),
            d == s@.subrange(start as int, s@.len() as int),
            d == unsigned_digits(s@),
            forall|j: int| 0 <= j < i - start ==> is_digit(#[trigger] d[j]),
        decreases s@.len() - i,
    {
        let v = s[i] as u32;
        assert(d[i - start] == s@[i as int]);
        if v < 48 || v > 57 {
            assert(!is_digit(d[i - start]));
            assert(!all_digits(d));
            return None;
        }
        i = i + 1;
    }
    let mut value: u64 = 0;
    let mut k: usize = start;
    assert(d.take(0) =~= Seq::<char>::empty());
    while k < s.len()
        invariant
            start <= k <= s@.len(),
            d == s@.subrange(start as int, s@.len() as int),
            d == unsigned_digits(s@),
            all_digits(d),
            value as nat == digits_value(d.take(k - start)),
            value <= max,
        decreases s@.len() - k,
    {
        assert(d[k - start] == s@[k as int]);
        assert(is_digit(d[k - start]));
        let digit = (s[k] as u32 - 48) as u64;
        assert(d.take(k + 1 - start).drop_last() =~= d.take(k - start));
        assert(d.take(k + 1 - start).last() == d[k - start]);
        assert(digits_value(d.take(k + 1 - start)) == value * 10 + digit);
        if digit > max {
            proof {
                lemma_digits_value_grows(d, k + 1 - start);
                assert(digits_value(d) > max);
            }
            return None;
        }
        if value > (max - digit) / 10 {
            proof {
                assert(digits_value(d.take(k + 1 - start)) > max) by (nonlinear_arith)
                    requires
                        value > (max - digit) / 10,
                        digits_value(d.take(k + 1 - start)) == value * 10 + digit,
                        digit <= max,
                ;
                lemma_digits_value_grows(d, k + 1 - start);
                assert(digits_value(d) > max);
            }
            return None;
        }
        assert(value * 10 + digit <= max) by (nonlinear_arith)
            requires
                value <= (max - digit) / 10,
                digit <= 9,
                value <= max,
        ;
        value = value * 10 + digit;
        k = k + 1;
    }
    assert(d.take(d.len() as int) =~= d);
    Some(value)
}

/// The texts of a list of strings.
pub open spec fn texts(v: Seq<String>) -> Seq<Seq<char>> {
    v.map_values(|r: String| r@)
}

/// Texts joined with a separator between each two, as `[String]::join`
/// gives them.
pub open spec fn joined(parts: Seq<Seq<char>>, sep: Seq<char>) -> Seq<char>
    decreases parts.len(),
{
    if parts.len() == 0 {
        Seq::empty()
    } else if parts.len() == 1 {
        parts[0]
    } else {
        joined(parts.drop_last(), sep) + sep + parts.last()
    }
}

/// `parts.join(sep)`.
pub fn join_texts(parts: &Vec<String>, sep: &str) -> (res: String)
    ensures
        res@ == joined(texts(parts@), sep@),
{
    let mut out = String::new();
    let mut i: usize = 0;
    let ghost all = texts(parts@);
    assert(all.take(0) =~= Seq::<Seq<char>>::empty());
    while i < parts.len()
        invariant
            i <= parts@.len(),
            all == texts(parts@),
            all.len() == parts@.len(),
            out@ == joined(all.take(i as int), sep@),
        decreases parts@.len() - i,
    {
        assert(all.take(i + 1).drop_last() =~= all.take(i as int));
        assert(all.take(i + 1).last() == parts@[i as int]@);
        if i > 0 {
            out.append(sep);
        } else {
            assert(all.take(1) =~= seq![parts@[0]@]);
        }
        out.append(parts[i].as_str());
        i = i + 1;
    }
    assert(all.take(parts@.len() as int) =~= all);
    out
}

} // verus!
