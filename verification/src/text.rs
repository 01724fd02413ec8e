//! Plain-text utilities: line and token splitting, trimming, and decimal
//! rendering of integers. The subprocess adapters parse captured output with
//! these, and the cache builds version-addressed directory names with them.

use vstd::prelude::*;
use vstd::pervasive::VecAdditionalExecFns;
use vstd::string::StringSliceAdditionalSpecFns;

verus! {

/// Whitespace as the line-oriented parsers understand it.
pub open spec fn is_ws(c: char) -> bool {
    c == ' ' || c == '\t' || c == '\r' || c == '\n'
}

/// Exec mirror of [`is_ws`].
pub fn ws_char(c: char) -> (b: bool)
    ensures
        b == is_ws(c),
{
    c == ' ' || c == '\t' || c == '\r' || c == '\n'
}

/// Splitting a sequence at every occurrence of `sep`; the result always has
/// one more element than there are separators, so it is never empty.
pub open spec fn split_char(s: Seq<char>, sep: char) -> Seq<Seq<char>>
    decreases s.len(),
{
    if s.len() == 0 {
        seq![Seq::<char>::empty()]
    } else if s[0] == sep {
        seq![Seq::<char>::empty()] + split_char(s.drop_first(), sep)
    } else {
        let r = split_char(s.drop_first(), sep);
        seq![seq![s[0]] + r.first()] + r.drop_first()
    }
}

pub proof fn lemma_split_char_nonempty(s: Seq<char>, sep: char)
    ensures
        split_char(s, sep).len() >= 1,
    decreases s.len(),
{
    if s.len() != 0 {
        lemma_split_char_nonempty(s.drop_first(), sep);
    }
}

/// Splits `s` at every occurrence of `sep`.
pub fn split_on(s: &str, sep: char) -> (r: Vec<String>)
    ensures
        r.deep_view() == split_char(s@, sep),
        r.len() >= 1,
    decreases s@.len(),
{
    let n = s.unicode_len();
    if n == 0 {
        let mut v: Vec<String> = Vec::new();
        v.push(String::new());
        assert(v.deep_view() =~= split_char(s@, sep));
        v
    } else {
        let c = s.get_char(0);
        let rest = s.substring_char(1, n);
        let mut r = split_on(rest, sep);
        if c == sep {
            r.insert(0, String::new());
            assert(r.deep_view() =~= split_char(s@, sep)) by {
                assert(s@.drop_first() == rest@);
            }
            r
        } else {
            let head = s.substring_char(0, 1);
            let first = head.to_owned().concat(r[0].as_str());
            proof {
                lemma_split_char_nonempty(rest@, sep);
                assert(s@.drop_first() == rest@);
                assert(head@ =~= seq![s@[0]]);
            }
            r.set(0, first);
            assert(r.deep_view() =~= split_char(s@, sep));
            r
        }
    }
}

/// The whitespace-separated tokens of a sequence, in order, with no empty
/// tokens.
pub open spec fn ws_tokens(s: Seq<char>) -> Seq<Seq<char>>
    decreases s.len(),
{
    if s.len() == 0 {
        Seq::<Seq<char>>::empty()
    } else if is_ws(s[0]) {
        ws_tokens(s.drop_first())
    } else if s.len() == 1 {
        seq![seq![s[0]]]
    } else if is_ws(s[1]) {
        seq![seq![s[0]]] + ws_tokens(s.drop_first())
    } else {
        let r = ws_tokens(s.drop_first());
        seq![seq![s[0]] + r.first()] + r.drop_first()
    }
}

pub proof fn lemma_ws_tokens_head(s: Seq<char>)
    requires
        s.len() > 0,
        !is_ws(s[0]),
    ensures
        ws_tokens(s).len() >= 1,
    decreases s.len(),
{
    if s.len() > 1 && !is_ws(s[1]) {
        lemma_ws_tokens_head(s.drop_first());
    }
}

/// Splits `s` into its whitespace-separated tokens.
pub fn whitespace_tokens(s: &str) -> (r: Vec<String>)
    ensures
        r.deep_view() == ws_tokens(s@),
    decreases s@.len(),
{
    let n = s.unicode_len();
    if n == 0 {
        let v: Vec<String> = Vec::new();
        assert(v.deep_view() =~= ws_tokens(s@));
        v
    } else {
        let c = s.get_char(0);
        let rest = s.substring_char(1, n);
        proof {
            assert(s@.drop_first() == rest@);
        }
        if ws_char(c) {
            whitespace_tokens(rest)
        } else if n == 1 {
            let mut v: Vec<String> = Vec::new();
            v.push(s.to_owned());
            assert(s@ =~= seq![s@[0]]);
            assert(v.deep_view() =~= ws_tokens(s@));
            v
        } else if ws_char(s.get_char(1)) {
            let mut r = whitespace_tokens(rest);
            let head = s.substring_char(0, 1);
            r.insert(0, head.to_owned());
            assert(head@ =~= seq![s@[0]]);
            assert(r.deep_view() =~= ws_tokens(s@));
            r
        } else {
            let mut r = whitespace_tokens(rest);
            let head = s.substring_char(0, 1);
            proof {
                lemma_ws_tokens_head(rest@);
                assert(head@ =~= seq![s@[0]]);
            }
            let first = head.to_owned().concat(r[0].as_str());
            r.set(0, first);
            assert(r.deep_view() =~= ws_tokens(s@));
            r
        }
    }
}

/// `s` with its leading whitespace removed.
pub open spec fn trim_start_spec(s: Seq<char>) -> Seq<char>
    decreases s.len(),
{
    if s.len() == 0 {
        s
    } else if is_ws(s[0]) {
        trim_start_spec(s.drop_first())
    } else {
        s
    }
}

/// Removes leading whitespace.
pub fn trim_start_str(s: &str) -> (r: String)
    ensures
        r@ == trim_start_spec(s@),
    decreases s@.len(),
{
    let n = s.unicode_len();
    if n == 0 {
        s.to_owned()
    } else if ws_char(s.get_char(0)) {
        let rest = s.substring_char(1, n);
        proof {
            assert(s@.drop_first() == rest@);
        }
        trim_start_str(rest)
    } else {
        s.to_owned()
    }
}

/// The decimal digit character for `d` in `0..10`.
pub open spec fn dec_digit(d: int) -> char {
    if d == 0 {
        '0'
    } else if d == 1 {
        '1'
    } else if d == 2 {
        '2'
    } else if d == 3 {
        '3'
    } else if d == 4 {
        '4'
    } else if d == 5 {
        '5'
    } else if d == 6 {
        '6'
    } else if d == 7 {
        '7'
    } else if d == 8 {
        '8'
    } else {
        '9'
    }
}

/// The usual decimal rendering of a nonnegative integer, with no leading
/// zeros (except for zero itself).
pub open spec fn dec_str(n: int) -> Seq<char>
    decreases n,
{
    if n < 10 {
        seq![dec_digit(n)]
    } else {
        dec_str(n / 10) + seq![dec_digit(n % 10)]
    }
}

fn dec_digit_str(d: u64) -> (r: &'static str)
    requires
        d < 10,
    ensures
        r@ == seq![dec_digit(d as int)],
{
    proof {
        reveal_strlit("0");
        reveal_strlit("1");
        reveal_strlit("2");
        reveal_strlit("3");
        reveal_strlit("4");
        reveal_strlit("5");
        reveal_strlit("6");
        reveal_strlit("7");
        reveal_strlit("8");
        reveal_strlit("9");
    }
    if d == 0 {
        "0"
    } else if d == 1 {
        "1"
    } else if d == 2 {
        "2"
    } else if d == 3 {
        "3"
    } else if d == 4 {
        "4"
    } else if d == 5 {
        "5"
    } else if d == 6 {
        "6"
    } else if d == 7 {
        "7"
    } else if d == 8 {
        "8"
    } else {
        "9"
    }
}

/// Renders `n` in decimal.
pub fn u64_to_string(n: u64) -> (r: String)
    ensures
        r@ == dec_str(n as int),
    decreases n,
{
    if n < 10 {
        dec_digit_str(n).to_owned()
    } else {
        let q = n / 10;
        let rem = n % 10;
        u64_to_string(q).concat(dec_digit_str(rem))
    }
}

/// Every character of a decimal rendering is a digit, so none is `'-'`.
pub proof fn lemma_dec_str_no_dash(n: int)
    requires
        n >= 0,
    ensures
        forall|i: int| 0 <= i < dec_str(n).len() ==> dec_str(n)[i] != '-',
    decreases n,
{
    if n < 10 {
        assert(dec_str(n) =~= seq![dec_digit(n)]);
        assert(dec_digit(n) != '-');
    } else {
        lemma_dec_str_no_dash(n / 10);
        assert(dec_str(n) =~= dec_str(n / 10) + seq![dec_digit(n % 10)]);
        assert forall|i: int| 0 <= i < dec_str(n).len() implies dec_str(n)[i] != '-' by {
            if i < dec_str(n / 10).len() {
                assert(dec_str(n)[i] == dec_str(n / 10)[i]);
            } else {
                assert(dec_str(n)[i] == dec_digit(n % 10));
            }
        }
    }
}

proof fn lemma_dec_str_len(n: int)
    requires
        n >= 0,
    ensures
        dec_str(n).len() >= 1,
        n >= 10 ==> dec_str(n).len() >= 2,
    decreases n,
{
    if n >= 10 {
        lemma_dec_str_len(n / 10);
    }
}

/// Decimal renderings of distinct nonnegative integers are distinct.
pub proof fn lemma_dec_str_injective(a: int, b: int)
    requires
        a >= 0,
        b >= 0,
        dec_str(a) == dec_str(b),
    ensures
        a == b,
    decreases a,
{
    lemma_dec_str_len(a);
    lemma_dec_str_len(b);
    if a < 10 && b < 10 {
        assert(dec_str(a)[0] == dec_digit(a));
        assert(dec_str(b)[0] == dec_digit(b));
    } else if a < 10 {
        assert(dec_str(a).len() == 1);
    } else if b < 10 {
        assert(dec_str(b).len() == 1);
    } else {
        assert(dec_str(a).last() == dec_digit(a % 10));
        assert(dec_str(b).last() == dec_digit(b % 10));
        assert(a % 10 == b % 10);
        assert(dec_str(a).drop_last() =~= dec_str(a / 10));
        assert(dec_str(b).drop_last() =~= dec_str(b / 10));
        lemma_dec_str_injective(a / 10, b / 10);
    }
}

/// Reverses a vector.
pub fn reversed<T>(v: Vec<T>) -> (r: Vec<T>)
    ensures
        r@ == v@.reverse(),
{
    let ghost orig = v@;
    let mut rest = v;
    let mut r: Vec<T> = Vec::new();
    proof {
        assert(orig.take(orig.len() as int) =~= orig);
        assert(orig.skip(orig.len() as int).reverse() =~= Seq::<T>::empty());
    }
    while rest.len() > 0
        invariant
            rest@.len() <= orig.len(),
            rest@ == orig.take(rest@.len() as int),
            r@ == orig.skip(rest@.len() as int).reverse(),
        decreases rest.len(),
    {
        let ghost n = rest@.len() as int;
        let x = rest.pop().unwrap();
        r.push(x);
        proof {
            assert(orig.take(n).drop_last() =~= orig.take(n - 1));
            assert(orig.take(n).last() == orig[n - 1]);
            assert(orig.skip(n - 1).reverse() =~= orig.skip(n).reverse().push(orig[n - 1]));
        }
    }
    proof {
        assert(orig.skip(0).reverse() =~= orig.reverse());
    }
    r
}

/// Bytes that a URL query argument may carry unescaped.
pub open spec fn url_unreserved(b: u8) -> bool {
    (0x41 <= b <= 0x5a) || (0x61 <= b <= 0x7a) || (0x30 <= b <= 0x39) || b == 0x2d || b == 0x2e
        || b == 0x5f || b == 0x7e
}

/// The uppercase hexadecimal digit byte for `d` in `0..16`.
pub open spec fn hex_digit_byte_spec(d: int) -> u8 {
    if d < 10 {
        (0x30 + d) as u8
    } else {
        (0x41 + (d - 10)) as u8
    }
}

/// Percent-encoding of one byte: itself if unreserved, else `%` and two
/// hexadecimal digits.
pub open spec fn url_encode_byte(b: u8) -> Seq<u8> {
    if url_unreserved(b) {
        seq![b]
    } else {
        seq![0x25u8, hex_digit_byte_spec(b as int / 16), hex_digit_byte_spec(b as int % 16)]
    }
}

/// Percent-encoding of a byte sequence.
pub open spec fn url_encode_bytes(bs: Seq<u8>) -> Seq<u8>
    decreases bs.len(),
{
    if bs.len() == 0 {
        Seq::<u8>::empty()
    } else {
        url_encode_byte(bs[0]) + url_encode_bytes(bs.drop_first())
    }
}

/// Percent-encoding of a byte sequence, read as the ASCII characters it
/// consists of.
pub open spec fn url_encode_spec(bs: Seq<u8>) -> Seq<char> {
    url_encode_bytes(bs).map(|i: int, b: u8| b as char)
}

proof fn lemma_url_encode_bytes_push(bs: Seq<u8>, b: u8)
    ensures
        url_encode_bytes(bs.push(b)) == url_encode_bytes(bs) + url_encode_byte(b),
    decreases bs.len(),
{
    if bs.len() == 0 {
        assert(bs.push(b).drop_first() =~= Seq::<u8>::empty());
        assert(bs =~= Seq::<u8>::empty());
        assert(url_encode_bytes(bs.push(b)) =~= url_encode_bytes(bs) + url_encode_byte(b));
    } else {
        lemma_url_encode_bytes_push(bs.drop_first(), b);
        assert(bs.push(b).drop_first() =~= bs.drop_first().push(b));
        assert(url_encode_bytes(bs.push(b)) =~= url_encode_bytes(bs) + url_encode_byte(b));
    }
}

fn hex_digit_byte(d: u8) -> (r: u8)
    requires
        d < 16,
    ensures
        r == hex_digit_byte_spec(d as int),
{
    if d < 10 {
        0x30 + d
    } else {
        0x41 + (d - 10)
    }
}

/// Declared to name what [`String::from_utf8`] yields on ASCII input.
///
/// Relies on `String::from_utf8`: ASCII bytes are valid UTF-8, and each byte
/// becomes the character with the same code.
#[verifier::external_body]
fn ascii_to_string(v: Vec<u8>) -> (r: String)
    requires
        forall|i: int| 0 <= i < v@.len() ==> v@[i] < 0x80,
    ensures
        r@.len() == v@.len(),
        forall|i: int| 0 <= i < v@.len() ==> r@[i] == v@[i] as char,
{
    match String::from_utf8(v) {
        Ok(s) => s,
        Err(_) => String::new(),
    }
}

/// Percent-encodes `s` for use as a URL query argument.
pub fn url_encode(s: &str) -> (r: String)
    ensures
        r@ == url_encode_spec(s.spec_bytes()),
{
    let bytes = s.as_bytes_vec();
    let mut out: Vec<u8> = Vec::new();
    let mut i: usize = 0;
    while i < bytes.len()
        invariant
            i <= bytes.len(),
            bytes@ == s.spec_bytes(),
            out@ == url_encode_bytes(bytes@.take(i as int)),
            forall|k: int| 0 <= k < out@.len() ==> out@[k] < 0x80,
        decreases bytes.len() - i,
    {
        let b = bytes[i];
        proof {
            lemma_url_encode_bytes_push(bytes@.take(i as int), b);
            assert(bytes@.take(i as int).push(b) =~= bytes@.take(i as int + 1));
        }
        if (0x41 <= b && b <= 0x5a) || (0x61 <= b && b <= 0x7a) || (0x30 <= b && b <= 0x39) || b
            == 0x2d || b == 0x2e || b == 0x5f || b == 0x7e {
            out.push(b);
        } else {
            out.push(0x25);
            out.push(hex_digit_byte(b / 16));
            out.push(hex_digit_byte(b % 16));
        }
        i = i + 1;
    }
    proof {
        assert(bytes@.take(bytes@.len() as int) =~= bytes@);
    }
    let r = ascii_to_string(out);
    assert(r@ =~= url_encode_spec(s.spec_bytes()));
    r
}

/// What the ANSI stripper leaves of a byte sequence.
pub uninterp spec fn stripped_of(bytes: Seq<u8>) -> Seq<u8>;

/// What lossy UTF-8 decoding makes of a byte sequence.
pub uninterp spec fn utf8_lossy_of(bytes: Seq<u8>) -> Seq<char>;

/// Relies on `strip_ansi_escapes::strip`: removes ANSI escape sequences; the
/// result depends on the bytes alone.
#[verifier::external_body]
fn strip_ansi(bytes: &Vec<u8>) -> (r: Vec<u8>)
    ensures
        r@ == stripped_of(bytes@),
{
    strip_ansi_escapes::strip(bytes)
}

/// Relies on `String::from_utf8_lossy`: the result depends on the bytes
/// alone.
#[verifier::external_body]
fn utf8_lossy(bytes: &Vec<u8>) -> (r: String)
    ensures
        r@ == utf8_lossy_of(bytes@),
{
    String::from_utf8_lossy(bytes).into_owned()
}

/// Turns captured subprocess output into text: ANSI escape sequences are
/// stripped, then the bytes are decoded as UTF-8, lossily.
pub fn clean_capture(bytes: &Vec<u8>) -> (r: String)
    ensures
        r@ == utf8_lossy_of(stripped_of(bytes@)),
{
    let stripped = strip_ansi(bytes);
    utf8_lossy(&stripped)
}

} // verus!
