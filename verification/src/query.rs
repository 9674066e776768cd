//! Building redirect URLs: `application/x-www-form-urlencoded` escaping of
//! query parameter values, and appending `key=value` pairs to a URL.

use crate::codec::string_from_ascii;
use vstd::prelude::*;
use vstd::string::StringSliceAdditionalSpecFns;

verus! {

/// Uppercase hexadecimal digit for `d < 16`.
pub open spec fn hex_digit(d: nat) -> char
    recommends
        d < 16,
{
    if d < 10 {
        ((48 + d) as u8) as char
    } else {
        ((55 + d) as u8) as char
    }
}

/// Bytes the form-urlencoded set leaves unescaped: `0-9`, `A-Z`, `a-z`,
/// `*`, `-`, `.`, `_`.
pub open spec fn byte_unescaped(b: u8) -> bool {
    (48 <= b <= 57) || (65 <= b <= 90) || (97 <= b <= 122) || b == 42 || b == 45 || b == 46 || b
        == 95
}

/// The escape of one byte: space becomes `+`, unescaped bytes stand
/// themselves, all else becomes `%XX`.
pub open spec fn encode_byte(b: u8) -> Seq<char> {
    if b == 32 {
        seq!['+']
    } else if byte_unescaped(b) {
        seq![b as char]
    } else {
        seq!['%', hex_digit((b / 16) as nat), hex_digit((b % 16) as nat)]
    }
}

/// Form-urlencoding of a byte string.
pub open spec fn form_urlencode(bs: Seq<u8>) -> Seq<char>
    decreases bs.len(),
{
    if bs.len() == 0 {
        Seq::empty()
    } else {
        form_urlencode(bs.drop_last()) + encode_byte(bs.last())
    }
}

/// A URL with one more query parameter: `?` starts the query if none exists
/// yet, `&` extends it; the key is taken literally (all our keys are plain
/// words), the value is form-urlencoded.
pub open spec fn with_query_param(url: Seq<char>, key: Seq<char>, value_utf8: Seq<u8>) -> Seq<
    char,
> {
    let sep = if url.contains('?') {
        seq!['&']
    } else {
        seq!['?']
    };
    url + sep + key + seq!['='] + form_urlencode(value_utf8)
}

/// Form-urlencode a string's UTF-8 bytes.
pub fn urlencode(s: &str) -> (r: String)
    ensures
        r@ == form_urlencode(s.spec_bytes()),
{
    let bytes = s.as_bytes();
    let n = bytes.len();
    let mut out: Vec<u8> = Vec::new();
    let mut i: usize = 0;
    proof {
        assert(bytes@.take(0) =~= Seq::<u8>::empty());
        assert(out@.map_values(|b: u8| b as char) =~= Seq::<char>::empty());
    }
    while i < n
        invariant
            i <= n,
            n == bytes@.len(),
            bytes@ == s.spec_bytes(),
            forall|j: int| 0 <= j < out@.len() ==> out@[j] < 128,
            out@.map_values(|b: u8| b as char) == form_urlencode(bytes@.take(i as int)),
        decreases n - i,
    {
        let b = bytes[i];
        if b == 32 {
            out.push(43);
        } else if (48 <= b && b <= 57) || (65 <= b && b <= 90) || (97 <= b && b <= 122) || b == 42
            || b == 45 || b == 46 || b == 95 {
            out.push(b);
        } else {
            out.push(37);
            let hi = b / 16;
            let lo = b % 16;
            out.push(if hi < 10 { 48 + hi } else { 55 + hi });
            out.push(if lo < 10 { 48 + lo } else { 55 + lo });
        }
        proof {
            assert(bytes@.take(i + 1).drop_last() =~= bytes@.take(i as int));
            assert(bytes@.take(i + 1).last() == bytes@[i as int]);
            assert(out@.map_values(|b: u8| b as char) =~= form_urlencode(bytes@.take(i as int))
                + encode_byte(bytes@[i as int]));
        }
        i = i + 1;
    }
    proof {
        assert(bytes@.take(n as int) =~= bytes@);
    }
    string_from_ascii(out)
}

/// Append one query parameter to a URL.
pub fn append_query_pair(url: &String, key: &str, value: &str) -> (r: String)
    ensures
        r@ == with_query_param(url@, key@, value.spec_bytes()),
{
    let url_str = url.as_str();
    let n = url_str.unicode_len();
    let mut has_query = false;
    let mut i: usize = 0;
    while i < n
        invariant
            i <= n,
            n == url@.len(),
            url_str@ == url@,
            has_query == exists|j: int| 0 <= j < i && url@[j] == '?',
        decreases n - i,
    {
        if url_str.get_char(i) == '?' {
            has_query = true;
        }
        i = i + 1;
    }
    proof {
        assert(has_query == url@.contains('?'));
    }
    let mut out = url.clone();
    if has_query {
        out.append("&");
    } else {
        out.append("?");
    }
    out.append(key);
    out.append("=");
    let encoded = urlencode(value);
    out.append(encoded.as_str());
    proof {
        reveal_strlit("&");
        reveal_strlit("?");
        reveal_strlit("=");
        assert("&"@ =~= seq!['&']);
        assert("?"@ =~= seq!['?']);
        assert("="@ =~= seq!['=']);
    }
    out
}

/// Clone a vector of strings, element for element.
pub fn clone_strings(v: &Vec<String>) -> (r: Vec<String>)
    ensures
        r@ == v@,
{
    let mut out: Vec<String> = Vec::new();
    let mut i: usize = 0;
    let n = v.len();
    while i < n
        invariant
            i <= n,
            n == v@.len(),
            out@ =~= v@.take(i as int),
        decreases n - i,
    {
        out.push(v[i].clone());
        proof {
            assert(out@ =~= v@.take(i + 1));
        }
        i = i + 1;
    }
    proof {
        assert(v@.take(n as int) =~= v@);
    }
    out
}

} // verus!
