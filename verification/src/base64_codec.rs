//! Base64 text in the standard alphabet, with padding.

use vstd::prelude::*;

use base64::engine::general_purpose::STANDARD;
use base64::Engine;

use crate::error::Error;

verus! {

/// The symbol for a six bit number: `A` to `Z`, `a` to `z`, `0` to `9`, `+` and `/`.
pub open spec fn symbol(n: int) -> char {
    if n < 26 {
        (65 + n) as u8 as char
    } else if n < 52 {
        (71 + n) as u8 as char
    } else if n < 62 {
        (n - 4) as u8 as char
    } else if n == 62 {
        '+'
    } else {
        '/'
    }
}

/// The value of the byte at `i`.
pub open spec fn at(bytes: Seq<u8>, i: int) -> int {
    bytes[i] as int
}

/// The base64 text of `bytes`: four symbols for each three bytes, the last group padded with `=`.
pub open spec fn base64_text(bytes: Seq<u8>) -> Seq<char>
    decreases bytes.len(),
{
    let (x, y, z) = (at(bytes, 0), at(bytes, 1), at(bytes, 2));
    if bytes.len() == 0 {
        Seq::empty()
    } else if bytes.len() == 1 {
        seq![symbol(x / 4), symbol(x % 4 * 16), '=', '=']
    } else if bytes.len() == 2 {
        seq![symbol(x / 4), symbol(x % 4 * 16 + y / 16), symbol(y % 16 * 4), '=']
    } else {
        seq![
            symbol(x / 4),
            symbol(x % 4 * 16 + y / 16),
            symbol(y % 16 * 4 + z / 64),
            symbol(z % 64),
        ] + base64_text(bytes.skip(3))
    }
}

/// The message of the error that `base64` reports on `text`, if it is no base64 text.
pub uninterp spec fn base64_error(text: Seq<char>) -> Seq<char>;

/// Calls `Engine::encode` of the `base64` crate with the `STANDARD` engine, which writes the
/// base64 text of `bytes` in the standard alphabet, with padding.
#[verifier::external_body]
fn encode(bytes: &Vec<u8>) -> (r: String)
    ensures
        r@ == base64_text(bytes@),
{
    STANDARD.encode(bytes)
}

/// Calls `Engine::decode` of the `base64` crate with the `STANDARD` engine. It accepts the text
/// that the engine writes for some bytes, padding and unused bits included, and gives these bytes
/// back. It refuses every other text, with a message that depends on the text alone.
#[verifier::external_body]
fn decode(text: &str) -> (r: Result<Vec<u8>, String>)
    ensures
        r matches Ok(bytes) ==> base64_text(bytes@) == text@,
        r is Err ==> forall|bytes: Seq<u8>| #[trigger] base64_text(bytes) != text@,
        r matches Err(message) ==> message@ == base64_error(text@),
{
    match STANDARD.decode(text) {
        Ok(bytes) => Ok(bytes),
        Err(error) => Err(error.to_string()),
    }
}

/// Whether a text is the base64 text of some bytes.
pub open spec fn is_base64(text: Seq<char>) -> bool {
    exists|bytes: Seq<u8>| #[trigger] base64_text(bytes) == text
}

/// The bytes that a base64 text stands for.
pub open spec fn base64_bytes(text: Seq<char>) -> Seq<u8>
    recommends
        is_base64(text),
{
    choose|bytes: Seq<u8>| #[trigger] base64_text(bytes) == text
}

/// Writes bytes as base64 text.
pub fn encode_base64(bytes: &Vec<u8>) -> (r: String)
    ensures
        r@ == base64_text(bytes@),
        is_base64(r@),
        base64_bytes(r@) == bytes@,
{
    proof {
        lemma_base64_injective(base64_bytes(base64_text(bytes@)), bytes@);
    }
    encode(bytes)
}

/// Reads bytes from base64 text.
pub fn decode_base64(text: &str) -> (r: Result<Vec<u8>, Error>)
    ensures
        r is Ok <==> is_base64(text@),
        r matches Ok(bytes) ==> bytes@ == base64_bytes(text@),
        r matches Err(e) ==> e@ == seq![base64_error(text@)],
{
    match decode(text) {
        Ok(bytes) => {
            proof {
                lemma_base64_injective(base64_bytes(text@), bytes@);
            }
            Ok(bytes)
        },
        Err(message) => Err(Error::from_text(message)),
    }
}

/// Reading back what was written gives the same bytes.
pub proof fn law_base64_round_trip(bytes: Seq<u8>)
    ensures
        is_base64(base64_text(bytes)),
        base64_bytes(base64_text(bytes)) == bytes,
{
    lemma_base64_injective(base64_bytes(base64_text(bytes)), bytes);
}

proof fn lemma_symbol_injective(a: int, b: int)
    requires
        0 <= a < 64,
        0 <= b < 64,
        symbol(a) == symbol(b),
    ensures
        a == b,
{
    lemma_symbol_code(a);
    lemma_symbol_code(b);
}

proof fn lemma_symbol_code(a: int)
    requires
        0 <= a < 64,
    ensures
        symbol(a) as u32 == if a < 26 {
            65 + a
        } else if a < 52 {
            71 + a
        } else if a < 62 {
            a - 4
        } else if a == 62 {
            43
        } else {
            47
        },
        symbol(a) != '=',
{
}

/// Base64 loses nothing: bytes with the same base64 text are the same bytes.
pub proof fn lemma_base64_injective(a: Seq<u8>, b: Seq<u8>)
    requires
        base64_text(a) == base64_text(b),
    ensures
        a == b,
    decreases a.len(),
{
    let s = base64_text(a);
    let t = base64_text(b);
    if a.len() == 0 {
        assert(b.len() == 0) by {
            if b.len() > 0 {
                assert(t.len() >= 4);
            }
        }
        assert(a =~= b);
    } else {
        assert(b.len() > 0) by {
            assert(s.len() >= 4);
        }
        let (x, y, z) = (at(a, 0), at(a, 1), at(a, 2));
        let (u, v, w) = (at(b, 0), at(b, 1), at(b, 2));
        assert(s[0] == t[0] && s[1] == t[1] && s[2] == t[2] && s[3] == t[3]);
        lemma_symbol_injective(x / 4, u / 4);
        if a.len() >= 3 {
            lemma_symbol_code(y % 16 * 4 + z / 64);
            lemma_symbol_code(z % 64);
        } else if a.len() == 2 {
            lemma_symbol_code(y % 16 * 4);
        }
        if b.len() >= 3 {
            lemma_symbol_code(v % 16 * 4 + w / 64);
            lemma_symbol_code(w % 64);
        } else if b.len() == 2 {
            lemma_symbol_code(v % 16 * 4);
        }
        if a.len() == 1 {
            assert(b.len() == 1);
            lemma_symbol_injective(x % 4 * 16, u % 4 * 16);
            assert(x == u);
            assert(a =~= b);
        } else if a.len() == 2 {
            assert(b.len() == 2);
            lemma_symbol_injective(x % 4 * 16 + y / 16, u % 4 * 16 + v / 16);
            lemma_symbol_injective(y % 16 * 4, v % 16 * 4);
            assert(x == u && y == v);
            assert(a =~= b);
        } else {
            assert(b.len() >= 3);
            lemma_symbol_injective(x % 4 * 16 + y / 16, u % 4 * 16 + v / 16);
            lemma_symbol_injective(y % 16 * 4 + z / 64, v % 16 * 4 + w / 64);
            lemma_symbol_injective(z % 64, w % 64);
            assert(x == u && y == v && z == w);
            assert(s.skip(4) =~= base64_text(a.skip(3)));
            assert(t.skip(4) =~= base64_text(b.skip(3)));
            lemma_base64_injective(a.skip(3), b.skip(3));
            assert forall|i: int| 0 <= i < a.len() implies a[i] == b[i] by {
                if i >= 3 {
                    assert(a[i] == a.skip(3)[i - 3]);
                    assert(b[i] == b.skip(3)[i - 3]);
                }
            }
            assert(a.len() == a.skip(3).len() + 3 && b.len() == b.skip(3).len() + 3);
            assert(a =~= b);
        }
    }
}

/// The alphabet: the letters, the small letters, the digits, and two signs.
pub proof fn law_base64_alphabet(n: int)
    requires
        0 <= n < 64,
    ensures
        symbol(0) == 'A' && symbol(25) == 'Z' && symbol(26) == 'a' && symbol(51) == 'z',
        symbol(52) == '0' && symbol(61) == '9' && symbol(62) == '+' && symbol(63) == '/',
        n != 25 && n != 51 && n < 61 ==> symbol(n + 1) as u32 == symbol(n) as u32 + 1,
{
    lemma_symbol_code(n);
    if n < 63 {
        lemma_symbol_code(n + 1);
    }
}

/// Four symbols for each three bytes, or what is left of three.
pub proof fn law_base64_length(bytes: Seq<u8>)
    ensures
        base64_text(bytes).len() == 4 * ((bytes.len() + 2) / 3),
    decreases bytes.len(),
{
    if bytes.len() >= 3 {
        law_base64_length(bytes.skip(3));
    }
}

} // verus!
