//! Byte-level codecs of the client.
//!
//! The chain's canonical binary serialization encodes a byte sequence as a
//! ULEB128 length prefix followed by the bytes themselves; call arguments
//! are strings encoded this way over their UTF-8 bytes. The signing key and
//! the contract address arrive as hex text and are decoded here as well.

use vstd::prelude::*;
use vstd::string::StrSliceExecFns;
use vstd::utf8::encode_utf8;

use crate::errors::RegistryError;

verus! {

/// The ULEB128 encoding of `n`: seven value bits per byte, least significant
/// group first, the high bit of every byte but the last set.
pub open spec fn uleb128(n: nat) -> Seq<u8>
    decreases n,
{
    if n < 128 {
        seq![n as u8]
    } else {
        seq![(n % 128 + 128) as u8] + uleb128(n / 128)
    }
}

/// The canonical binary encoding of a byte sequence: its ULEB128-encoded
/// length, then the bytes.
pub open spec fn bcs_bytes(data: Seq<u8>) -> Seq<u8> {
    uleb128(data.len()) + data
}

/// The canonical binary encoding of a string: [`bcs_bytes`] over its UTF-8
/// bytes.
pub open spec fn bcs_string(s: Seq<char>) -> Seq<u8> {
    bcs_bytes(encode_utf8(s))
}

/// Writes the ULEB128 encoding of `n`.
pub fn encode_uleb128(n: u64) -> (r: Vec<u8>)
    ensures
        r@ == uleb128(n as nat),
{
    let mut out: Vec<u8> = Vec::new();
    let mut m: u64 = n;
    proof {
        assert(Seq::<u8>::empty() + uleb128(n as nat) =~= uleb128(n as nat));
    }
    while m >= 128
        invariant
            uleb128(n as nat) == out@ + uleb128(m as nat),
        decreases m,
    {
        let b: u8 = (m % 128 + 128) as u8;
        proof {
            assert(uleb128(m as nat) == seq![b] + uleb128((m as nat) / 128));
            assert(out@.push(b) + uleb128((m as nat) / 128) =~= out@ + uleb128(m as nat));
            assert((m / 128) as nat == (m as nat) / 128);
        }
        out.push(b);
        m = m / 128;
    }
    proof {
        assert(uleb128(m as nat) == seq![m as u8]);
        assert(out@.push(m as u8) =~= out@ + uleb128(m as nat));
    }
    out.push(m as u8);
    out
}

/// Length-prefix-encodes a byte sequence in the chain's canonical form.
pub fn bcs_encode_bytes(data: &Vec<u8>) -> (r: Vec<u8>)
    ensures
        r@ == bcs_bytes(data@),
{
    let mut r = encode_uleb128(data.len() as u64);
    r.extend_from_slice(data.as_slice());
    r
}

/// Length-prefix-encodes a string's UTF-8 bytes in the chain's canonical
/// form; the encoding of one argument never depends on any other argument.
pub fn bcs_encode_string(s: &str) -> (r: Vec<u8>)
    ensures
        r@ == bcs_string(s@),
{
    let bytes = s.as_bytes_vec();
    bcs_encode_bytes(&bytes)
}

/// True of the sixteen hex digit characters, both cases.
pub open spec fn is_hex_digit(c: char) -> bool {
    ('0' <= c && c <= '9') || ('a' <= c && c <= 'f') || ('A' <= c && c <= 'F')
}

/// The numeric value of a hex digit character; meaningful only when
/// [`is_hex_digit`] holds of it.
pub open spec fn hex_digit_value(c: char) -> u8 {
    if '0' <= c && c <= '9' {
        ((c as u8) - ('0' as u8)) as u8
    } else if 'a' <= c && c <= 'f' {
        ((c as u8) - ('a' as u8) + 10) as u8
    } else {
        ((c as u8) - ('A' as u8) + 10) as u8
    }
}

/// True when `s` is well-formed hex text: even length, hex digits only.
pub open spec fn hex_ok(s: Seq<char>) -> bool {
    s.len() % 2 == 0 && (forall|i: int| 0 <= i < s.len() ==> is_hex_digit(#[trigger] s[i]))
}

/// The bytes that well-formed hex text denotes, one byte per digit pair.
pub open spec fn hex_decoded(s: Seq<char>) -> Seq<u8> {
    Seq::new(s.len() / 2, |i: int| (hex_digit_value(s[2 * i]) * 16 + hex_digit_value(s[2 * i + 1])) as u8)
}

/// The numeric value of one hex digit, or `None` for any other character.
fn hex_digit(c: char) -> (r: Option<u8>)
    ensures
        r is Some <==> is_hex_digit(c),
        r is Some ==> r->0 == hex_digit_value(c),
{
    let u = c as u32;
    if 48 <= u && u <= 57 {
        Some((u - 48) as u8)
    } else if 97 <= u && u <= 102 {
        Some((u - 97 + 10) as u8)
    } else if 65 <= u && u <= 70 {
        Some((u - 65 + 10) as u8)
    } else {
        None
    }
}

/// Decodes hex text into bytes; fails with [`RegistryError::KeyDecodeError`]
/// exactly on odd length or a non-hex character.
pub fn hex_decode(s: &str) -> (r: Result<Vec<u8>, RegistryError>)
    ensures
        r is Ok <==> hex_ok(s@),
        r is Ok ==> r->Ok_0@ == hex_decoded(s@),
        r is Err ==> r->Err_0 == RegistryError::KeyDecodeError,
{
    let n = s.unicode_len();
    if n % 2 != 0 {
        return Err(RegistryError::KeyDecodeError);
    }
    let mut out: Vec<u8> = Vec::new();
    let mut i: usize = 0;
    while i < n
        invariant
            n == s@.len(),
            n % 2 == 0,
            i % 2 == 0,
            i <= n,
            out@.len() == i / 2,
            forall|j: int| 0 <= j < i ==> is_hex_digit(#[trigger] s@[j]),
            forall|k: int|
                0 <= k < i / 2 ==> out@[k] == (hex_digit_value(s@[2 * k]) * 16 + hex_digit_value(
                    s@[2 * k + 1],
                )) as u8,
        decreases n - i,
    {
        let hi = match hex_digit(s.get_char(i)) {
            Some(v) => v,
            None => {
                return Err(RegistryError::KeyDecodeError);
            },
        };
        let lo = match hex_digit(s.get_char(i + 1)) {
            Some(v) => v,
            None => {
                return Err(RegistryError::KeyDecodeError);
            },
        };
        out.push(hi * 16 + lo);
        i = i + 2;
    }
    proof {
        assert(out@ =~= hex_decoded(s@));
    }
    Ok(out)
}

/// Decodes the hex-encoded signing key; fails with
/// [`RegistryError::KeyDecodeError`] unless the text is well-formed hex
/// denoting exactly 32 bytes.
pub fn decode_private_key(s: &str) -> (r: Result<Vec<u8>, RegistryError>)
    ensures
        r is Ok <==> hex_ok(s@) && hex_decoded(s@).len() == 32,
        r is Ok ==> r->Ok_0@ == hex_decoded(s@),
        r is Err ==> r->Err_0 == RegistryError::KeyDecodeError,
{
    match hex_decode(s) {
        Ok(bytes) => {
            if bytes.len() == 32 {
                Ok(bytes)
            } else {
                Err(RegistryError::KeyDecodeError)
            }
        },
        Err(e) => Err(e),
    }
}

/// True when `s` names a contract address: `0x` followed by at least one hex
/// digit.
pub open spec fn valid_module_address(s: Seq<char>) -> bool {
    s.len() > 2 && s[0] == '0' && s[1] == 'x' && (forall|i: int|
        2 <= i < s.len() ==> is_hex_digit(#[trigger] s[i]))
}

/// Checks the configured contract address; fails with
/// [`RegistryError::ConfigError`] exactly when it is missing or malformed.
pub fn validate_module_address(s: &str) -> (r: Result<(), RegistryError>)
    ensures
        r is Ok <==> valid_module_address(s@),
        r is Err ==> r->Err_0 == RegistryError::ConfigError,
{
    let n = s.unicode_len();
    if n <= 2 {
        return Err(RegistryError::ConfigError);
    }
    if s.get_char(0) != '0' || s.get_char(1) != 'x' {
        return Err(RegistryError::ConfigError);
    }
    let mut i: usize = 2;
    while i < n
        invariant
            n == s@.len(),
            2 <= i <= n,
            n > 2,
            s@[0] == '0',
            s@[1] == 'x',
            forall|j: int| 2 <= j < i ==> is_hex_digit(#[trigger] s@[j]),
        decreases n - i,
    {
        if hex_digit(s.get_char(i)).is_none() {
            return Err(RegistryError::ConfigError);
        }
        i = i + 1;
    }
    Ok(())
}

} // verus!
