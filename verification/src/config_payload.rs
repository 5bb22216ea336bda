//! The encrypted remote-configuration payload.
//!
//! The payload arrives as text: a base64 IV on its first non-blank line and
//! a base64 ciphertext on its second, decrypted with AES-256-CBC under a
//! hex-encoded key.  Fetching the text and parsing the decrypted JSON stay
//! with the runner; splitting, decoding and decrypting are decided here.

use vstd::prelude::*;

use crate::errors::NgError;
use crate::text::trim;
use crate::text::trimmed;
use cipher::{BlockDecryptMut, KeyIvInit};

verus! {

/// The trimmed, non-blank lines of a text, split on `\n`, with `cur` the
/// partial line already read.
pub open spec fn nonblank_lines_acc(s: Seq<char>, cur: Seq<char>) -> Seq<Seq<char>>
    decreases s.len(),
{
    if s.len() == 0 {
        if trimmed(cur).len() > 0 {
            seq![trimmed(cur)]
        } else {
            Seq::empty()
        }
    } else if s[0] == '\n' {
        if trimmed(cur).len() > 0 {
            seq![trimmed(cur)] + nonblank_lines_acc(s.subrange(1, s.len() as int), Seq::empty())
        } else {
            nonblank_lines_acc(s.subrange(1, s.len() as int), Seq::empty())
        }
    } else {
        nonblank_lines_acc(s.subrange(1, s.len() as int), cur.push(s[0]))
    }
}

/// The trimmed, non-blank lines of a text.
pub open spec fn payload_lines(s: Seq<char>) -> Seq<Seq<char>> {
    nonblank_lines_acc(s, Seq::empty())
}

/// The first two trimmed, non-blank lines of a payload text, or `None`
/// when there are fewer.
pub fn first_two_payload_lines(content: &str) -> (r: Option<(String, String)>)
    ensures
        ({
            let nb = payload_lines(content@);
            match r {
                Some(pair) => nb.len() >= 2 && pair.0@ == nb[0] && pair.1@ == nb[1],
                None => nb.len() < 2,
            }
        }),
{
    let n = content.unicode_len();
    let mut out: Vec<String> = Vec::new();
    let mut start: usize = 0;
    let mut i: usize = 0;
    proof {
        assert(content@.subrange(0, n as int) =~= content@);
        assert(content@.subrange(0, 0) =~= Seq::<char>::empty());
        assert(out.deep_view() =~= Seq::<Seq<char>>::empty());
        assert(Seq::<Seq<char>>::empty() + payload_lines(content@) =~= payload_lines(content@));
    }
    while i < n
        invariant
            0 <= start <= i <= n,
            n == content@.len(),
            forall|k: int| start <= k < i ==> content@[k] != '\n',
            payload_lines(content@) == out.deep_view() + nonblank_lines_acc(
                content@.subrange(i as int, n as int),
                content@.subrange(start as int, i as int),
            ),
        decreases n - i,
    {
        let c = content.get_char(i);
        proof {
            let rest = content@.subrange(i as int, n as int);
            let cur = content@.subrange(start as int, i as int);
            assert(rest[0] == c);
            assert(rest.subrange(1, rest.len() as int) =~= content@.subrange(
                i + 1,
                n as int,
            ));
            if c == '\n' {
                assert(content@.subrange(i + 1, i + 1) =~= Seq::<char>::empty());
            } else {
                assert(cur.push(c) =~= content@.subrange(start as int, i + 1));
            }
        }
        if c == '\n' {
            let line = content.substring_char(start, i);
            let t = trim(line);
            if !t.as_str().is_empty() {
                let ghost old_out = out.deep_view();
                out.push(t);
                proof {
                    assert(out.deep_view() =~= old_out.push(
                        trimmed(content@.subrange(start as int, i as int)),
                    ));
                    assert(old_out.push(trimmed(content@.subrange(start as int, i as int)))
                        =~= old_out + seq![
                        trimmed(content@.subrange(start as int, i as int)),
                    ]);
                }
            }
            start = i + 1;
        }
        i += 1;
    }
    let tail = content.substring_char(start, n);
    let t = trim(tail);
    if !t.as_str().is_empty() {
        let ghost old_out = out.deep_view();
        out.push(t);
        proof {
            assert(content@.subrange(n as int, n as int) =~= Seq::<char>::empty());
            assert(out.deep_view() =~= old_out + seq![
                trimmed(content@.subrange(start as int, n as int)),
            ]);
        }
    } else {
        proof {
            assert(content@.subrange(n as int, n as int) =~= Seq::<char>::empty());
            assert(out.deep_view() + Seq::<Seq<char>>::empty() =~= out.deep_view());
        }
    }
    if out.len() < 2 {
        return None;
    }
    let mut it = out;
    let second = it.remove(1);
    let first = it.remove(0);
    Some((first, second))
}

/// What base64's standard-alphabet decode yields for a text, when it
/// decodes.
pub uninterp spec fn b64_standard_decoded(s: Seq<char>) -> Option<Seq<u8>>;

/// Relies on base64's `Engine::decode` with the standard engine: the bytes
/// a text decodes to, a function of the text alone.
#[verifier::external_body]
pub(crate) fn b64_decode(s: &str) -> (r: Option<Vec<u8>>)
    ensures
        r is Some <==> b64_standard_decoded(s@) is Some,
        r matches Some(v) ==> b64_standard_decoded(s@) == Some(v@),
{
    match base64::Engine::decode(&base64::engine::general_purpose::STANDARD, s) {
        Ok(v) => Some(v),
        Err(_) => None,
    }
}

/// True for the characters hex decoding accepts.
pub open spec fn is_hex_digit(c: char) -> bool {
    ('0' <= c && c <= '9') || ('a' <= c && c <= 'f') || ('A' <= c && c <= 'F')
}

/// Numeric value of a hex digit character.
pub open spec fn hex_digit_val(c: char) -> int {
    if '0' <= c && c <= '9' {
        c as int - '0' as int
    } else if 'a' <= c && c <= 'f' {
        c as int - 'a' as int + 10
    } else {
        c as int - 'A' as int + 10
    }
}

/// True when a text is well-formed hex: even length, hex digits only.
pub open spec fn hex_decodes(s: Seq<char>) -> bool {
    s.len() % 2 == 0 && (forall|i: int| 0 <= i < s.len() ==> is_hex_digit(#[trigger] s[i]))
}

/// The bytes a well-formed hex text decodes to: two digits per byte, high
/// digit first.
pub open spec fn hex_bytes(s: Seq<char>) -> Seq<u8> {
    Seq::new((s.len() / 2) as nat, |i: int| (16 * hex_digit_val(s[2 * i]) + hex_digit_val(s[2 * i + 1])) as u8)
}

/// Relies on hex's `decode`: a text of hex digit pairs decodes to its
/// bytes, high digit first; an odd length or any other character is
/// rejected.
#[verifier::external_body]
fn hex_decode(s: &str) -> (r: Option<Vec<u8>>)
    ensures
        r is Some <==> hex_decodes(s@),
        r matches Some(v) ==> v@ == hex_bytes(s@),
{
    match hex::decode(s) {
        Ok(v) => Some(v),
        Err(_) => None,
    }
}

/// What AES-256-CBC decryption with PKCS#7 unpadding yields for a 32-byte
/// key, a 16-byte IV and a ciphertext, when the padding checks out.
pub uninterp spec fn aes256_cbc_decrypted(key: Seq<u8>, iv: Seq<u8>, ct: Seq<u8>) -> Option<
    Seq<u8>,
>;

/// Relies on cbc's `Decryptor` over aes's `Aes256` with cipher's `Pkcs7`
/// unpadding: the plaintext of a ciphertext under the key and IV, a
/// function of the three alone.
#[verifier::external_body]
fn aes256_cbc_decrypt(key: &Vec<u8>, iv: &Vec<u8>, ct: &Vec<u8>) -> (r: Option<Vec<u8>>)
    requires
        key@.len() == 32,
        iv@.len() == 16,
    ensures
        r is Some <==> aes256_cbc_decrypted(key@, iv@, ct@) is Some,
        r matches Some(v) ==> aes256_cbc_decrypted(key@, iv@, ct@) == Some(v@),
{
    let dec = match cbc::Decryptor::<aes::Aes256>::new_from_slices(key, iv) {
        Ok(d) => d,
        Err(_) => return None,
    };
    let mut buf = ct.clone();
    match dec.decrypt_padded_mut::<cipher::block_padding::Pkcs7>(&mut buf) {
        Ok(pt) => Some(pt.to_vec()),
        Err(_) => None,
    }
}

/// The first `n` bytes of a buffer.
fn take_bytes(v: &Vec<u8>, n: usize) -> (r: Vec<u8>)
    requires
        n <= v@.len(),
    ensures
        r@ == v@.subrange(0, n as int),
{
    let mut r: Vec<u8> = Vec::new();
    let mut i: usize = 0;
    while i < n
        invariant
            0 <= i <= n <= v@.len(),
            r@ == v@.subrange(0, i as int),
        decreases n - i,
    {
        let b = v[i];
        r.push(b);
        proof {
            assert(v@.subrange(0, i as int).push(v@[i as int]) =~= v@.subrange(0, i + 1));
        }
        i += 1;
    }
    r
}

/// True when the payload decodes and decrypts all the way through.
pub open spec fn payload_decrypts(content: Seq<char>, password: Seq<char>) -> bool {
    let nb = payload_lines(content);
    &&& nb.len() >= 2
    &&& b64_standard_decoded(nb[0]) is Some
    &&& b64_standard_decoded(nb[0])->0.len() >= 16
    &&& b64_standard_decoded(nb[1]) is Some
    &&& hex_decodes(trimmed(password))
    &&& hex_bytes(trimmed(password)).len() >= 32
    &&& aes256_cbc_decrypted(
        hex_bytes(trimmed(password)).subrange(0, 32),
        b64_standard_decoded(nb[0])->0.subrange(0, 16),
        b64_standard_decoded(nb[1])->0,
    ) is Some
}

/// The plaintext a payload decrypts to, when it does.
pub open spec fn payload_plaintext(content: Seq<char>, password: Seq<char>) -> Seq<u8> {
    let nb = payload_lines(content);
    aes256_cbc_decrypted(
        hex_bytes(trimmed(password)).subrange(0, 32),
        b64_standard_decoded(nb[0])->0.subrange(0, 16),
        b64_standard_decoded(nb[1])->0,
    )->0
}

/// The message of the first check a broken payload fails.
pub open spec fn payload_failure_msg(content: Seq<char>, password: Seq<char>) -> Seq<char> {
    let nb = payload_lines(content);
    if nb.len() < 2 {
        "Invalid S3 file format: expected IV and Ciphertext"@
    } else if b64_standard_decoded(nb[0]) is None {
        "Invalid IV"@
    } else if b64_standard_decoded(nb[1]) is None {
        "Invalid Ciphertext"@
    } else if !hex_decodes(trimmed(password)) {
        "Invalid Key Hex"@
    } else if hex_bytes(trimmed(password)).len() < 32 || b64_standard_decoded(nb[0])->0.len()
        < 16 {
        "Invalid key or IV length"@
    } else {
        "Decryption failed"@
    }
}

/// Splits, decodes and decrypts a remote configuration payload.  The text
/// holds a base64 IV and a base64 ciphertext on its first two non-blank
/// lines; the password is the hex-encoded 32-byte key.  Returns the
/// decrypted bytes, or a configuration error naming the first check that
/// failed.
pub fn decrypt_config_payload(content: &str, password: &str) -> (r: Result<Vec<u8>, NgError>)
    ensures
        r is Ok <==> payload_decrypts(content@, password@),
        r matches Ok(pt) ==> pt@ == payload_plaintext(content@, password@),
        r matches Err(e) ==> (e matches NgError::ConfigError(m) && m@ == payload_failure_msg(
            content@,
            password@,
        )),
{
    let pair = match first_two_payload_lines(content) {
        Some(p) => p,
        None => {
            return Err(
                NgError::ConfigError(
                    String::from_str("Invalid S3 file format: expected IV and Ciphertext"),
                ),
            );
        },
    };
    let iv_full = match b64_decode(pair.0.as_str()) {
        Some(v) => v,
        None => { return Err(NgError::ConfigError(String::from_str("Invalid IV"))) },
    };
    let ct = match b64_decode(pair.1.as_str()) {
        Some(v) => v,
        None => { return Err(NgError::ConfigError(String::from_str("Invalid Ciphertext"))) },
    };
    let key_hex = trim(password);
    let key_full = match hex_decode(key_hex.as_str()) {
        Some(v) => v,
        None => { return Err(NgError::ConfigError(String::from_str("Invalid Key Hex"))) },
    };
    if key_full.len() < 32 || iv_full.len() < 16 {
        return Err(NgError::ConfigError(String::from_str("Invalid key or IV length")));
    }
    let key = take_bytes(&key_full, 32);
    let iv = take_bytes(&iv_full, 16);
    match aes256_cbc_decrypt(&key, &iv, &ct) {
        Some(pt) => Ok(pt),
        None => Err(NgError::ConfigError(String::from_str("Decryption failed"))),
    }
}

} // verus!
