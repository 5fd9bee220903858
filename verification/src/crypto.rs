//! Encryption of secrets with AES-256-GCM.
//!
//! A sealed text is `base64(ciphertext) ":" base64(nonce)`, where the
//! ciphertext is the AES-256-GCM encryption of the base64 text of the
//! plaintext, under a random nonce of eight bytes whose base64 text (twelve
//! characters) serves as the cipher's nonce.

use vstd::prelude::*;
use vstd::string::StringSliceAdditionalSpecFns;
use vstd::utf8::*;

use aes_gcm::aead::{generic_array::GenericArray, Aead, NewAead};
use aes_gcm::Aes256Gcm;

use crate::text::utf8_text;

verus! {

broadcast use {encode_utf8_valid_utf8, encode_utf8_decode_utf8, is_ascii_chars_encode_utf8};

/// We need a separator that is not used with base64 encoding.
pub const NONCE_SEPARATOR: &'static str = ":";

/// The number of random bytes in a nonce.
pub const NONCE_SIZE: usize = 8;

/// The number of bytes of a key, as AES-256 requires.
pub const KEY_SIZE: usize = 32;

/// The length of the base64 text of a nonce, the nonce size of AES-GCM.
pub const NONCE_TEXT_SIZE: usize = 12;

/// The longest plaintext that AES-GCM encrypts, in bytes.
pub const AES_GCM_MAX_PLAINTEXT: u64 = 68719476736;

/// The shortest message on which AES-GCM exhausts its 32-bit block counter
/// (which starts at the second block), in bytes: 2^36 - 16.
pub const AES_GCM_KEYSTREAM_LIMIT: u64 = 68719476720;

/// The length of ciphertext (with its tag) from which an authenticated
/// ciphertext exhausts the block counter when it is decrypted: 2^36 bytes.
pub const AES_GCM_MAX_CIPHERTEXT: u64 = 68719476736;

/// The length of the authentication tag that AES-GCM appends.
pub const AES_GCM_TAG_SIZE: usize = 16;

/// The base64 text (standard alphabet, padded) of `data`.
pub uninterp spec fn base64_encoding(data: Seq<u8>) -> Seq<char>;

/// The bytes that a base64 text (standard alphabet, padded) stands for, or
/// `None` where the text is no such encoding.
pub uninterp spec fn base64_decoding(text: Seq<u8>) -> Option<Seq<u8>>;

/// The AES-256-GCM encryption (ciphertext then tag) of `plaintext` under
/// `key` and `nonce`, without associated data.
pub uninterp spec fn aes256gcm_seal(key: Seq<u8>, nonce: Seq<u8>, plaintext: Seq<u8>) -> Seq<u8>;

/// The AES-256-GCM decryption of `ciphertext` under `key` and `nonce`, without
/// associated data, or `None` where the tag does not authenticate it.
pub uninterp spec fn aes256gcm_open(key: Seq<u8>, nonce: Seq<u8>, ciphertext: Seq<u8>) -> Option<
    Seq<u8>,
>;

/// The length of the padded base64 text of `n` bytes.
pub open spec fn base64_len(n: nat) -> nat {
    4 * ((n + 2) / 3)
}

/// Whether `c` belongs to the standard base64 alphabet or is the padding sign.
pub open spec fn is_base64_char(c: char) -> bool {
    ||| 'A' <= c <= 'Z'
    ||| 'a' <= c <= 'z'
    ||| '0' <= c <= '9'
    ||| c == '+'
    ||| c == '/'
    ||| c == '='
}

/// Whether every character of `text` is a base64 character.
pub open spec fn is_base64_text(text: Seq<char>) -> bool {
    forall|i: int| 0 <= i < text.len() ==> is_base64_char(#[trigger] text[i])
}

/// Encodes `data` in base64 with the standard alphabet and padding.
///
/// Calls `base64::encode`. Trusted: the text is the named encoding of `data`,
/// its length is `4 * ceil(len / 3)` (the crate's `encoded_size` with padding),
/// it holds only characters of the standard alphabet and `=`, and decoding
/// its bytes gives back `data`. The crate panics when that length overflows
/// `usize`, which `requires` leaves out.
#[verifier::external_body]
fn base64_encode(data: &[u8]) -> (res: String)
    requires
        base64_len(data@.len()) <= usize::MAX,
    ensures
        res@ == base64_encoding(data@),
        res@.len() == base64_len(data@.len()),
        is_base64_text(res@),
        base64_decoding(encode_utf8(res@)) == Some(data@),
{
    base64::encode(data)
}

/// Decodes a base64 text (standard alphabet, padded).
///
/// Calls `base64::decode`. Trusted: the result is the named decoding of the
/// text, `None` where the crate returns an error. The crate panics when the
/// length plus three overflows `usize`, which `requires` leaves out.
#[verifier::external_body]
fn base64_decode(text: &[u8]) -> (res: Option<Vec<u8>>)
    requires
        text@.len() + 3 <= usize::MAX,
    ensures
        match res {
            Some(v) => base64_decoding(text@) == Some(v@),
            None => base64_decoding(text@) is None,
        },
{
    base64::decode(text).ok()
}

/// Encrypts `plaintext` with AES-256-GCM under `key` and `nonce`.
///
/// Builds the cipher with `Aes256Gcm::new` and calls `Aead::encrypt`.
/// Trusted: it fails exactly when the plaintext is longer than the crate's
/// `P_MAX` (2^36 bytes); otherwise the ciphertext is the named encryption,
/// sixteen bytes (the tag) longer than the plaintext, and decrypting it under
/// the same key and nonce gives back the plaintext. `GenericArray::from_slice`
/// panics unless the key has 32 bytes and the nonce 12, and the counter mode
/// (`ctr`'s `apply_keystream`) panics on plaintexts of 2^36 - 16 bytes up to
/// `P_MAX`, whose blocks overflow the 32-bit counter; `requires` leaves these
/// inputs out.
#[verifier::external_body]
#[allow(deprecated)]
fn aes256gcm_encrypt(key: &[u8], nonce: &[u8], plaintext: &[u8]) -> (res: Option<Vec<u8>>)
    requires
        key@.len() == KEY_SIZE,
        nonce@.len() == NONCE_TEXT_SIZE,
        plaintext@.len() < AES_GCM_KEYSTREAM_LIMIT || plaintext@.len() > AES_GCM_MAX_PLAINTEXT,
    ensures
        res is Some <==> plaintext@.len() <= AES_GCM_MAX_PLAINTEXT,
        res matches Some(c) ==> {
            &&& c@ == aes256gcm_seal(key@, nonce@, plaintext@)
            &&& c@.len() == plaintext@.len() + AES_GCM_TAG_SIZE
            &&& aes256gcm_open(key@, nonce@, c@) == Some(plaintext@)
        },
{
    let cipher = Aes256Gcm::new(GenericArray::from_slice(key));
    cipher.encrypt(GenericArray::from_slice(nonce), plaintext).ok()
}

/// Decrypts `ciphertext` with AES-256-GCM under `key` and `nonce`.
///
/// Builds the cipher with `Aes256Gcm::new` and calls `Aead::decrypt`.
/// Trusted: the result is the named decryption, `None` where the crate returns
/// an error. `GenericArray::from_slice` panics unless the key has 32 bytes and
/// the nonce 12, and the counter mode panics on an authenticated ciphertext of
/// 2^36 bytes or more (its message overflows the 32-bit block counter);
/// `requires` leaves these inputs out.
#[verifier::external_body]
#[allow(deprecated)]
fn aes256gcm_decrypt(key: &[u8], nonce: &[u8], ciphertext: &[u8]) -> (res: Option<Vec<u8>>)
    requires
        key@.len() == KEY_SIZE,
        nonce@.len() == NONCE_TEXT_SIZE,
        ciphertext@.len() < AES_GCM_MAX_CIPHERTEXT,
    ensures
        match res {
            Some(p) => aes256gcm_open(key@, nonce@, ciphertext@) == Some(p@),
            None => aes256gcm_open(key@, nonce@, ciphertext@) is None,
        },
{
    let cipher = Aes256Gcm::new(GenericArray::from_slice(key));
    cipher.decrypt(GenericArray::from_slice(nonce), ciphertext).ok()
}

/// Draws a fresh nonce.
///
/// Calls `rand::random`. Nothing is stated of the bytes: they come from the
/// thread's random number generator.
#[verifier::external_body]
fn random_nonce() -> (res: [u8; NONCE_SIZE]) {
    rand::random::<[u8; NONCE_SIZE]>()
}

/// Whether `text` holds the separator at `i` and nowhere else.
pub open spec fn sole_separator_at(text: Seq<char>, i: int) -> bool {
    &&& 0 <= i < text.len()
    &&& text[i] == ':'
    &&& forall|j: int| 0 <= j < text.len() && j != i ==> text[j] != ':'
}

/// Whether `text` holds the separator exactly once.
pub open spec fn has_sole_separator(text: Seq<char>) -> bool {
    exists|i: int| sole_separator_at(text, i)
}

/// The sealed text of `plaintext` under `key` and `nonce`, or the empty text
/// where the cipher refuses the plaintext as too long.
pub open spec fn sealed_text(plaintext: Seq<char>, key: Seq<u8>, nonce: Seq<u8>) -> Seq<char> {
    let nonce_text = base64_encoding(nonce);
    let payload = encode_utf8(base64_encoding(encode_utf8(plaintext)));
    if payload.len() > AES_GCM_MAX_PLAINTEXT {
        Seq::empty()
    } else {
        base64_encoding(aes256gcm_seal(key, encode_utf8(nonce_text), payload)) + seq![':']
            + nonce_text
    }
}

/// The plaintext that a sealed text opens to under `key`, or `None` on the
/// inputs on which decryption fails.
pub open spec fn opened_text(cipher_text: Seq<char>, key: Seq<u8>) -> Option<Seq<char>> {
    if !has_sole_separator(cipher_text) {
        None
    } else {
        let i = choose|i: int| sole_separator_at(cipher_text, i);
        let body = encode_utf8(cipher_text.take(i));
        let nonce = encode_utf8(cipher_text.skip(i + 1));
        if nonce.len() != NONCE_TEXT_SIZE || body.len() + 3 > usize::MAX {
            None
        } else {
            match base64_decoding(body) {
                None => None,
                Some(ciphertext) => if ciphertext.len() >= AES_GCM_MAX_CIPHERTEXT {
                    None
                } else {
                    match aes256gcm_open(key, nonce, ciphertext) {
                    None => None,
                    Some(payload) => if payload.len() + 3 > usize::MAX {
                        None
                    } else {
                        match base64_decoding(payload) {
                            None => None,
                            Some(bytes) => if valid_utf8(bytes) {
                                Some(decode_utf8(bytes))
                            } else {
                                None
                            },
                        }
                    },
                    }
                },
            }
        }
    }
}

/// The text of `plaintext` that AES-GCM seals: the bytes of its base64 text.
pub open spec fn sealed_payload(plaintext: Seq<char>) -> Seq<u8> {
    encode_utf8(base64_encoding(encode_utf8(plaintext)))
}

/// A sealed text is the base64 text of a ciphertext, the separator, then the
/// base64 text of the nonce; the ciphertext is the AES-GCM sealing of the
/// base64 text of the plaintext under the key and, as the cipher's nonce, the
/// very bytes of the nonce text written after the separator.
pub proof fn sealed_text_uses_written_nonce(plaintext: Seq<char>, key: Seq<u8>, nonce: Seq<u8>)
    ensures
        sealed_payload(plaintext).len() <= AES_GCM_MAX_PLAINTEXT ==> sealed_text(
            plaintext,
            key,
            nonce,
        ) == base64_encoding(
            aes256gcm_seal(key, encode_utf8(base64_encoding(nonce)), sealed_payload(plaintext)),
        ) + seq![':'] + base64_encoding(nonce),
        sealed_payload(plaintext).len() > AES_GCM_MAX_PLAINTEXT ==> sealed_text(
            plaintext,
            key,
            nonce,
        ) == Seq::<char>::empty(),
{
}

/// A text `body:nonce` (neither part holding the separator) opens to a
/// plaintext only where the body decodes to a ciphertext that AES-GCM opens
/// under the key and, as the cipher's nonce, the very bytes of the text after
/// the separator, to the base64 text of that plaintext; and wherever these
/// steps succeed on inputs short enough, it opens to that plaintext.
pub proof fn opened_text_uses_written_nonce(body: Seq<char>, nonce: Seq<char>, key: Seq<u8>)
    requires
        forall|i: int| 0 <= i < body.len() ==> body[i] != ':',
        forall|i: int| 0 <= i < nonce.len() ==> nonce[i] != ':',
    ensures
        opened_text(body + seq![':'] + nonce, key) matches Some(p) ==> {
            &&& base64_decoding(encode_utf8(body)) matches Some(ciphertext)
            &&& aes256gcm_open(key, encode_utf8(nonce), ciphertext) matches Some(payload)
            &&& base64_decoding(payload) matches Some(bytes)
            &&& valid_utf8(bytes)
            &&& p == decode_utf8(bytes)
        },
        ({
            &&& encode_utf8(nonce).len() == NONCE_TEXT_SIZE
            &&& encode_utf8(body).len() + 3 <= usize::MAX
            &&& base64_decoding(encode_utf8(body)) matches Some(ciphertext)
            &&& ciphertext.len() < AES_GCM_MAX_CIPHERTEXT
            &&& aes256gcm_open(key, encode_utf8(nonce), ciphertext) matches Some(payload)
            &&& payload.len() + 3 <= usize::MAX
            &&& base64_decoding(payload) matches Some(bytes)
            &&& valid_utf8(bytes)
        }) ==> opened_text(body + seq![':'] + nonce, key) == Some(
            decode_utf8(base64_decoding(aes256gcm_open(key, encode_utf8(nonce), base64_decoding(
                encode_utf8(body),
            )->0)->0)->0),
        ),
{
    let text = body + seq![':'] + nonce;
    let k = body.len() as int;
    assert(sole_separator_at(text, k));
    let i = choose|i: int| sole_separator_at(text, i);
    assert(i == k);
    assert(text.take(k) =~= body);
    assert(text.skip(k + 1) =~= nonce);
}

/// Whether encrypting a plaintext of `n` bytes runs to its end: the base64
/// texts built fit in memory, and the base64 text of the plaintext is not
/// long enough to overflow the cipher's block counter (from 2^36 - 16 bytes)
/// while still short enough to be accepted (up to 2^36 bytes).
pub open spec fn encryption_representable(n: nat) -> bool {
    &&& base64_len(n) <= usize::MAX
    &&& (base64_len(n) < AES_GCM_KEYSTREAM_LIMIT || base64_len(n) > AES_GCM_MAX_PLAINTEXT)
    &&& base64_len(n) <= AES_GCM_MAX_PLAINTEXT ==> base64_len(base64_len(n) + AES_GCM_TAG_SIZE as nat)
        <= usize::MAX
}

/// Whether a plaintext of `n` bytes is accepted by the cipher and its sealed
/// text is short enough to be decoded again.
pub open spec fn encryption_reversible(n: nat) -> bool {
    &&& base64_len(n) < AES_GCM_KEYSTREAM_LIMIT
    &&& base64_len(base64_len(n) + AES_GCM_TAG_SIZE as nat) + 3 <= usize::MAX
}

/// The position of the sole separator of `text`, if it holds exactly one.
fn find_sole_separator(text: &str) -> (res: Option<usize>)
    ensures
        match res {
            Some(i) => sole_separator_at(text@, i as int),
            None => !has_sole_separator(text@),
        },
{
    let n = text.unicode_len();
    let mut found: Option<usize> = None;
    let mut i: usize = 0;
    while i < n
        invariant
            n == text@.len(),
            i <= n,
            match found {
                Some(k) => k < i && text@[k as int] == ':' && forall|j: int|
                    0 <= j < i && j != k ==> text@[j] != ':',
                None => forall|j: int| 0 <= j < i ==> text@[j] != ':',
            },
        decreases n - i,
    {
        if text.get_char(i) == ':' {
            if found.is_some() {
                proof {
                    let k = found->0 as int;
                    assert forall|m: int| !sole_separator_at(text@, m) by {
                        if sole_separator_at(text@, m) {
                            assert(m == k || m == i);
                        }
                    }
                }
                return None;
            }
            found = Some(i);
        }
        i = i + 1;
    }
    if found.is_none() {
        assert forall|m: int| !sole_separator_at(text@, m) by {
            if sole_separator_at(text@, m) {
                assert(text@[m] == ':');
            }
        }
    }
    found
}

/// Encrypts `plaintext` under `key`, with the given eight bytes as nonce.
///
/// The result is the empty string where the cipher refuses the plaintext as
/// too long, and otherwise holds the separator exactly once, followed by the
/// twelve characters of the nonce's base64 text. Where the sealed
/// text is short enough to be decoded again, it opens to `plaintext` under
/// `key`. A key of another length than 32 bytes is refused by `requires`.
pub fn encrypt_with_nonce(plaintext: &str, key: &str, nonce: &[u8]) -> (res: String)
    requires
        key.spec_bytes().len() == KEY_SIZE,
        nonce@.len() == NONCE_SIZE,
        encryption_representable(plaintext.spec_bytes().len()),
    ensures
        res@ == sealed_text(plaintext@, key.spec_bytes(), nonce@),
        base64_len(plaintext.spec_bytes().len()) <= AES_GCM_MAX_PLAINTEXT ==> sole_separator_at(
            res@,
            res@.len() - 1 - NONCE_TEXT_SIZE,
        ),
        encryption_reversible(plaintext.spec_bytes().len()) ==> opened_text(
            res@,
            key.spec_bytes(),
        ) == Some(plaintext@),
{
    let nonce_text = base64_encode(nonce);
    let payload_text = base64_encode(plaintext.as_bytes());
    proof {
        base64_ascii(nonce_text@);
        base64_ascii(payload_text@);
    }
    let nonce_bytes = nonce_text.as_str().as_bytes();
    let payload = payload_text.as_str().as_bytes();
    let ciphertext = match aes256gcm_encrypt(key.as_bytes(), nonce_bytes, payload) {
        Some(c) => c,
        None => {
            return String::new();
        },
    };
    let body = base64_encode(ciphertext.as_slice());
    let mut res = String::from_str(body.as_str());
    res.append(NONCE_SEPARATOR);
    res.append(nonce_text.as_str());
    proof {
        reveal_strlit(":");
        let r = res@;
        let b = body@;
        assert(r =~= b + seq![':'] + nonce_text@);
        base64_ascii(b);
        base64_has_no_separator(b);
        base64_has_no_separator(nonce_text@);
        let k = b.len() as int;
        assert(sole_separator_at(r, k));
        assert(k == r.len() - 1 - NONCE_TEXT_SIZE);
        if encryption_reversible(plaintext.spec_bytes().len()) {
            let i = choose|i: int| sole_separator_at(r, i);
            assert(i == k);
            assert(r.take(k) =~= b);
            assert(r.skip(k + 1) =~= nonce_text@);
        }
    }
    res
}

/// Encrypts `plaintext` under `key` with a fresh random nonce.
///
/// The result is the sealed text of `plaintext` under some nonce of eight
/// bytes (the empty string where the cipher refuses the plaintext as too
/// long, and otherwise a text that holds the separator exactly once, followed
/// by the twelve characters of the nonce's base64 text); where
/// it is short enough to be decoded again, it opens to `plaintext` under
/// `key`. A key of another length than 32 bytes is refused by `requires`.
pub fn encrypt(plaintext: &str, key: &str) -> (res: String)
    requires
        key.spec_bytes().len() == KEY_SIZE,
        encryption_representable(plaintext.spec_bytes().len()),
    ensures
        exists|nonce: Seq<u8>|
            nonce.len() == NONCE_SIZE && res@ == #[trigger] sealed_text(
                plaintext@,
                key.spec_bytes(),
                nonce,
            ),
        base64_len(plaintext.spec_bytes().len()) <= AES_GCM_MAX_PLAINTEXT ==> sole_separator_at(
            res@,
            res@.len() - 1 - NONCE_TEXT_SIZE,
        ),
        encryption_reversible(plaintext.spec_bytes().len()) ==> opened_text(
            res@,
            key.spec_bytes(),
        ) == Some(plaintext@),
{
    let nonce = random_nonce();
    let res = encrypt_with_nonce(plaintext, key, nonce.as_slice());
    assert(res@ == sealed_text(plaintext@, key.spec_bytes(), nonce@));
    res
}

/// A base64 text is ASCII, so its bytes are its characters.
proof fn base64_ascii(text: Seq<char>)
    requires
        is_base64_text(text),
    ensures
        is_ascii_chars(text),
        encode_utf8(text).len() == text.len(),
{
    assert forall|i: int| 0 <= i < text.len() implies '\0' <= #[trigger] text[i] <= '\u{7f}' by {
        assert(is_base64_char(text[i]));
    }
    is_ascii_chars_encode_utf8(text);
}

/// A base64 text never holds the separator.
proof fn base64_has_no_separator(text: Seq<char>)
    requires
        is_base64_text(text),
    ensures
        forall|i: int| 0 <= i < text.len() ==> text[i] != ':',
{
    assert forall|i: int| 0 <= i < text.len() implies text[i] != ':' by {
        assert(is_base64_char(text[i]));
    }
}

/// Opens a sealed text under a key of the right length, or gives `None` on
/// the inputs on which decryption fails.
fn open_sealed_text(cipher_text: &str, key: &str) -> (res: Option<String>)
    requires
        key.spec_bytes().len() == KEY_SIZE,
    ensures
        match res {
            Some(p) => opened_text(cipher_text@, key.spec_bytes()) == Some(p@),
            None => opened_text(cipher_text@, key.spec_bytes()) is None,
        },
{
    let i = match find_sole_separator(cipher_text) {
        Some(i) => i,
        None => {
            return None;
        },
    };
    let n = cipher_text.unicode_len();
    let body_text = cipher_text.substring_char(0, i);
    let nonce_text = cipher_text.substring_char(i + 1, n);
    proof {
        let j = choose|j: int| sole_separator_at(cipher_text@, j);
        assert(j == i as int);
        assert(body_text@ =~= cipher_text@.take(i as int));
        assert(nonce_text@ =~= cipher_text@.skip(i + 1));
    }
    let body = body_text.as_bytes();
    let nonce = nonce_text.as_bytes();
    if nonce.len() != NONCE_TEXT_SIZE || body.len() > usize::MAX - 3 {
        return None;
    }
    let ciphertext = match base64_decode(body) {
        Some(c) => c,
        None => {
            return None;
        },
    };
    if ciphertext.len() as u64 >= AES_GCM_MAX_CIPHERTEXT {
        return None;
    }
    let payload = match aes256gcm_decrypt(key.as_bytes(), nonce, ciphertext.as_slice()) {
        Some(p) => p,
        None => {
            return None;
        },
    };
    if payload.len() > usize::MAX - 3 {
        return None;
    }
    let bytes = match base64_decode(payload.as_slice()) {
        Some(b) => b,
        None => {
            return None;
        },
    };
    match utf8_text(bytes.as_slice()) {
        Ok(text) => Some(text),
        Err(_) => None,
    }
}

/// Decrypts a sealed text under `key`.
///
/// Decryption fails (and the call is refused by `requires`) where the text
/// does not hold the separator exactly once, where its halves are no base64
/// texts of a ciphertext and a nonce, where the tag does not authenticate the
/// ciphertext under `key`, or where the plaintext is no base64 text of UTF-8.
pub fn decrypt(cipher_text: &str, key: &str) -> (plaintext: String)
    requires
        key.spec_bytes().len() == KEY_SIZE,
        opened_text(cipher_text@, key.spec_bytes()) is Some,
    ensures
        Some(plaintext@) == opened_text(cipher_text@, key.spec_bytes()),
{
    match open_sealed_text(cipher_text, key) {
        Some(p) => p,
        None => String::new(),
    }
}

/// Decrypts a sealed text under `key` where decryption succeeds, and gives
/// `None` (where `decrypt` would fail) otherwise: on a key of another length
/// than 32 bytes, or on the inputs that `decrypt` refuses.
pub fn try_decrypt(cipher_text: &str, key: &str) -> (res: Option<String>)
    ensures
        res is Some <==> key.spec_bytes().len() == KEY_SIZE && opened_text(
            cipher_text@,
            key.spec_bytes(),
        ) is Some,
        res matches Some(p) ==> Some(p@) == opened_text(cipher_text@, key.spec_bytes()),
{
    if key.as_bytes().len() != KEY_SIZE {
        return None;
    }
    match open_sealed_text(cipher_text, key) {
        Some(_) => Some(decrypt(cipher_text, key)),
        None => None,
    }
}

} // verus!
