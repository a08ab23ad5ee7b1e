//! SHA-256 identities in lowercase hexadecimal.
use sha2::Digest;
use vstd::prelude::*;

use crate::text::characters;

verus! {

/// What SHA-256 gives for a byte string.
pub uninterp spec fn sha256(data: Seq<u8>) -> Seq<u8>;

/// Hashes two byte strings as one message with `sha2::Sha256`: `new`, one
/// `update` for each, then `finalize`. The digest is SHA-256 of their
/// concatenation and has 32 bytes.
#[verifier::external_body]
pub(crate) fn sha256_of(first: &[u8], second: &[u8]) -> (digest: Vec<u8>)
    ensures
        digest@ == sha256(first@ + second@),
        digest@.len() == 32,
{
    let mut hasher = sha2::Sha256::new();
    hasher.update(first);
    hasher.update(second);
    hasher.finalize().to_vec()
}

/// The lowercase hexadecimal digit of a value below sixteen.
pub open spec fn hex_digit(n: int) -> char {
    if n < 10 {
        ('0' as u32 + n) as char
    } else {
        ('a' as u32 + (n - 10)) as char
    }
}

/// Two lowercase hexadecimal digits for each byte, the high half first.
pub open spec fn lower_hex(data: Seq<u8>) -> Seq<char> {
    Seq::new(
        2 * data.len(),
        |i: int|
            if i % 2 == 0 {
                hex_digit(data[i / 2] as int / 16)
            } else {
                hex_digit(data[i / 2] as int % 16)
            },
    )
}

/// Whether `c` is a decimal digit or one of `a` to `f`.
pub open spec fn is_lower_hex_digit(c: char) -> bool {
    '0' <= c <= '9' || 'a' <= c <= 'f'
}

/// Whether `text` has the shape of a SHA-256 digest: 64 lowercase hexadecimal digits.
pub open spec fn is_digest_text(text: Seq<char>) -> bool {
    text.len() == 64 && forall|i: int|
        0 <= i < text.len() ==> is_lower_hex_digit(#[trigger] text[i])
}

fn hex_char(n: u8) -> (c: char)
    requires
        n < 16,
    ensures
        c == hex_digit(n as int),
        is_lower_hex_digit(c),
{
    if n < 10 {
        (48u8 + n) as char
    } else {
        (97u8 + (n - 10)) as char
    }
}

/// Writes bytes in lowercase hexadecimal.
pub fn hex_text(data: &[u8]) -> (text: String)
    ensures
        text@ == lower_hex(data@),
        forall|i: int| 0 <= i < text@.len() ==> is_lower_hex_digit(#[trigger] text@[i]),
{
    let mut text = String::new();
    let mut at: usize = 0;
    while at < data.len()
        invariant
            at <= data@.len(),
            text@ == lower_hex(data@.take(at as int)),
            forall|i: int| 0 <= i < text@.len() ==> is_lower_hex_digit(#[trigger] text@[i]),
        decreases data@.len() - at,
    {
        let byte = data[at];
        text.push(hex_char(byte / 16));
        text.push(hex_char(byte % 16));
        at += 1;
        assert(text@ =~= lower_hex(data@.take(at as int)));
    }
    assert(data@.take(at as int) =~= data@);
    text
}

/// Whether `digest` is 64 lowercase hexadecimal digits.
pub fn is_sha256_digest(digest: &str) -> (valid: bool)
    ensures
        valid == is_digest_text(digest@),
{
    let all = characters(digest);
    if all.len() != 64 {
        return false;
    }
    let mut at: usize = 0;
    while at < all.len()
        invariant
            all@ == digest@,
            at <= all@.len(),
            forall|i: int| 0 <= i < at ==> is_lower_hex_digit(#[trigger] digest@[i]),
        decreases all@.len() - at,
    {
        let c = all[at];
        if !('0' <= c && c <= '9' || 'a' <= c && c <= 'f') {
            assert(!is_lower_hex_digit(digest@[at as int]));
            return false;
        }
        at += 1;
    }
    true
}

/// The digest that identifies a guest runtime with the given contents.
pub open spec fn runtime_identity(contents: Seq<u8>) -> Seq<char> {
    lower_hex(sha256(vstd::utf8::encode_utf8(IDENTITY_VERSION@) + contents))
}

/// Marks the identity of a guest runtime apart from any other hash.
pub const IDENTITY_VERSION: &'static str = "nanoeval-vm-guest-runtime-v2\0";

/// The digest under which a guest runtime with these contents is cached.
pub fn runtime_digest(bytes: &[u8]) -> (digest: String)
    ensures
        digest@ == runtime_identity(bytes@),
        is_digest_text(digest@),
{
    let digest = sha256_of(IDENTITY_VERSION.as_bytes(), bytes);
    hex_text(digest.as_slice())
}

/// The value of a hexadecimal digit.
pub open spec fn hex_value(c: char) -> int {
    let code = c as int;
    if 48 <= code <= 57 {
        code - 48
    } else if 97 <= code <= 102 {
        code - 87
    } else {
        -1
    }
}

/// Hexadecimal text has two digits for each byte, which give the byte back.
pub proof fn law_hexadecimal_gives_the_bytes_back(data: Seq<u8>)
    ensures
        lower_hex(data).len() == 2 * data.len(),
        forall|i: int|
            0 <= i < data.len() ==> (#[trigger] data[i]) as int == 16 * hex_value(
                lower_hex(data)[2 * i],
            ) + hex_value(lower_hex(data)[2 * i + 1]),
        forall|i: int|
            0 <= i < lower_hex(data).len() ==> 0 <= hex_value(#[trigger] lower_hex(data)[i]) < 16,
{
    assert forall|i: int| 0 <= i < data.len() implies (#[trigger] data[i]) as int == 16 * hex_value(
        lower_hex(data)[2 * i],
    ) + hex_value(lower_hex(data)[2 * i + 1]) by {
        assert((2 * i) / 2 == i && (2 * i + 1) / 2 == i);
    }
}

/// Hexadecimal texts differ where their bytes do.
pub proof fn law_hexadecimal_is_told_apart(one: Seq<u8>, other: Seq<u8>)
    requires
        lower_hex(one) == lower_hex(other),
    ensures
        one == other,
{
    law_hexadecimal_gives_the_bytes_back(one);
    law_hexadecimal_gives_the_bytes_back(other);
    assert forall|i: int| 0 <= i < one.len() implies one[i] == other[i] by {
        assert(one[i] as int == other[i] as int);
    }
    assert(one =~= other);
}

/// A text is a digest exactly when it is 64 digits of lowercase hexadecimal: that
/// of 32 bytes is one, that of any other number is none.
pub proof fn law_digest_texts(text: Seq<char>, data: Seq<u8>)
    ensures
        is_digest_text(text) <==> text.len() == 64 && forall|i: int|
            0 <= i < text.len() ==> hex_value(#[trigger] text[i]) >= 0,
        is_digest_text(lower_hex(data)) <==> data.len() == 32,
{
    assert forall|c: char| #[trigger] is_lower_hex_digit(c) <==> hex_value(c) >= 0 by {}
    law_hexadecimal_gives_the_bytes_back(data);
    if is_digest_text(text) {
        assert forall|i: int| 0 <= i < text.len() implies hex_value(#[trigger] text[i]) >= 0 by {
            assert(is_lower_hex_digit(text[i]));
        }
    }
    if data.len() == 32 {
        assert forall|i: int| 0 <= i < lower_hex(data).len() implies is_lower_hex_digit(
            #[trigger] lower_hex(data)[i],
        ) by {
            assert(hex_value(lower_hex(data)[i]) >= 0);
        }
    }
}

/// The identity of a runtime is the hash of its contents behind a mark, written in
/// hexadecimal: its digits give the bytes of that hash back.
pub proof fn law_identity_is_the_hash_of_the_contents(bytes: &[u8], digest: String)
    requires
        call_ensures(runtime_digest, (bytes,), digest),
    ensures
        ({
            let hash = sha256(
                vstd::utf8::encode_utf8("nanoeval-vm-guest-runtime-v2\0"@) + bytes@,
            );
            &&& digest@.len() == 2 * hash.len() == 64
            &&& forall|i: int|
                0 <= i < hash.len() ==> (#[trigger] hash[i]) as int == 16 * hex_value(digest@[2 * i])
                    + hex_value(digest@[2 * i + 1])
        }),
        digest@ == runtime_identity(bytes@),
{
    law_hexadecimal_gives_the_bytes_back(
        sha256(vstd::utf8::encode_utf8("nanoeval-vm-guest-runtime-v2\0"@) + bytes@),
    );
}

/// Runtimes with different identities have different contents, and runtimes with
/// equal identities have equal hashes.
pub proof fn law_identities_are_told_apart(one: Seq<u8>, other: Seq<u8>)
    ensures
        one == other ==> runtime_identity(one) == runtime_identity(other),
        runtime_identity(one) == runtime_identity(other) ==> sha256(
            vstd::utf8::encode_utf8("nanoeval-vm-guest-runtime-v2\0"@) + one,
        ) == sha256(vstd::utf8::encode_utf8("nanoeval-vm-guest-runtime-v2\0"@) + other),
{
    if runtime_identity(one) == runtime_identity(other) {
        law_hexadecimal_is_told_apart(
            sha256(vstd::utf8::encode_utf8("nanoeval-vm-guest-runtime-v2\0"@) + one),
            sha256(vstd::utf8::encode_utf8("nanoeval-vm-guest-runtime-v2\0"@) + other),
        );
    }
}

/// Bytes are written with two digits each, from which the bytes can be read again;
/// and a text is taken for a digest exactly when it has 64 characters, each a decimal
/// digit or a letter from `a` to `f`.
pub proof fn law_digest_calls(data: &[u8], text: String, digest: &str, valid: bool)
    requires
        call_ensures(hex_text, (data,), text),
        call_ensures(is_sha256_digest, (digest,), valid),
    ensures
        text@ == lower_hex(data@),
        text@.len() == 2 * data@.len(),
        valid <==> digest@.len() == 64 && forall|i: int|
            0 <= i < 64 ==> 48 <= (#[trigger] digest@[i]) as int <= 57 || 97 <= digest@[i] as int
                <= 102,
{
}

} // verus!
