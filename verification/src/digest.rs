//! SHA-256 commitments with explicit domain separation, rendered as lowercase hex.
use vstd::prelude::*;
use vstd::utf8::*;
use sha2::Digest;

verus! {

/// The SHA-256 digest of a byte sequence, as computed by the `sha2` crate.
pub uninterp spec fn sha256(data: Seq<u8>) -> Seq<u8>;

/// Trusted: `sha2::Sha256::digest` returns the 32-byte SHA-256 digest of `data`.
/// The contract names the digest (`sha256`) and states its length; nothing else about
/// the hash function is claimed.
#[verifier::external_body]
fn sha256_digest(data: &[u8]) -> (r: Vec<u8>)
    ensures
        r@ == sha256(data@),
        r@.len() == 32,
{
    sha2::Sha256::digest(data).to_vec()
}

/// The lowercase hexadecimal digit for a value below 16.
pub open spec fn hex_digit(d: nat) -> char {
    if d < 10 {
        (48 + d) as char
    } else {
        (87 + d) as char
    }
}

/// Two lowercase hex digits per byte, most significant digit first.
pub open spec fn lower_hex(bytes: Seq<u8>) -> Seq<char>
    decreases bytes.len(),
{
    if bytes.len() == 0 {
        Seq::empty()
    } else {
        lower_hex(bytes.drop_last()) + seq![
            hex_digit((bytes.last() / 16) as nat),
            hex_digit((bytes.last() % 16) as nat),
        ]
    }
}

pub(crate) fn hex_digit_str(d: u8) -> (r: &'static str)
    requires
        d < 16,
    ensures
        r@ == seq![hex_digit(d as nat)],
{
    let digits = "0123456789abcdef";
    proof {
        reveal_strlit("0123456789abcdef");
    }
    let r = digits.substring_ascii(d as usize, d as usize + 1);
    assert(r@ =~= seq![hex_digit(d as nat)]);
    r
}

/// Renders bytes as lowercase hexadecimal.
pub fn to_lower_hex(bytes: &[u8]) -> (r: String)
    ensures
        r@ == lower_hex(bytes@),
{
    let mut s = String::new();
    let n = bytes.len();
    for i in 0..n
        invariant
            n == bytes@.len(),
            s@ == lower_hex(bytes@.take(i as int)),
    {
        let b = bytes[i];
        s.append(hex_digit_str(b / 16));
        s.append(hex_digit_str(b % 16));
        assert(bytes@.take(i + 1).drop_last() =~= bytes@.take(i as int));
    }
    assert(bytes@.take(n as int) =~= bytes@);
    s
}


/// Whether a byte is an ASCII digit or a lowercase letter `a`–`f`.
pub open spec fn is_lower_hex_byte(b: u8) -> bool {
    (48 <= b <= 57) || (97 <= b <= 102)
}

/// Whether bytes spell a SHA-256 digest in lowercase hex: 64 lowercase hex digits.
pub open spec fn is_lower_sha256_hex(bytes: Seq<u8>) -> bool {
    &&& bytes.len() == 64
    &&& forall|i: int| 0 <= i < bytes.len() ==> is_lower_hex_byte(#[trigger] bytes[i])
}

/// The message that a commitment hashes: the domain's UTF-8 bytes, one zero byte,
/// then the serialized value.
pub open spec fn framed(domain: Seq<char>, value_json: Seq<u8>) -> Seq<u8> {
    encode_utf8(domain) + seq![0u8] + value_json
}

/// The commitment to a serialized value under a domain: lowercase hex of the SHA-256
/// digest of the framed message.
pub open spec fn commitment_of(domain: Seq<char>, value_json: Seq<u8>) -> Seq<char> {
    lower_hex(sha256(framed(domain, value_json)))
}

fn append_bytes(v: &mut Vec<u8>, b: &[u8])
    ensures
        final(v)@ == old(v)@ + b@,
{
    let n = b.len();
    let ghost start = v@;
    for i in 0..n
        invariant
            n == b@.len(),
            v@ == start + b@.take(i as int),
    {
        v.push(b[i]);
        assert(b@.take(i + 1) =~= b@.take(i as int).push(b@[i as int]));
    }
    assert(b@.take(n as int) =~= b@);
}

/// Hash the serialized value `value_json` under `domain`. The caller supplies the
/// value's compact JSON serialization; the commitment binds exactly those bytes, so
/// array order, string contents and values matter.
pub fn commitment(domain: &str, value_json: &[u8]) -> (r: String)
    ensures
        r@ == commitment_of(domain@, value_json@),
        r@ == lower_hex(sha256(encode_utf8(domain@) + seq![0u8] + value_json@)),
        sha256(framed(domain@, value_json@)).len() == 32,
{
    let mut message: Vec<u8> = Vec::new();
    append_bytes(&mut message, domain.as_bytes());
    message.push(0u8);
    append_bytes(&mut message, value_json);
    assert(message@ =~= framed(domain@, value_json@));
    let digest = sha256_digest(message.as_slice());
    to_lower_hex(digest.as_slice())
}

proof fn lemma_lower_hex_shape(bytes: Seq<u8>)
    ensures
        lower_hex(bytes).len() == 2 * bytes.len(),
        forall|i: int|
            0 <= i < lower_hex(bytes).len() ==> {
                let c = #[trigger] lower_hex(bytes)[i] as int;
                (48 <= c <= 57) || (97 <= c <= 102)
            },
    decreases bytes.len(),
{
    if bytes.len() > 0 {
        lemma_lower_hex_shape(bytes.drop_last());
    }
}

/// A commitment whose digest has SHA-256's 32 bytes is spelled in 64 lowercase hex digits.
pub proof fn lemma_commitment_is_lower_hex(domain: Seq<char>, value_json: Seq<u8>)
    requires
        sha256(framed(domain, value_json)).len() == 32,
    ensures
        is_lower_sha256_hex(encode_utf8(commitment_of(domain, value_json))),
        commitment_of(domain, value_json).len() == 64,
{
    let h = commitment_of(domain, value_json);
    lemma_lower_hex_shape(sha256(framed(domain, value_json)));
    assert forall|i: int| 0 <= i < h.len() implies '\0' <= #[trigger] h[i] <= '\u{7f}' by {
        let c = h[i] as int;
        assert((48 <= c <= 57) || (97 <= c <= 102));
    }
    assert(is_ascii_chars(h));
    is_ascii_chars_encode_utf8(h);
    let e = encode_utf8(h);
    assert forall|i: int| 0 <= i < e.len() implies is_lower_hex_byte(#[trigger] e[i]) by {
        assert(h[i] as u8 == e[i]);
        let c = h[i] as int;
        assert((48 <= c <= 57) || (97 <= c <= 102));
    }
}

} // verus!
