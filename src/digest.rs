use vstd::prelude::*;

verus! {

/// The SHA-512 digest of a byte string.
pub uninterp spec fn sha512_of(data: Seq<u8>) -> Seq<u8>;

/// Lower-case hexadecimal text of a byte string: two digits per byte, high
/// digit first.
pub open spec fn hex_text(b: Seq<u8>) -> Seq<char>
    decreases b.len(),
{
    if b.len() == 0 {
        Seq::empty()
    } else {
        hex_text(b.drop_last()) + seq![
            "0123456789abcdef"@[(b.last() / 16) as int],
            "0123456789abcdef"@[(b.last() % 16) as int],
        ]
    }
}

/// Relies on sha2::Sha512: the digest depends on the bytes alone and is 64
/// bytes long.
#[verifier::external_body]
fn sha512_digest(data: &Vec<u8>) -> (r: Vec<u8>)
    ensures
        r@ == sha512_of(data@),
        r@.len() == 64,
{
    <sha2::Sha512 as sha2::Digest>::digest(data.as_slice()).to_vec()
}

/// Relies on hex::encode: two lower-case hexadecimal digits per byte.
#[verifier::external_body]
fn hex_encode(b: &Vec<u8>) -> (r: String)
    ensures
        r@ == hex_text(b@),
{
    hex::encode(b)
}

/// The SHA-512 digest of a byte string as lower-case hexadecimal text.
pub fn sha512_hex(data: &Vec<u8>) -> (r: String)
    ensures
        r@ == hex_text(sha512_of(data@)),
        r@.len() == 128,
{
    let d = sha512_digest(data);
    proof {
        lemma_hex_text_len(d@);
    }
    hex_encode(&d)
}

proof fn lemma_hex_text_len(b: Seq<u8>)
    ensures
        hex_text(b).len() == 2 * b.len(),
    decreases b.len(),
{
    if b.len() > 0 {
        lemma_hex_text_len(b.drop_last());
    }
}

} // verus!
