//! The structural hash of a header: a digest of its declared field layout.
//!
//! Two independently built cells agree on a header's shape exactly when they
//! hash the same field list, so the hash is taken over a text made from the
//! list alone: each field's name and type, in declaration order.

use vstd::prelude::*;
use vstd::utf8::encode_utf8;

verus! {

/// The SHA-256 digest of a byte sequence.
pub uninterp spec fn sha256_of(data: Seq<u8>) -> Seq<u8>;

/// Relies on sha2's `Sha256::digest`: the SHA-256 digest of `data`.
#[verifier::external_body]
fn sha256(data: &[u8]) -> (r: [u8; 32])
    ensures
        r@ == sha256_of(data@),
{
    <sha2::Sha256 as sha2::Digest>::digest(data).into()
}

/// One field of a header as declared: its name and its type, spelled as in
/// the declaration.
#[derive(Clone, Copy, Debug)]
pub struct HeaderField {
    pub name: &'static str,
    pub ty: &'static str,
}

/// The text of one field: `name:type;`.
pub open spec fn field_text(f: HeaderField) -> Seq<char> {
    f.name@ + ":"@ + f.ty@ + ";"@
}

/// The text of a field list: its fields' texts in order.
pub open spec fn layout_text(fields: Seq<HeaderField>) -> Seq<char>
    decreases fields.len(),
{
    if fields.len() == 0 {
        Seq::empty()
    } else {
        layout_text(fields.drop_last()) + field_text(fields.last())
    }
}

/// The text of a field list that its structural hash is taken over.
pub fn layout_description(fields: &[HeaderField]) -> (r: String)
    ensures
        r@ == layout_text(fields@),
{
    let mut s = String::new();
    let mut i: usize = 0;
    while i < fields.len()
        invariant
            i <= fields@.len(),
            s@ == layout_text(fields@.take(i as int)),
        decreases fields@.len() - i,
    {
        let f = &fields[i];
        let ghost before = s@;
        s.append(f.name);
        s.append(":");
        s.append(f.ty);
        s.append(";");
        assert(fields@.take(i + 1).drop_last() =~= fields@.take(i as int));
        assert(s@ =~= before + field_text(fields@[i as int]));
        i = i + 1;
    }
    assert(fields@.take(i as int) =~= fields@);
    s
}

/// The structural hash of a header declared with `fields`: the SHA-256
/// digest of the UTF-8 bytes of its layout text.
pub fn structural_hash(fields: &[HeaderField]) -> (r: [u8; 32])
    ensures
        r@ == sha256_of(encode_utf8(layout_text(fields@))),
{
    let text = layout_description(fields);
    sha256(text.as_str().as_bytes())
}

} // verus!
