//! Fixed-width, NUL-terminated text fields.

use vstd::prelude::*;
use vstd::utf8::{decode_utf8, encode_utf8, valid_utf8};

verus! {

/// The bytes of a field before its first NUL, or the whole field when it
/// holds none.
pub open spec fn until_nul(b: Seq<u8>) -> Seq<u8>
    decreases b.len(),
{
    if b.len() == 0 || b[0] == 0 {
        Seq::empty()
    } else {
        seq![b[0]] + until_nul(b.drop_first())
    }
}

/// What `String::from_utf8_lossy` makes of a byte sequence.
pub uninterp spec fn lossy_utf8(b: Seq<u8>) -> Seq<char>;

/// Bytes read as UTF-8: decoded as they stand when valid, else with each
/// invalid sequence replaced by U+FFFD.
pub open spec fn utf8_text(b: Seq<u8>) -> Seq<char> {
    if valid_utf8(b) {
        decode_utf8(b)
    } else {
        lossy_utf8(b)
    }
}

/// The text a fixed-width field holds.
pub open spec fn field_text(b: Seq<u8>) -> Seq<char> {
    utf8_text(until_nul(b))
}

/// A text written into a field of `width` bytes: its UTF-8 bytes, then NULs.
pub open spec fn fixed_field(s: Seq<char>, width: nat) -> Seq<u8> {
    encode_utf8(s) + Seq::new((width - encode_utf8(s).len()) as nat, |i: int| 0u8)
}

/// Relies on `String::from_utf8_lossy`: its result depends on the bytes
/// alone, and bytes that are valid UTF-8 are decoded as they stand.
#[verifier::external_body]
fn utf8_lossy(b: &[u8]) -> (r: String)
    ensures
        valid_utf8(b@) ==> r@ == decode_utf8(b@),
        !valid_utf8(b@) ==> r@ == lossy_utf8(b@),
{
    String::from_utf8_lossy(b).into_owned()
}

/// `n` is where the text of field `b` ends: no NUL before it, and a NUL at
/// it unless it is the end of the field.
pub open spec fn is_text_end(b: Seq<u8>, n: int) -> bool {
    &&& 0 <= n <= b.len()
    &&& forall|i: int| 0 <= i < n ==> b[i] != 0
    &&& n < b.len() ==> b[n] == 0
}

proof fn lemma_until_nul_is_prefix(b: Seq<u8>, n: int)
    requires
        is_text_end(b, n),
    ensures
        until_nul(b) == b.take(n),
    decreases b.len(),
{
    if n == 0 {
        assert(b.take(0) =~= Seq::<u8>::empty());
    } else {
        let rest = b.drop_first();
        assert(is_text_end(rest, n - 1)) by {
            assert forall|i: int| 0 <= i < n - 1 implies rest[i] != 0 by {
                assert(b[i + 1] != 0);
            }
        }
        lemma_until_nul_is_prefix(rest, n - 1);
        assert(b.take(n) =~= seq![b[0]] + rest.take(n - 1));
    }
}

proof fn lemma_until_nul_no_zero(b: Seq<u8>)
    ensures
        until_nul(b).len() <= b.len(),
        forall|i: int| 0 <= i < until_nul(b).len() ==> until_nul(b)[i] != 0,
    decreases b.len(),
{
    if b.len() != 0 && b[0] != 0 {
        lemma_until_nul_no_zero(b.drop_first());
    }
}

/// Decodes a fixed-width text field: the bytes before the first NUL, read as
/// UTF-8 with invalid sequences replaced.
pub fn convert_string(bytes: &[u8]) -> (r: String)
    ensures
        r@ == field_text(bytes@),
{
    let mut n: usize = 0;
    while n < bytes.len() && bytes[n] != 0
        invariant
            n <= bytes@.len(),
            forall|i: int| 0 <= i < n ==> bytes@[i] != 0,
        decreases bytes.len() - n,
    {
        n = n + 1;
    }
    proof {
        lemma_until_nul_is_prefix(bytes@, n as int);
    }
    let text = vstd::slice::slice_subrange(bytes, 0, n);
    assert(text@ =~= bytes@.take(n as int));
    utf8_lossy(text)
}

/// Decoding a fixed-width field whose bytes before the first NUL are valid
/// UTF-8 and writing the text back into a field of the same width gives the
/// field's bytes up to its first NUL, then NULs; decoding that field again
/// gives the same text.
pub proof fn lemma_text_field_round_trip(field: Seq<u8>)
    requires
        valid_utf8(until_nul(field)),
    ensures
        encode_utf8(field_text(field)) == until_nul(field),
        fixed_field(field_text(field), field.len()) == until_nul(field) + Seq::new(
            (field.len() - until_nul(field).len()) as nat,
            |i: int| 0u8,
        ),
        field_text(fixed_field(field_text(field), field.len())) == field_text(field),
{
    let u = until_nul(field);
    let w = field.len();
    vstd::utf8::decode_utf8_encode_utf8(u);
    lemma_until_nul_no_zero(field);
    let z = Seq::new((w - u.len()) as nat, |i: int| 0u8);
    let f = u + z;
    assert(fixed_field(field_text(field), w) == f);
    assert(is_text_end(f, u.len() as int)) by {
        assert forall|i: int| 0 <= i < u.len() implies f[i] != 0 by {
            assert(f[i] == u[i]);
        }
    }
    lemma_until_nul_is_prefix(f, u.len() as int);
    assert(f.take(u.len() as int) =~= u);
}

} // verus!
