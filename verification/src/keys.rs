use vstd::prelude::*;

verus! {

/// The text form that an account key takes when it is printed: the base58
/// encoding of its 32 bytes, as `Pubkey`'s `Display` writes it.
pub uninterp spec fn spec_key_text(key: Seq<u8>) -> Seq<char>;

/// Prints an account key through `solana_program::pubkey::Pubkey`'s `Display`.
/// Trusted: the text is claimed to be `spec_key_text` of the key's bytes, a
/// function of the bytes alone, and no other byte sequence prints to the same
/// text (base58 writes the leading zero bytes as leading '1's and the rest as
/// the digits of a number, so the text determines the bytes). Nothing else is
/// claimed of the text.
#[verifier::external_body]
fn key_to_string(key: &[u8; 32]) -> (text: String)
    ensures
        text@ == spec_key_text(key@),
        forall|other: Seq<u8>| #[trigger] spec_key_text(other) == text@ ==> other == key@,
{
    solana_program::pubkey::Pubkey::new_from_array(*key).to_string()
}

/// Whether two keys print to the same text, which they do exactly when they
/// are the same key.
pub fn same_key_text(a: &[u8; 32], b: &[u8; 32]) -> (same: bool)
    ensures
        same == (spec_key_text(a@) == spec_key_text(b@)),
        same == (a@ == b@),
{
    let ta = key_to_string(a);
    let tb = key_to_string(b);
    proof {
        if spec_key_text(a@) == spec_key_text(b@) {
            assert(spec_key_text(a@) == tb@);
        }
    }
    ta == tb
}

/// Whether two keys are the same 32 bytes.
pub fn keys_equal(a: &[u8; 32], b: &[u8; 32]) -> (same: bool)
    ensures
        same == (a@ == b@),
{
    let mut i: usize = 0;
    while i < 32
        invariant
            0 <= i <= 32,
            a@.len() == 32,
            b@.len() == 32,
            forall|j: int| 0 <= j < i ==> a@[j] == b@[j],
        decreases 32 - i,
    {
        if a[i] != b[i] {
            assert(a@[i as int] != b@[i as int]);
            return false;
        }
        i = i + 1;
    }
    assert(a@ =~= b@);
    true
}

} // verus!
