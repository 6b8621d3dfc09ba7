use vstd::prelude::*;

verus! {

/// A 32-byte account address.
#[derive(Clone, Copy, Debug)]
pub struct Key {
    pub bytes: [u8; 32],
}

impl View for Key {
    type V = Seq<u8>;

    open spec fn view(&self) -> Seq<u8> {
        self.bytes@
    }
}

impl Key {
    pub fn new(bytes: [u8; 32]) -> (r: Key)
        ensures
            r@ == bytes@,
    {
        Key { bytes }
    }

    /// Byte-wise equality of two addresses.
    pub fn same_as(&self, other: &Key) -> (r: bool)
        ensures
            r == (self@ == other@),
    {
        let mut i: usize = 0;
        while i < 32
            invariant
                0 <= i <= 32,
                self@.len() == 32,
                other@.len() == 32,
                forall|j: int| 0 <= j < i ==> self@[j] == other@[j],
            decreases 32 - i,
        {
            if self.bytes[i] != other.bytes[i] {
                return false;
            }
            i = i + 1;
        }
        assert(self@ =~= other@);
        true
    }
}

/// The address derived from an escrow's own address, a one-byte seed and the
/// owning program's address; `None` where no such address exists (the hash
/// lands on the curve).
pub uninterp spec fn program_address(escrow: Seq<u8>, nonce: u8, program_id: Seq<u8>) -> Option<
    Seq<u8>,
>;

#[verifier::external_type_specification]
#[verifier::external_body]
pub struct ExPubkeyError(anchor_lang::solana_program::pubkey::PubkeyError);

/// Relies on `Pubkey::create_program_address` (solana-pubkey, re-exported by
/// anchor-lang) with the seeds `[escrow, [nonce]]`: two seeds of at most 32
/// bytes each, so the length checks pass and the result depends on the hash
/// of the seeds and the program id alone.
#[verifier::external_body]
pub(crate) fn create_program_address(escrow: &Key, nonce: u8, program_id: &Key) -> (r: Result<
    Key,
    anchor_lang::solana_program::pubkey::PubkeyError,
>)
    ensures
        match r {
            Ok(k) => program_address(escrow@, nonce, program_id@) == Some(k@),
            Err(_) => program_address(escrow@, nonce, program_id@) is None,
        },
{
    let nonce_seed = [nonce];
    let program = anchor_lang::prelude::Pubkey::new_from_array(program_id.bytes);
    anchor_lang::prelude::Pubkey::create_program_address(&[&escrow.bytes, &nonce_seed], &program)
        .map(|k| Key { bytes: k.to_bytes() })
}

} // verus!
