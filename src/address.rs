use vstd::prelude::*;

verus! {

/// A 32-byte account address.
#[derive(Clone, Copy, Debug, PartialEq, Eq)]
pub struct Address {
    pub bytes: [u8; 32],
}

impl View for Address {
    type V = Seq<u8>;

    open spec fn view(&self) -> Seq<u8> {
        self.bytes@
    }
}

impl Address {
    pub fn new(bytes: [u8; 32]) -> (r: Address)
        ensures
            r@ == bytes@,
    {
        Address { bytes }
    }

    /// Byte-for-byte comparison of two addresses.
    pub fn same_as(&self, other: &Address) -> (r: bool)
        ensures
            r == (self@ == other@),
    {
        let mut i: usize = 0;
        while i < 32
            invariant
                0 <= i <= 32,
                self@.len() == 32,
                other@.len() == 32,
                forall|k: int| 0 <= k < i ==> self@[k] == other@[k],
            decreases 32 - i,
        {
            if self.bytes[i] != other.bytes[i] {
                return false;
            }
            i = i + 1;
        }
        assert(self@ =~= other@);
        true
    }
}

/// The address that `Pubkey::try_find_program_address` derives from one seed
/// and a program id, or `None` where it finds no bump seed.
pub uninterp spec fn program_address_of(seed: Seq<u8>, program_id: Seq<u8>) -> Option<Seq<u8>>;

/// Relies on anchor_lang's `Pubkey::try_find_program_address` (from
/// solana-program): a deterministic derivation from the seeds and the program
/// id, which returns `None` rather than panicking when no bump seed fits.
#[verifier::external_body]
fn try_find_program_address(seed: &[u8], program_id: &Address) -> (r: Option<Address>)
    ensures
        match r {
            Some(a) => program_address_of(seed@, program_id@) == Some(a@),
            None => program_address_of(seed@, program_id@) is None,
        },
{
    let id = anchor_lang::prelude::Pubkey::new_from_array(program_id.bytes);
    anchor_lang::prelude::Pubkey::try_find_program_address(&[seed], &id)
        .map(|(key, _bump)| Address { bytes: key.to_bytes() })
}

/// The seed from which a program derives the address of its ledger storage.
pub open spec fn storage_seed_spec() -> Seq<u8> {
    seq![
        109u8, 97u8, 105u8, 110u8, 68u8, 97u8, 116u8, 97u8, 70u8, 111u8, 114u8,
        84u8, 104u8, 101u8, 80u8, 114u8, 111u8, 103u8, 114u8, 97u8, 109u8,
    ]
}

/// The seed `mainDataForTheProgram`, as bytes.
pub fn storage_seed() -> (r: Vec<u8>)
    ensures
        r@ == storage_seed_spec(),
{
    let r: Vec<u8> = vec![
        109u8, 97u8, 105u8, 110u8, 68u8, 97u8, 116u8, 97u8, 70u8, 111u8, 114u8,
        84u8, 104u8, 101u8, 80u8, 114u8, 111u8, 103u8, 114u8, 97u8, 109u8,
    ];
    assert(r@ =~= storage_seed_spec());
    r
}

/// The address where a program keeps its ledger, or `None` where none can be
/// derived.
pub fn storage_address(program_id: &Address) -> (r: Option<Address>)
    ensures
        match r {
            Some(a) => program_address_of(storage_seed_spec(), program_id@) == Some(a@),
            None => program_address_of(storage_seed_spec(), program_id@) is None,
        },
{
    let seed = storage_seed();
    try_find_program_address(seed.as_slice(), program_id)
}

} // verus!
