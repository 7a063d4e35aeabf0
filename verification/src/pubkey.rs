//! Account addresses and the program addresses the breeding machine trusts.
use vstd::prelude::*;

verus! {

/// A 32-byte account address, held by value.
#[derive(Debug)]
pub struct Pubkey {
    pub bytes: [u8; 32],
}

impl View for Pubkey {
    type V = Seq<u8>;

    open spec fn view(&self) -> Seq<u8> {
        self.bytes@
    }
}

impl Clone for Pubkey {
    fn clone(&self) -> (r: Pubkey)
        ensures
            r == *self,
    {
        Pubkey { bytes: self.bytes }
    }
}

impl Pubkey {
    /// Whether two addresses hold the same bytes.
    pub fn same_as(&self, other: &Pubkey) -> (r: bool)
        ensures
            r == (self@ == other@),
    {
        let mut i: usize = 0;
        while i < 32
            invariant
                0 <= i <= 32,
                self@.len() == 32,
                other@.len() == 32,
                forall|j: int| 0 <= j < i ==> self@[j] == other@[j],
            decreases 32 - i,
        {
            if self.bytes[i] != other.bytes[i] {
                return false;
            }
            i = i + 1;
        }
        assert(self@ =~= other@);
        true
    }
}

/// The address of the breeding machine program itself
/// (`2b9Q4a8DSNfypePwm1FvE9AgLWJDbHZbVSuV6DqGooaS`).
pub open spec fn breeding_machine_program_bytes() -> Seq<u8> {
    seq![23u8, 154, 237, 253, 80, 132, 136, 17, 175, 200, 131, 29, 25, 117, 135, 103, 202, 39, 59, 87, 65, 49, 35, 119, 242, 10, 247, 71, 233, 185, 144, 171]
}

/// The address of the SPL token program (`TokenkegQfeZyiNwAJbNbGKPFXCWuBvf9Ss623VQ5DA`).
pub open spec fn spl_token_program_bytes() -> Seq<u8> {
    seq![6u8, 221, 246, 225, 215, 101, 161, 147, 217, 203, 225, 70, 206, 235, 121, 172, 28, 180, 133, 237, 95, 91, 55, 145, 58, 140, 245, 133, 126, 255, 0, 169]
}

/// The address of the associated token account program
/// (`ATokenGPvbdGVxr1b2hvZbsiqW5xWH25efTNsLJA8knL`).
pub open spec fn associated_token_program_bytes() -> Seq<u8> {
    seq![140u8, 151, 37, 143, 78, 36, 137, 241, 187, 61, 16, 41, 20, 142, 13, 131, 11, 90, 19, 153, 218, 255, 16, 132, 4, 142, 123, 216, 219, 233, 248, 89]
}

/// The address of the system program (all zero bytes).
pub open spec fn system_program_bytes() -> Seq<u8> {
    Seq::new(32, |i: int| 0u8)
}

/// The programs that a minting transaction may call.
pub open spec fn allowed_program_ids() -> Seq<Seq<u8>> {
    seq![
        breeding_machine_program_bytes(),
        spl_token_program_bytes(),
        system_program_bytes(),
        associated_token_program_bytes(),
    ]
}

/// The address of the breeding machine program.
pub fn breeding_machine_program_id() -> (k: Pubkey)
    ensures
        k@ == breeding_machine_program_bytes(),
{
    let k = Pubkey { bytes: [23u8, 154, 237, 253, 80, 132, 136, 17, 175, 200, 131, 29, 25, 117, 135, 103, 202, 39, 59, 87, 65, 49, 35, 119, 242, 10, 247, 71, 233, 185, 144, 171] };
    assert(k@ =~= breeding_machine_program_bytes());
    k
}

/// The address of the SPL token program.
pub fn spl_token_program_id() -> (k: Pubkey)
    ensures
        k@ == spl_token_program_bytes(),
{
    let k = Pubkey { bytes: [6u8, 221, 246, 225, 215, 101, 161, 147, 217, 203, 225, 70, 206, 235, 121, 172, 28, 180, 133, 237, 95, 91, 55, 145, 58, 140, 245, 133, 126, 255, 0, 169] };
    assert(k@ =~= spl_token_program_bytes());
    k
}

/// The address of the associated token account program.
pub fn associated_token_program_id() -> (k: Pubkey)
    ensures
        k@ == associated_token_program_bytes(),
{
    let k = Pubkey { bytes: [140u8, 151, 37, 143, 78, 36, 137, 241, 187, 61, 16, 41, 20, 142, 13, 131, 11, 90, 19, 153, 218, 255, 16, 132, 4, 142, 123, 216, 219, 233, 248, 89] };
    assert(k@ =~= associated_token_program_bytes());
    k
}

/// The address of the system program.
pub fn system_program_id() -> (k: Pubkey)
    ensures
        k@ == system_program_bytes(),
{
    let k = Pubkey { bytes: [0u8; 32] };
    assert(k@ =~= system_program_bytes());
    k
}

/// Whether `k` is one of the programs a minting transaction may call.
pub fn is_allowed_program(k: &Pubkey) -> (r: bool)
    ensures
        r == allowed_program_ids().contains(k@),
{
    let a = breeding_machine_program_id();
    let b = spl_token_program_id();
    let c = system_program_id();
    let d = associated_token_program_id();
    let r = k.same_as(&a) || k.same_as(&b) || k.same_as(&c) || k.same_as(&d);
    proof {
        let s = allowed_program_ids();
        assert(s[0] == a@ && s[1] == b@ && s[2] == c@ && s[3] == d@);
        if r {
            assert(s.contains(k@));
        } else {
            assert forall|i: int| 0 <= i < s.len() implies s[i] != k@ by {}
        }
    }
    r
}

} // verus!
