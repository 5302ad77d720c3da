//! The fixed token addresses this deployment works against: the SPL
//! token program and the mint of the treasury token.

use vstd::prelude::*;

use crate::addr::Addr;

verus! {

/// The SPL token program, `TokenkegQfeZyiNwAJbNbGKPFXCWuBvf9Ss623VQ5DA`,
/// as its 32 key bytes.
pub open spec fn token_program_seq() -> Seq<u8> {
    seq![6u8, 221, 246, 225, 215, 101, 161, 147, 217, 203, 225, 70, 206, 235, 121, 172, 28, 180,
        133, 237, 95, 91, 55, 145, 58, 140, 245, 133, 126, 255, 0, 169]
}

/// The mint of the treasury token,
/// `Gh9ZwEmdLJ8DscKNTkTqPbNwLNNBjuSzaG9Vp2KGtKJr`, as its 32 key bytes.
pub open spec fn token_mint_seq() -> Seq<u8> {
    seq![233u8, 40, 57, 85, 9, 101, 255, 212, 214, 74, 202, 175, 70, 212, 93, 247, 49, 142, 91,
        79, 87, 201, 12, 72, 125, 96, 98, 93, 130, 155, 131, 123]
}

/// The SPL token program address.
pub fn token_program() -> (r: Addr)
    ensures
        r@ == token_program_seq(),
{
    let r = Addr::new(
        [6u8, 221, 246, 225, 215, 101, 161, 147, 217, 203, 225, 70, 206, 235, 121, 172, 28, 180,
            133, 237, 95, 91, 55, 145, 58, 140, 245, 133, 126, 255, 0, 169],
    );
    proof {
        assert(r@ =~= token_program_seq());
    }
    r
}

/// The treasury token mint address.
pub fn token_mint() -> (r: Addr)
    ensures
        r@ == token_mint_seq(),
{
    let r = Addr::new(
        [233u8, 40, 57, 85, 9, 101, 255, 212, 214, 74, 202, 175, 70, 212, 93, 247, 49, 142, 91,
            79, 87, 201, 12, 72, 125, 96, 98, 93, 130, 155, 131, 123],
    );
    proof {
        assert(r@ =~= token_mint_seq());
    }
    r
}

/// The associated-token program,
/// `ATokenGPvbdGVxr1b2hvZbsiqW5xWH25efTNsLJA8knL`, as its 32 key bytes.
pub open spec fn ata_program_seq() -> Seq<u8> {
    seq![140u8, 151, 37, 143, 78, 36, 137, 241, 187, 61, 16, 41, 20, 142, 13, 131, 11, 90, 19,
        153, 218, 255, 16, 132, 4, 142, 123, 216, 219, 233, 248, 89]
}

/// The system program's address: 32 zero bytes.
pub open spec fn system_program_seq() -> Seq<u8> {
    Seq::new(32, |i: int| 0u8)
}

/// The associated-token program address.
pub fn ata_program() -> (r: Addr)
    ensures
        r@ == ata_program_seq(),
{
    let r = Addr::new(
        [140u8, 151, 37, 143, 78, 36, 137, 241, 187, 61, 16, 41, 20, 142, 13, 131, 11, 90, 19,
            153, 218, 255, 16, 132, 4, 142, 123, 216, 219, 233, 248, 89],
    );
    proof {
        assert(r@ =~= ata_program_seq());
    }
    r
}

/// The system program address.
pub fn system_program_addr() -> (r: Addr)
    ensures
        r@ == system_program_seq(),
{
    let r = Addr::new([0u8; 32]);
    proof {
        assert(r@ =~= system_program_seq());
    }
    r
}

} // verus!
