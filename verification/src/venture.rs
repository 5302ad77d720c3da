//! Client of the venture-launch vault program: byte-exact instruction
//! payloads (amounts little-endian at fixed width) and the account
//! lists of its create-vault, deposit and withdraw operations, plus
//! the system- and token-program instructions the vault allocation
//! needs.

use vstd::prelude::*;

use crate::addr::Addr;
use crate::ix::{build_instruction, ix_parts, ix_views};
use crate::message::le64;
use crate::tokens::token_program_seq;

use solana_sdk::instruction::Instruction;
use solana_sdk::pubkey::Pubkey;

verus! {

/// Size of an SPL token account, in bytes.
pub const ACCOUNT_SIZE: u64 = 165;

/// Size of the vault program's state account, in bytes.
pub const CRYPTO_TRACKER_DATA_SIZE: u64 = 73;

/// The rent sysvar, `SysvarRent111111111111111111111111111111111`, as
/// its 32 key bytes.
pub open spec fn rent_sysvar_seq() -> Seq<u8> {
    seq![6u8, 167, 213, 23, 25, 44, 92, 81, 33, 140, 201, 76, 61, 74, 241, 127, 88, 218, 238, 8,
        155, 161, 253, 68, 227, 219, 217, 138, 0, 0, 0, 0]
}

/// The rent sysvar address.
pub fn rent_sysvar() -> (r: Addr)
    ensures
        r@ == rent_sysvar_seq(),
{
    let r = Addr::new(
        [6u8, 167, 213, 23, 25, 44, 92, 81, 33, 140, 201, 76, 61, 74, 241, 127, 88, 218, 238, 8,
            155, 161, 253, 68, 227, 219, 217, 138, 0, 0, 0, 0],
    );
    proof {
        assert(r@ =~= rent_sysvar_seq());
    }
    r
}

/// The system program's create-account payload: the variant tag at
/// fixed four-byte width, then lamports and space little-endian, then
/// the owner.
pub open spec fn sys_create_account_data(lamports: u64, space: u64, owner: Seq<u8>) -> Seq<u8> {
    seq![0u8, 0u8, 0u8, 0u8] + le64(lamports) + le64(space) + owner
}

/// The system create-account instruction: funder and new account both
/// sign and are written.
pub open spec fn sys_create_account_ix(
    from: Seq<u8>,
    to: Seq<u8>,
    lamports: u64,
    space: u64,
    owner: Seq<u8>,
) -> (Seq<u8>, Seq<(Seq<u8>, bool, bool)>, Seq<u8>) {
    (
        crate::tokens::system_program_seq(),
        seq![(from, true, true), (to, true, true)],
        sys_create_account_data(lamports, space, owner),
    )
}

/// The token program's initialize-account instruction over the new
/// account, the mint, the owner and the rent sysvar.
pub open spec fn spl_initialize_account_ix(account: Seq<u8>, mint: Seq<u8>, owner: Seq<u8>) -> (
    Seq<u8>, Seq<(Seq<u8>, bool, bool)>, Seq<u8>) {
    (
        token_program_seq(),
        seq![(account, false, true), (mint, false, false), (owner, false, false), (
            rent_sysvar_seq(),
            false,
            false,
        )],
        seq![1u8],
    )
}

/// The vault program's create-vault instruction.
pub open spec fn vault_create_ix(
    program: Seq<u8>,
    payer: Seq<u8>,
    vault: Seq<u8>,
    data: Seq<u8>,
) -> (Seq<u8>, Seq<(Seq<u8>, bool, bool)>, Seq<u8>) {
    (
        program,
        seq![(payer, true, false), (vault, false, true), (data, false, true), (
            rent_sysvar_seq(),
            false,
            false,
        ), (token_program_seq(), false, false)],
        seq![0u8],
    )
}

/// The vault program's deposit instruction; the amount is encoded
/// little-endian at fixed width after the tag.
pub open spec fn vault_deposit_ix(
    program: Seq<u8>,
    payer: Seq<u8>,
    ata: Seq<u8>,
    vault: Seq<u8>,
    data: Seq<u8>,
    amount: u64,
) -> (Seq<u8>, Seq<(Seq<u8>, bool, bool)>, Seq<u8>) {
    (
        program,
        seq![(payer, true, false), (ata, false, true), (vault, false, true), (data, false, true), (
            token_program_seq(),
            false,
            false,
        )],
        seq![1u8] + le64(amount),
    )
}

/// The vault program's authority address, derived from its fixed seed.
pub uninterp spec fn cryptotracker_pda_of(program: Seq<u8>) -> Seq<u8>;

/// Relies on `Pubkey::find_program_address` with the vault program's
/// fixed seed.
#[verifier::external_body]
pub(crate) fn derive_cryptotracker_pda(program: &Addr) -> (r: Addr)
    ensures
        r@ == cryptotracker_pda_of(program@),
{
    let p = Pubkey::new_from_array(program.bytes);
    let (pda, _) = Pubkey::find_program_address(&[b"cryptotracker"], &p);
    Addr { bytes: pda.to_bytes() }
}

/// The vault program's withdraw instruction; the amount is encoded
/// little-endian at fixed width after the tag, and the program's
/// authority address stands last.
pub open spec fn vault_withdraw_ix(
    program: Seq<u8>,
    payer: Seq<u8>,
    receive: Seq<u8>,
    vault: Seq<u8>,
    data: Seq<u8>,
    amount: u64,
) -> (Seq<u8>, Seq<(Seq<u8>, bool, bool)>, Seq<u8>) {
    (
        program,
        seq![(payer, true, false), (receive, false, true), (vault, false, true), (
            data,
            false,
            true,
        ), (token_program_seq(), false, false), (cryptotracker_pda_of(program), false, true)],
        seq![2u8] + le64(amount),
    )
}

/// A handle on one deployed vault: the program and its accounts.
pub struct VentureLaunch {
    pub program_id: Addr,
    pub vault_account: Addr,
    pub data_account: Addr,
    pub mint: Addr,
}

/// Encodes the system create-account payload.
fn encode_sys_create_account(lamports: u64, space: u64, owner: &Addr) -> (r: Vec<u8>)
    ensures
        r@ == sys_create_account_data(lamports, space, owner@),
{
    let mut out: Vec<u8> = Vec::new();
    out.push(0);
    out.push(0);
    out.push(0);
    out.push(0);
    crate::message::push_le64_bytes(&mut out, lamports);
    crate::message::push_le64_bytes(&mut out, space);
    crate::message::push_addr_bytes(&mut out, owner);
    proof {
        assert(out@ =~= sys_create_account_data(lamports, space, owner@));
    }
    out
}

impl VentureLaunch {
    pub fn new(program_id: Addr, vault_account: Addr, data_account: Addr, mint: Addr) -> (r:
        VentureLaunch)
        ensures
            r.program_id == program_id,
            r.vault_account == vault_account,
            r.data_account == data_account,
            r.mint == mint,
    {
        VentureLaunch { program_id, vault_account, data_account, mint }
    }

    /// The instructions of a vault creation: allocate the token
    /// account, initialize it for the mint, allocate the state
    /// account, and call the program; the handle then points at the
    /// fresh accounts. Rents are the caller's fetched minimum
    /// balances.
    pub fn create_vault_plan(&mut self, payer: &Addr, new_vault: Addr, new_data: Addr,
        vault_rent: u64, data_rent: u64) -> (r: Vec<Instruction>)
        ensures
            final(self).program_id == old(self).program_id,
            final(self).mint == old(self).mint,
            final(self).vault_account == new_vault,
            final(self).data_account == new_data,
            ix_views(r@) == seq![
                sys_create_account_ix(payer@, new_vault@, vault_rent, ACCOUNT_SIZE as u64,
                    token_program_seq()),
                spl_initialize_account_ix(new_vault@, old(self).mint@, payer@),
                sys_create_account_ix(payer@, new_data@, data_rent,
                    CRYPTO_TRACKER_DATA_SIZE as u64, old(self).program_id@),
                vault_create_ix(old(self).program_id@, payer@, new_vault@, new_data@),
            ],
    {
        self.vault_account = new_vault;
        self.data_account = new_data;
        let mut out: Vec<Instruction> = Vec::new();

        let tp = crate::tokens::token_program();
        let sys = crate::tokens::system_program_addr();
        let rent = rent_sysvar();

        let mut metas1: Vec<(Addr, bool, bool)> = Vec::new();
        metas1.push((*payer, true, true));
        metas1.push((new_vault, true, true));
        let data1 = encode_sys_create_account(vault_rent, ACCOUNT_SIZE, &tp);
        out.push(build_instruction(&sys, &metas1, &data1));

        let mut metas2: Vec<(Addr, bool, bool)> = Vec::new();
        metas2.push((new_vault, false, true));
        metas2.push((self.mint, false, false));
        metas2.push((*payer, false, false));
        metas2.push((rent, false, false));
        let mut data2: Vec<u8> = Vec::new();
        data2.push(1);
        out.push(build_instruction(&tp, &metas2, &data2));

        let mut metas3: Vec<(Addr, bool, bool)> = Vec::new();
        metas3.push((*payer, true, true));
        metas3.push((new_data, true, true));
        let data3 = encode_sys_create_account(data_rent, CRYPTO_TRACKER_DATA_SIZE, &self.program_id);
        out.push(build_instruction(&sys, &metas3, &data3));

        let mut metas4: Vec<(Addr, bool, bool)> = Vec::new();
        metas4.push((*payer, true, false));
        metas4.push((new_vault, false, true));
        metas4.push((new_data, false, true));
        metas4.push((rent, false, false));
        metas4.push((tp, false, false));
        let mut data4: Vec<u8> = Vec::new();
        data4.push(0);
        out.push(build_instruction(&self.program_id, &metas4, &data4));

        proof {
            assert(metas1@.map_values(|m: (Addr, bool, bool)| (m.0@, m.1, m.2)) =~= seq![
                (payer@, true, true), (new_vault@, true, true),
            ]);
            assert(metas2@.map_values(|m: (Addr, bool, bool)| (m.0@, m.1, m.2)) =~= seq![
                (new_vault@, false, true), (old(self).mint@, false, false), (payer@, false, false),
                (rent_sysvar_seq(), false, false),
            ]);
            assert(metas3@.map_values(|m: (Addr, bool, bool)| (m.0@, m.1, m.2)) =~= seq![
                (payer@, true, true), (new_data@, true, true),
            ]);
            assert(metas4@.map_values(|m: (Addr, bool, bool)| (m.0@, m.1, m.2)) =~= seq![
                (payer@, true, false), (new_vault@, false, true), (new_data@, false, true), (
                rent_sysvar_seq(), false, false), (token_program_seq(), false, false),
            ]);
            assert(data2@ =~= seq![1u8]);
            assert(data4@ =~= seq![0u8]);
            assert(ix_views(out@) =~= seq![
                sys_create_account_ix(payer@, new_vault@, vault_rent, ACCOUNT_SIZE as u64,
                    token_program_seq()),
                spl_initialize_account_ix(new_vault@, old(self).mint@, payer@),
                sys_create_account_ix(payer@, new_data@, data_rent,
                    CRYPTO_TRACKER_DATA_SIZE as u64, old(self).program_id@),
                vault_create_ix(old(self).program_id@, payer@, new_vault@, new_data@),
            ]);
        }
        out
    }

    /// The one deposit instruction, moving `amount` from the payer's
    /// token account into the vault.
    pub fn deposit_instruction(&self, payer: &Addr, ata_account: &Addr, amount: u64) -> (r:
        Instruction)
        ensures
            ix_parts(r) == vault_deposit_ix(self.program_id@, payer@, ata_account@,
                self.vault_account@, self.data_account@, amount),
    {
        let mut metas: Vec<(Addr, bool, bool)> = Vec::new();
        metas.push((*payer, true, false));
        metas.push((*ata_account, false, true));
        metas.push((self.vault_account, false, true));
        metas.push((self.data_account, false, true));
        metas.push((crate::tokens::token_program(), false, false));
        let mut data: Vec<u8> = Vec::new();
        data.push(1);
        crate::message::push_le64_bytes(&mut data, amount);
        let r = build_instruction(&self.program_id, &metas, &data);
        proof {
            assert(metas@.map_values(|m: (Addr, bool, bool)| (m.0@, m.1, m.2)) =~= vault_deposit_ix(
                self.program_id@, payer@, ata_account@, self.vault_account@, self.data_account@,
                amount).1);
            assert(data@ =~= seq![1u8] + le64(amount));
        }
        r
    }

    /// The one withdraw instruction, moving `amount` from the vault to
    /// the receiving token account under the program's authority.
    pub fn withdraw_instruction(&self, payer: &Addr, receive_account: &Addr, amount: u64) -> (r:
        Instruction)
        ensures
            ix_parts(r) == vault_withdraw_ix(self.program_id@, payer@, receive_account@,
                self.vault_account@, self.data_account@, amount),
    {
        let pda = derive_cryptotracker_pda(&self.program_id);
        let mut metas: Vec<(Addr, bool, bool)> = Vec::new();
        metas.push((*payer, true, false));
        metas.push((*receive_account, false, true));
        metas.push((self.vault_account, false, true));
        metas.push((self.data_account, false, true));
        metas.push((crate::tokens::token_program(), false, false));
        metas.push((pda, false, true));
        let mut data: Vec<u8> = Vec::new();
        data.push(2);
        crate::message::push_le64_bytes(&mut data, amount);
        let r = build_instruction(&self.program_id, &metas, &data);
        proof {
            assert(metas@.map_values(|m: (Addr, bool, bool)| (m.0@, m.1, m.2))
                =~= vault_withdraw_ix(self.program_id@, payer@, receive_account@,
                self.vault_account@, self.data_account@, amount).1);
            assert(data@ =~= seq![2u8] + le64(amount));
        }
        r
    }
}


/// The wrapped-native-token mint,
/// `So11111111111111111111111111111111111111112`, as its 32 key bytes.
pub open spec fn native_mint_seq() -> Seq<u8> {
    seq![6u8, 155, 136, 87, 254, 171, 129, 132, 251, 104, 127, 99, 70, 24, 192, 53, 218, 196, 57,
        220, 26, 235, 59, 85, 152, 160, 240, 0, 0, 0, 0, 1]
}

/// The wrapped-native-token mint address.
pub fn native_mint() -> (r: Addr)
    ensures
        r@ == native_mint_seq(),
{
    let r = Addr::new(
        [6u8, 155, 136, 87, 254, 171, 129, 132, 251, 104, 127, 99, 70, 24, 192, 53, 218, 196, 57,
            220, 26, 235, 59, 85, 152, 160, 240, 0, 0, 0, 0, 1],
    );
    proof {
        assert(r@ =~= native_mint_seq());
    }
    r
}

/// The associated-token-account creation instruction in its bare
/// form, with an empty payload: the payer funds and owns the account.
pub open spec fn create_ata_program_ix(payer: Seq<u8>, ata: Seq<u8>, mint: Seq<u8>) -> (Seq<u8>,
    Seq<(Seq<u8>, bool, bool)>, Seq<u8>) {
    (
        crate::tokens::ata_program_seq(),
        seq![(payer, true, true), (ata, false, true), (payer, false, false), (mint, false, false),
            (crate::tokens::system_program_seq(), false, false), (token_program_seq(), false,
            false)],
        Seq::empty(),
    )
}

/// Builds the bare associated-token-account creation instruction for
/// the payer's account of `mint`.
pub fn create_associated_token_program_instruction(payer: &Addr, ata: &Addr, mint: &Addr) -> (r:
    Instruction)
    ensures
        ix_parts(r) == create_ata_program_ix(payer@, ata@, mint@),
{
    let mut metas: Vec<(Addr, bool, bool)> = Vec::new();
    metas.push((*payer, true, true));
    metas.push((*ata, false, true));
    metas.push((*payer, false, false));
    metas.push((*mint, false, false));
    metas.push((crate::tokens::system_program_addr(), false, false));
    metas.push((crate::tokens::token_program(), false, false));
    let data: Vec<u8> = Vec::new();
    let r = build_instruction(&crate::tokens::ata_program(), &metas, &data);
    proof {
        assert(metas@.map_values(|m: (Addr, bool, bool)| (m.0@, m.1, m.2)) =~= create_ata_program_ix(
            payer@, ata@, mint@).1);
        assert(data@ =~= Seq::<u8>::empty());
    }
    r
}

/// The system program's transfer instruction: the lamports follow the
/// variant tag at fixed four-byte width, little-endian.
pub open spec fn sys_transfer_ix(from: Seq<u8>, to: Seq<u8>, lamports: u64) -> (Seq<u8>, Seq<(Seq<
    u8>, bool, bool)>, Seq<u8>) {
    (
        crate::tokens::system_program_seq(),
        seq![(from, true, true), (to, false, true)],
        seq![2u8, 0u8, 0u8, 0u8] + le64(lamports),
    )
}

/// The token program's sync-native instruction over a wrapped-native
/// token account.
pub open spec fn sync_native_ix(account: Seq<u8>) -> (Seq<u8>, Seq<(Seq<u8>, bool, bool)>, Seq<
    u8>) {
    (token_program_seq(), seq![(account, false, true)], seq![17u8])
}

/// The one instruction that creates the payer's wrapped-native token
/// account.
pub fn create_native_sol_ata_instruction(payer: &Addr) -> (r: Instruction)
    ensures
        ix_parts(r) == create_ata_program_ix(
            payer@,
            crate::resolver::ata_of(payer@, native_mint_seq()),
            native_mint_seq(),
        ),
{
    let mint = native_mint();
    let ata = crate::resolver::get_associated_token_address(&mint, payer);
    create_associated_token_program_instruction(payer, &ata, &mint)
}

/// The instructions that fund the payer's wrapped-native token
/// account: a system transfer into it, then a sync of its token
/// balance.
pub fn deposit_to_wrapped_sol_ata_plan(payer: &Addr, amount: u64) -> (r: Vec<Instruction>)
    ensures
        ix_views(r@) == seq![
            sys_transfer_ix(payer@, crate::resolver::ata_of(payer@, native_mint_seq()), amount),
            sync_native_ix(crate::resolver::ata_of(payer@, native_mint_seq())),
        ],
{
    let mint = native_mint();
    let ata = crate::resolver::get_associated_token_address(&mint, payer);
    let sys = crate::tokens::system_program_addr();
    let tp = crate::tokens::token_program();
    let mut out: Vec<Instruction> = Vec::new();

    let mut metas1: Vec<(Addr, bool, bool)> = Vec::new();
    metas1.push((*payer, true, true));
    metas1.push((ata, false, true));
    let mut data1: Vec<u8> = Vec::new();
    data1.push(2);
    data1.push(0);
    data1.push(0);
    data1.push(0);
    crate::message::push_le64_bytes(&mut data1, amount);
    out.push(build_instruction(&sys, &metas1, &data1));

    let mut metas2: Vec<(Addr, bool, bool)> = Vec::new();
    metas2.push((ata, false, true));
    let mut data2: Vec<u8> = Vec::new();
    data2.push(17);
    out.push(build_instruction(&tp, &metas2, &data2));

    proof {
        assert(metas1@.map_values(|m: (Addr, bool, bool)| (m.0@, m.1, m.2)) =~= seq![
            (payer@, true, true), (crate::resolver::ata_of(payer@, native_mint_seq()), false,
            true),
        ]);
        assert(data1@ =~= seq![2u8, 0u8, 0u8, 0u8] + le64(amount));
        assert(metas2@.map_values(|m: (Addr, bool, bool)| (m.0@, m.1, m.2)) =~= seq![
            (crate::resolver::ata_of(payer@, native_mint_seq()), false, true),
        ]);
        assert(data2@ =~= seq![17u8]);
        assert(ix_views(out@) =~= seq![
            sys_transfer_ix(payer@, crate::resolver::ata_of(payer@, native_mint_seq()), amount),
            sync_native_ix(crate::resolver::ata_of(payer@, native_mint_seq())),
        ]);
    }
    out
}

} // verus!
