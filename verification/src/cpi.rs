//! External-call orchestration: the fixed catalog of leveraged-farm
//! operations, their binary encoding, and instruction formation.
//!
//! Every call into the external protocol is one instruction: an 8-byte
//! operation selector resolved from the operation's name, the operation's
//! arguments in a fixed little-endian layout (lists prefixed by a 4-byte
//! element count), and the ordered account references the operation needs,
//! each tagged writable and signer. The account lists themselves are owned
//! by the external protocol's published interface and are handed in by the
//! caller; the selector that cannot be resolved fails instruction formation
//! before any side effect.

use crate::address::Address;
use crate::error::ChamberError;
use vstd::bytes::{spec_u32_to_le_bytes, spec_u64_to_le_bytes, u32_to_le_bytes, u64_to_le_bytes};
use vstd::prelude::*;

verus! {

/// One account an external instruction touches, tagged the way the runtime
/// wants it.
#[derive(Clone, Copy, Debug, PartialEq, Eq)]
pub struct AccountRef {
    pub address: Address,
    pub is_writable: bool,
    pub is_signer: bool,
}

/// An invocable external instruction, ready for the runtime.
#[derive(Clone, Debug)]
pub struct ExternalInstruction {
    pub program_id: Address,
    pub accounts: Vec<AccountRef>,
    pub data: Vec<u8>,
}

/// The fixed catalog of external leveraged-farm operations, with each
/// operation's arguments. The first four open a position (deposit collateral
/// and borrow, swap, add liquidity, stake); the next four unwind one
/// (unstake, remove liquidity, swap to repay, repay); the last two create
/// the farm-side accounts a vault needs once.
#[derive(Clone, Copy, Debug, PartialEq, Eq)]
pub enum ExternalOp {
    DepositBorrowDual {
        coin_amount: u64,
        pc_amount: u64,
        coin_borrow_amount: u64,
        pc_borrow_amount: u64,
        obligation_index: u8,
    },
    SwapTokens { obligation_index: u8 },
    AddLiquidity { obligation_index: u8 },
    StakeVault { nonce: u8, meta_nonce: u8, obligation_index: u64 },
    UnstakeVault {
        meta_nonce: u8,
        nonce: u8,
        obligation_index: u8,
        withdraw_percent: u8,
        close_method: u8,
    },
    RemoveLiquidity { obligation_index: u8, obligation_vault_nonce: u8 },
    SwapToRepay { obligation_index: u8 },
    RepayObligation { first_reserve: Address, second_reserve: Address, obligation_index: u8 },
    CreateUserFarm { solfarm_vault_program: Address },
    CreateUserFarmObligation,
}

/// The instruction name an operation resolves its selector under.
pub open spec fn spec_op_name(op: ExternalOp) -> Seq<char> {
    match op {
        ExternalOp::DepositBorrowDual { .. } => "deposit_borrow_dual"@,
        ExternalOp::SwapTokens { .. } => "swap_tokens_raydium_stats"@,
        ExternalOp::AddLiquidity { .. } => "add_liquidity_stats"@,
        ExternalOp::StakeVault { .. } => "deposit_vault"@,
        ExternalOp::UnstakeVault { .. } => "withdraw_raydium_vault_close"@,
        ExternalOp::RemoveLiquidity { .. } => "remove_liquidity_new"@,
        ExternalOp::SwapToRepay { .. } => "swap_to_repay_raydium"@,
        ExternalOp::RepayObligation { .. } => "repay_obligation_liquidity_external"@,
        ExternalOp::CreateUserFarm { .. } => "create_user_farm"@,
        ExternalOp::CreateUserFarmObligation => "create_user_farm_obligation"@,
    }
}

/// Whether an operation's name lives in the deprecated selector table (the
/// anchor-v6 hashing era) rather than the current one.
pub open spec fn spec_op_in_deprecated_table(op: ExternalOp) -> bool {
    match op {
        ExternalOp::DepositBorrowDual { .. } => true,
        ExternalOp::SwapTokens { .. } => true,
        ExternalOp::AddLiquidity { .. } => true,
        ExternalOp::StakeVault { .. } => true,
        ExternalOp::UnstakeVault { .. } => true,
        ExternalOp::RemoveLiquidity { .. } => false,
        ExternalOp::SwapToRepay { .. } => false,
        ExternalOp::RepayObligation { .. } => false,
        ExternalOp::CreateUserFarm { .. } => true,
        ExternalOp::CreateUserFarmObligation => true,
    }
}

/// What the current selector table maps a name to.
pub uninterp spec fn sighash_of(name: Seq<char>) -> Option<Seq<u8>>;

/// What the deprecated selector table maps a name to.
pub uninterp spec fn deprecated_sighash_of(name: Seq<char>) -> Option<Seq<u8>>;

/// Relies on sighashdb's `GlobalSighashDB::get`: a fixed table from
/// instruction name to 8-byte selector, whose entries include the unwind
/// operations of this catalog.
#[verifier::external_body]
fn lookup_sighash(name: &str) -> (r: Option<Vec<u8>>)
    ensures
        r matches Some(v) ==> sighash_of(name@) == Some(v@) && v@.len() == 8,
        r is None ==> sighash_of(name@) is None,
        name@ == "remove_liquidity_new"@ ==> r is Some,
        name@ == "swap_to_repay_raydium"@ ==> r is Some,
        name@ == "repay_obligation_liquidity_external"@ ==> r is Some,
{
    match sighashdb::GlobalSighashDB.get(name) {
        Some(h) => Some(h.to_vec()),
        None => None,
    }
}

/// Relies on sighashdb's `GlobalSighashDB::get_deprecated`: a fixed table
/// from instruction name to 8-byte selector, whose entries include the
/// position-opening and account-lifecycle operations of this catalog.
#[verifier::external_body]
fn lookup_deprecated_sighash(name: &str) -> (r: Option<Vec<u8>>)
    ensures
        r matches Some(v) ==> deprecated_sighash_of(name@) == Some(v@) && v@.len() == 8,
        r is None ==> deprecated_sighash_of(name@) is None,
        name@ == "deposit_borrow_dual"@ ==> r is Some,
        name@ == "swap_tokens_raydium_stats"@ ==> r is Some,
        name@ == "add_liquidity_stats"@ ==> r is Some,
        name@ == "deposit_vault"@ ==> r is Some,
        name@ == "withdraw_raydium_vault_close"@ ==> r is Some,
        name@ == "create_user_farm"@ ==> r is Some,
        name@ == "create_user_farm_obligation"@ ==> r is Some,
{
    match sighashdb::GlobalSighashDB.get_deprecated(name) {
        Some(h) => Some(h.to_vec()),
        None => None,
    }
}

/// The selector an operation resolves to, from whichever table holds its
/// name.
pub open spec fn spec_selector_of(op: ExternalOp) -> Option<Seq<u8>> {
    if spec_op_in_deprecated_table(op) {
        deprecated_sighash_of(spec_op_name(op))
    } else {
        sighash_of(spec_op_name(op))
    }
}

/// Resolve a raw operation name against one of the two selector tables;
/// an unregistered name cannot be called and fails instruction formation.
pub fn selector_for_name(name: &str, deprecated: bool) -> (r: Result<Vec<u8>, ChamberError>)
    ensures
        deprecated ==> match deprecated_sighash_of(name@) {
            Some(sel) => r matches Ok(v) && v@ == sel,
            None => r == Err::<Vec<u8>, ChamberError>(ChamberError::CpiInstructionFormationFailed),
        },
        !deprecated ==> match sighash_of(name@) {
            Some(sel) => r matches Ok(v) && v@ == sel,
            None => r == Err::<Vec<u8>, ChamberError>(ChamberError::CpiInstructionFormationFailed),
        },
        deprecated && (name@ == "deposit_borrow_dual"@ || name@ == "swap_tokens_raydium_stats"@
            || name@ == "add_liquidity_stats"@ || name@ == "deposit_vault"@ || name@
            == "withdraw_raydium_vault_close"@ || name@ == "create_user_farm"@ || name@
            == "create_user_farm_obligation"@) ==> r is Ok,
        !deprecated && (name@ == "remove_liquidity_new"@ || name@ == "swap_to_repay_raydium"@
            || name@ == "repay_obligation_liquidity_external"@) ==> r is Ok,
{
    let found = if deprecated {
        lookup_deprecated_sighash(name)
    } else {
        lookup_sighash(name)
    };
    match found {
        Some(v) => Ok(v),
        None => Err(ChamberError::CpiInstructionFormationFailed),
    }
}

/// The byte sequence of a list of addresses: a 4-byte little-endian element
/// count, then each address's 32 bytes in order.
pub open spec fn spec_address_list_bytes(list: Seq<Address>) -> Seq<u8> {
    spec_u32_to_le_bytes(list.len() as u32) + list.map_values(|a: Address| a.bytes@).flatten()
}

/// The argument payload of an operation, in its fixed little-endian layout.
pub open spec fn spec_op_payload(op: ExternalOp) -> Seq<u8> {
    match op {
        ExternalOp::DepositBorrowDual {
            coin_amount,
            pc_amount,
            coin_borrow_amount,
            pc_borrow_amount,
            obligation_index,
        } => spec_u64_to_le_bytes(coin_amount) + spec_u64_to_le_bytes(pc_amount)
            + spec_u64_to_le_bytes(coin_borrow_amount) + spec_u64_to_le_bytes(pc_borrow_amount)
            + seq![obligation_index],
        ExternalOp::SwapTokens { obligation_index } => seq![obligation_index],
        ExternalOp::AddLiquidity { obligation_index } => seq![obligation_index],
        ExternalOp::StakeVault { nonce, meta_nonce, obligation_index } => seq![nonce, meta_nonce]
            + spec_u64_to_le_bytes(obligation_index),
        ExternalOp::UnstakeVault {
            meta_nonce,
            nonce,
            obligation_index,
            withdraw_percent,
            close_method,
        } => seq![meta_nonce, nonce, obligation_index, withdraw_percent, close_method],
        ExternalOp::RemoveLiquidity { obligation_index, obligation_vault_nonce } => seq![
            obligation_index,
            obligation_vault_nonce,
        ],
        ExternalOp::SwapToRepay { obligation_index } => seq![obligation_index],
        ExternalOp::RepayObligation { first_reserve, second_reserve, obligation_index } => spec_address_list_bytes(seq![first_reserve, second_reserve]) + seq![obligation_index],
        ExternalOp::CreateUserFarm { solfarm_vault_program } => solfarm_vault_program.bytes@,
        ExternalOp::CreateUserFarmObligation => Seq::<u8>::empty(),
    }
}

/// Append an address's 32 bytes.
fn push_address(out: &mut Vec<u8>, a: &Address)
    ensures
        final(out)@ == old(out)@ + a.bytes@,
{
    let mut i: usize = 0;
    while i < 32
        invariant
            i <= 32,
            out@ == old(out)@ + a.bytes@.subrange(0, i as int),
        decreases 32 - i,
    {
        out.push(a.bytes[i]);
        proof {
            assert(out@ == old(out)@ + a.bytes@.subrange(0, i + 1));
        }
        i = i + 1;
    }
    proof {
        assert(a.bytes@.subrange(0, 32) == a.bytes@);
    }
}

/// Append a `u64` in little-endian order.
fn push_u64_le(out: &mut Vec<u8>, x: u64)
    ensures
        final(out)@ == old(out)@ + spec_u64_to_le_bytes(x),
{
    let mut bytes = u64_to_le_bytes(x);
    out.append(&mut bytes);
}

/// Encode an operation's argument payload.
pub fn encode_op_payload(op: &ExternalOp) -> (r: Vec<u8>)
    ensures
        r@ == spec_op_payload(*op),
{
    let mut out: Vec<u8> = Vec::new();
    match op {
        ExternalOp::DepositBorrowDual {
            coin_amount,
            pc_amount,
            coin_borrow_amount,
            pc_borrow_amount,
            obligation_index,
        } => {
            push_u64_le(&mut out, *coin_amount);
            push_u64_le(&mut out, *pc_amount);
            push_u64_le(&mut out, *coin_borrow_amount);
            push_u64_le(&mut out, *pc_borrow_amount);
            out.push(*obligation_index);
        },
        ExternalOp::SwapTokens { obligation_index } => {
            out.push(*obligation_index);
        },
        ExternalOp::AddLiquidity { obligation_index } => {
            out.push(*obligation_index);
        },
        ExternalOp::StakeVault { nonce, meta_nonce, obligation_index } => {
            out.push(*nonce);
            out.push(*meta_nonce);
            push_u64_le(&mut out, *obligation_index);
        },
        ExternalOp::UnstakeVault {
            meta_nonce,
            nonce,
            obligation_index,
            withdraw_percent,
            close_method,
        } => {
            out.push(*meta_nonce);
            out.push(*nonce);
            out.push(*obligation_index);
            out.push(*withdraw_percent);
            out.push(*close_method);
        },
        ExternalOp::RemoveLiquidity { obligation_index, obligation_vault_nonce } => {
            out.push(*obligation_index);
            out.push(*obligation_vault_nonce);
        },
        ExternalOp::SwapToRepay { obligation_index } => {
            out.push(*obligation_index);
        },
        ExternalOp::RepayObligation { first_reserve, second_reserve, obligation_index } => {
            let mut count = u32_to_le_bytes(2u32);
            out.append(&mut count);
            push_address(&mut out, first_reserve);
            push_address(&mut out, second_reserve);
            out.push(*obligation_index);
            proof {
                let m = seq![*first_reserve, *second_reserve].map_values(|a: Address| a.bytes@);
                assert(m =~= seq![first_reserve.bytes@].push(second_reserve.bytes@));
                seq![first_reserve.bytes@].lemma_flatten_push(second_reserve.bytes@);
                seq![first_reserve.bytes@].lemma_flatten_one_element();
            }
        },
        ExternalOp::CreateUserFarm { solfarm_vault_program } => {
            push_address(&mut out, solfarm_vault_program);
        },
        ExternalOp::CreateUserFarmObligation => {},
    }
    proof {
        assert(out@ =~= spec_op_payload(*op));
    }
    out
}

/// The instruction name of an operation, for selector resolution.
fn op_name(op: &ExternalOp) -> (r: &'static str)
    ensures
        r@ == spec_op_name(*op),
{
    match op {
        ExternalOp::DepositBorrowDual { .. } => "deposit_borrow_dual",
        ExternalOp::SwapTokens { .. } => "swap_tokens_raydium_stats",
        ExternalOp::AddLiquidity { .. } => "add_liquidity_stats",
        ExternalOp::StakeVault { .. } => "deposit_vault",
        ExternalOp::UnstakeVault { .. } => "withdraw_raydium_vault_close",
        ExternalOp::RemoveLiquidity { .. } => "remove_liquidity_new",
        ExternalOp::SwapToRepay { .. } => "swap_to_repay_raydium",
        ExternalOp::RepayObligation { .. } => "repay_obligation_liquidity_external",
        ExternalOp::CreateUserFarm { .. } => "create_user_farm",
        ExternalOp::CreateUserFarmObligation => "create_user_farm_obligation",
    }
}

/// Which selector table holds an operation's name.
fn op_in_deprecated_table(op: &ExternalOp) -> (r: bool)
    ensures
        r == spec_op_in_deprecated_table(*op),
{
    match op {
        ExternalOp::DepositBorrowDual { .. } => true,
        ExternalOp::SwapTokens { .. } => true,
        ExternalOp::AddLiquidity { .. } => true,
        ExternalOp::StakeVault { .. } => true,
        ExternalOp::UnstakeVault { .. } => true,
        ExternalOp::RemoveLiquidity { .. } => false,
        ExternalOp::SwapToRepay { .. } => false,
        ExternalOp::RepayObligation { .. } => false,
        ExternalOp::CreateUserFarm { .. } => true,
        ExternalOp::CreateUserFarmObligation => true,
    }
}

/// Form the invocable instruction of one catalog operation: its resolved
/// selector, then its encoded arguments, with the account references the
/// external interface asks for handed through in order. Resolution is
/// checked before anything else; every operation of the catalog resolves,
/// so formation succeeds.
pub fn form_instruction(op: &ExternalOp, accounts: Vec<AccountRef>, program_id: &Address) -> (r:
    Result<ExternalInstruction, ChamberError>)
    ensures
        r matches Ok(ix) ==> {
            &&& spec_selector_of(*op) matches Some(sel) && ix.data@ == sel + spec_op_payload(*op)
            &&& ix.accounts == accounts
            &&& ix.program_id == *program_id
        },
        r is Err ==> r == Err::<ExternalInstruction, ChamberError>(
            ChamberError::CpiInstructionFormationFailed,
        ) && spec_selector_of(*op) is None,
        r is Ok,
{
    let name = op_name(op);
    let deprecated = op_in_deprecated_table(op);
    let mut data = selector_for_name(name, deprecated)?;
    let mut payload = encode_op_payload(op);
    data.append(&mut payload);
    Ok(ExternalInstruction { program_id: *program_id, accounts, data })
}

} // verus!
