use chamber::address::Address;
use chamber::cpi::{form_instruction, selector_for_name, AccountRef, ExternalOp};
use chamber::error::ChamberError;
use anchor_lang::prelude::Pubkey;
use chamber::utils::{
    derive_chamber_address, derive_chamber_authority_address, derive_user_account_address,
};

fn addr(tag: u8) -> Address {
    Address::new([tag; 32])
}

fn account(tag: u8, is_writable: bool, is_signer: bool) -> AccountRef {
    AccountRef { address: addr(tag), is_writable, is_signer }
}

#[test]
fn selectors_resolve_from_the_tables() {
    // the selector is the table's entry for the name, not the name itself
    let sel = selector_for_name("deposit_borrow_dual", true).unwrap();
    assert_eq!(sel, vec![170, 199, 78, 138, 119, 118, 96, 246]);
    let sel = selector_for_name("swap_to_repay_raydium", false).unwrap();
    assert_eq!(sel, vec![30, 38, 34, 46, 211, 41, 152, 197]);
    let sel = selector_for_name("remove_liquidity_new", false).unwrap();
    assert_eq!(sel, vec![74, 48, 98, 96, 147, 29, 187, 203]);
}

#[test]
fn unknown_operation_cannot_be_called() {
    let r = selector_for_name("no_such_operation", true);
    assert_eq!(r, Err(ChamberError::CpiInstructionFormationFailed));
    let r = selector_for_name("no_such_operation", false);
    assert_eq!(r, Err(ChamberError::CpiInstructionFormationFailed));
}

#[test]
fn deposit_borrow_dual_instruction_layout() {
    let op = ExternalOp::DepositBorrowDual {
        coin_amount: 600,
        pc_amount: 400,
        coin_borrow_amount: 1500,
        pc_borrow_amount: 500,
        obligation_index: 7,
    };
    let accounts = vec![account(1, true, true), account(2, true, false)];
    let ix = form_instruction(&op, accounts.clone(), &addr(9)).unwrap();
    assert_eq!(ix.program_id, addr(9));
    assert_eq!(ix.accounts, accounts);
    // selector, then four u64 arguments little-endian, then the index byte
    assert_eq!(ix.data.len(), 8 + 8 * 4 + 1);
    assert_eq!(&ix.data[0..8], &[170, 199, 78, 138, 119, 118, 96, 246]);
    assert_eq!(&ix.data[8..16], &600u64.to_le_bytes());
    assert_eq!(&ix.data[16..24], &400u64.to_le_bytes());
    assert_eq!(&ix.data[24..32], &1500u64.to_le_bytes());
    assert_eq!(&ix.data[32..40], &500u64.to_le_bytes());
    assert_eq!(ix.data[40], 7);
}

#[test]
fn repay_instruction_encodes_reserve_list() {
    let op = ExternalOp::RepayObligation {
        first_reserve: addr(5),
        second_reserve: addr(6),
        obligation_index: 0,
    };
    let ix = form_instruction(&op, Vec::new(), &addr(9)).unwrap();
    // selector, a 4-byte element count of two, both addresses, the index
    assert_eq!(ix.data.len(), 8 + 4 + 32 + 32 + 1);
    assert_eq!(&ix.data[0..8], &[151, 242, 97, 153, 158, 8, 189, 1]);
    assert_eq!(&ix.data[8..12], &2u32.to_le_bytes());
    assert_eq!(&ix.data[12..44], &[5u8; 32]);
    assert_eq!(&ix.data[44..76], &[6u8; 32]);
    assert_eq!(ix.data[76], 0);
}

#[test]
fn stake_and_unstake_instruction_layouts() {
    let stake = ExternalOp::StakeVault { nonce: 1, meta_nonce: 2, obligation_index: 3 };
    let ix = form_instruction(&stake, Vec::new(), &addr(9)).unwrap();
    assert_eq!(&ix.data[0..8], &[79, 168, 135, 119, 200, 42, 163, 68]);
    assert_eq!(ix.data[8], 1);
    assert_eq!(ix.data[9], 2);
    assert_eq!(&ix.data[10..18], &3u64.to_le_bytes());

    let unstake = ExternalOp::UnstakeVault {
        meta_nonce: 0,
        nonce: 0,
        obligation_index: 0,
        withdraw_percent: 100,
        close_method: 0,
    };
    let ix = form_instruction(&unstake, Vec::new(), &addr(9)).unwrap();
    assert_eq!(&ix.data[0..8], &[153, 167, 126, 15, 14, 127, 73, 33]);
    assert_eq!(&ix.data[8..13], &[0, 0, 0, 100, 0]);
}

#[test]
fn every_catalog_operation_forms() {
    let ops = vec![
        ExternalOp::DepositBorrowDual {
            coin_amount: 0,
            pc_amount: 0,
            coin_borrow_amount: 0,
            pc_borrow_amount: 0,
            obligation_index: 0,
        },
        ExternalOp::SwapTokens { obligation_index: 0 },
        ExternalOp::AddLiquidity { obligation_index: 0 },
        ExternalOp::StakeVault { nonce: 0, meta_nonce: 0, obligation_index: 0 },
        ExternalOp::UnstakeVault {
            meta_nonce: 0,
            nonce: 0,
            obligation_index: 0,
            withdraw_percent: 0,
            close_method: 0,
        },
        ExternalOp::RemoveLiquidity { obligation_index: 0, obligation_vault_nonce: 0 },
        ExternalOp::SwapToRepay { obligation_index: 0 },
        ExternalOp::RepayObligation {
            first_reserve: addr(1),
            second_reserve: addr(2),
            obligation_index: 0,
        },
        ExternalOp::CreateUserFarm { solfarm_vault_program: addr(3) },
        ExternalOp::CreateUserFarmObligation,
    ];
    for op in ops {
        let ix = form_instruction(&op, Vec::new(), &addr(9)).unwrap();
        assert!(ix.data.len() >= 8);
    }
}

#[test]
fn derived_addresses_match_the_runtime_derivation() {
    let program = addr(40);
    let chamber_key = addr(41);
    let program_pk = Pubkey::new_from_array(program.bytes);
    let (authority, bump) = derive_chamber_authority_address(&chamber_key, &program).unwrap();
    let (expected, expected_bump) = Pubkey::find_program_address(
        &[b"chamber_authority", &chamber_key.bytes],
        &program_pk,
    );
    assert_eq!(authority.bytes, expected.to_bytes());
    assert_eq!(bump, expected_bump);

    let (chamber_addr, _) =
        derive_chamber_address(&addr(1), &addr(5), &addr(6), 3, &program).unwrap();
    let (expected, _) = Pubkey::find_program_address(
        &[b"chamber", &[1u8; 32], &[5u8; 32], &[6u8; 32], &3u8.to_le_bytes()],
        &program_pk,
    );
    assert_eq!(chamber_addr.bytes, expected.to_bytes());

    let (user_addr, _) = derive_user_account_address(&chamber_key, &addr(21), &program).unwrap();
    let (expected, _) = Pubkey::find_program_address(
        &[b"user_account", &chamber_key.bytes, &[21u8; 32]],
        &program_pk,
    );
    assert_eq!(user_addr.bytes, expected.to_bytes());
    // distinct users land on distinct records
    let (other, _) = derive_user_account_address(&chamber_key, &addr(22), &program).unwrap();
    assert_ne!(user_addr.bytes, other.bytes);
}
