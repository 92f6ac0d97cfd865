use anchor_escrow::address::{find_escrow_address, find_user_state_address};
use anchor_escrow::instructions::{deposit_with, initialize_with, withdraw_with};
use anchor_escrow::{
    deposit, initialize, withdraw, Address, Deposit, Escrow, EscrowError, Initialize, Mint,
    Pending, Signer, TokenAccount, TokenTransfer, TransferOutcome, UserState, Withdraw,
};

fn address(byte: u8) -> Address {
    Address { bytes: [byte; 32] }
}

fn program() -> Address {
    address(9)
}

fn owner() -> Address {
    address(1)
}

fn mint() -> Mint {
    Mint { key: address(2), decimals: 6 }
}

fn escrow_key() -> (Address, u8) {
    find_escrow_address(&program()).unwrap()
}

fn state_key(user: &Address) -> (Address, u8) {
    find_user_state_address(&program(), user).unwrap()
}

fn deposit_accounts(wallet_balance: u64, balance: Option<u64>) -> Deposit {
    let (escrow_key, escrow_bump) = escrow_key();
    let (user_state_key, bump) = state_key(&owner());
    Deposit {
        program_id: program(),
        escrow_key,
        escrow: Escrow { owner: owner(), mint: mint().key, bump: escrow_bump },
        user: owner(),
        mint: mint(),
        user_state_key,
        user_state: balance.map(|amount| UserState { amount, bump }),
        user_ata: TokenAccount {
            key: address(5),
            mint: mint().key,
            owner: owner(),
            amount: wallet_balance,
        },
        user_deposit: TokenAccount {
            key: address(6),
            mint: mint().key,
            owner: escrow_key,
            amount: balance.unwrap_or(0),
        },
    }
}

fn withdraw_accounts(wallet_balance: u64, balance: u64) -> Withdraw {
    let d = deposit_accounts(wallet_balance, Some(balance));
    Withdraw {
        program_id: d.program_id,
        escrow_key: d.escrow_key,
        escrow: d.escrow,
        user: d.user,
        mint: d.mint,
        user_state_key: d.user_state_key,
        user_state: d.user_state.unwrap(),
        user_ata: d.user_ata,
        user_deposit: d.user_deposit,
    }
}

#[test]
fn initialize_writes_owner_mint_and_bump() {
    let (escrow_key, bump) = escrow_key();
    let mut ctx = Initialize {
        program_id: program(),
        escrow_key,
        escrow: None,
        mint: mint(),
        owner: owner(),
    };
    assert_eq!(initialize(&mut ctx), Ok(()));
    assert_eq!(ctx.escrow, Some(Escrow { owner: owner(), mint: mint().key, bump }));
    assert_eq!(ctx.program_id, program());
    assert_eq!(ctx.escrow_key, escrow_key);
    assert_eq!(ctx.mint, mint());
    assert_eq!(ctx.owner, owner());
}

#[test]
fn initialize_at_another_address_is_unauthorized() {
    let mut ctx = Initialize {
        program_id: program(),
        escrow_key: address(3),
        escrow: None,
        mint: mint(),
        owner: owner(),
    };
    let before = ctx;
    assert_eq!(initialize(&mut ctx), Err(EscrowError::Unauthorized));
    assert_eq!(ctx, before);
}

#[test]
fn initialize_with_what_was_found() {
    let mut ctx = Initialize {
        program_id: program(),
        escrow_key: address(3),
        escrow: None,
        mint: mint(),
        owner: owner(),
    };
    let before = ctx;
    assert_eq!(initialize_with(&mut ctx, None), Err(EscrowError::Unauthorized));
    assert_eq!(ctx, before);
    assert_eq!(initialize_with(&mut ctx, Some((address(4), 255))), Err(EscrowError::Unauthorized));
    assert_eq!(ctx, before);
    assert_eq!(initialize_with(&mut ctx, Some((address(3), 17))), Ok(()));
    assert_eq!(ctx.escrow, Some(Escrow { owner: owner(), mint: mint().key, bump: 17 }));
    let written = ctx;
    assert_eq!(
        initialize_with(&mut ctx, Some((address(3), 18))),
        Err(EscrowError::AlreadyInitialized)
    );
    assert_eq!(ctx, written);
    assert_eq!(initialize_with(&mut ctx, None), Err(EscrowError::AlreadyInitialized));
    assert_eq!(ctx, written);
}

#[test]
fn deposit_by_another_identity_is_unauthorized() {
    let mut ctx = deposit_accounts(150, Some(10));
    let stranger = address(8);
    ctx.user = stranger;
    ctx.user_state_key = state_key(&stranger).0;
    ctx.user_ata.owner = stranger;
    let before = ctx;
    assert_eq!(deposit(&ctx, 100), Err(EscrowError::Unauthorized));
    assert_eq!(ctx, before);
}

#[test]
fn deposit_from_a_wallet_of_another_is_unauthorized() {
    let mut ctx = deposit_accounts(150, None);
    ctx.user_ata.owner = address(8);
    assert_eq!(deposit(&ctx, 100), Err(EscrowError::Unauthorized));
}

#[test]
fn deposit_into_a_vault_of_another_is_unauthorized() {
    let mut ctx = deposit_accounts(150, None);
    ctx.user_deposit.owner = owner();
    assert_eq!(deposit(&ctx, 100), Err(EscrowError::Unauthorized));
}

#[test]
fn deposit_to_a_record_at_another_address_is_unauthorized() {
    let mut ctx = deposit_accounts(150, None);
    ctx.user_state_key = state_key(&address(8)).0;
    assert_eq!(deposit(&ctx, 100), Err(EscrowError::Unauthorized));
}

#[test]
fn deposit_under_a_changed_bump_is_unauthorized() {
    let mut ctx = deposit_accounts(150, None);
    ctx.escrow.bump = ctx.escrow.bump.wrapping_sub(1);
    assert_eq!(deposit(&ctx, 100), Err(EscrowError::Unauthorized));
}

#[test]
fn deposit_of_another_mint_is_a_mint_mismatch() {
    let mut ctx = deposit_accounts(150, None);
    ctx.mint.key = address(4);
    assert_eq!(deposit(&ctx, 100), Err(EscrowError::MintMismatch));

    let mut ctx = deposit_accounts(150, None);
    ctx.user_ata.mint = address(4);
    assert_eq!(deposit(&ctx, 100), Err(EscrowError::MintMismatch));

    let mut ctx = deposit_accounts(150, None);
    ctx.user_deposit.mint = address(4);
    assert_eq!(deposit(&ctx, 100), Err(EscrowError::MintMismatch));
}

#[test]
fn deposit_of_more_than_the_wallet_holds_is_insufficient() {
    let ctx = deposit_accounts(150, Some(10));
    assert_eq!(deposit(&ctx, 151), Err(EscrowError::InsufficientFunds));
    assert!(deposit(&ctx, 150).is_ok());
}

#[test]
fn refusals_of_a_deposit_come_in_their_order() {
    let mut ctx = deposit_accounts(150, None);
    ctx.user = address(8);
    ctx.mint.key = address(4);
    assert_eq!(deposit(&ctx, 1_000), Err(EscrowError::Unauthorized));
    ctx.user = owner();
    assert_eq!(deposit(&ctx, 1_000), Err(EscrowError::MintMismatch));
    ctx.mint.key = mint().key;
    assert_eq!(deposit(&ctx, 1_000), Err(EscrowError::InsufficientFunds));
}

#[test]
fn deposit_adds_to_the_recorded_balance() {
    let ctx = deposit_accounts(150, Some(10));
    let bump = state_key(&owner()).1;
    let pending = deposit(&ctx, 100).unwrap();
    assert_eq!(pending.user_state, UserState { amount: 110, bump });
    let ctx = deposit_accounts(u64::MAX, Some(1));
    let pending = deposit(&ctx, u64::MAX - 1).unwrap();
    assert_eq!(pending.user_state.amount, u64::MAX);
}

#[test]
fn deposit_beyond_what_a_record_holds_overflows() {
    let ctx = deposit_accounts(u64::MAX, Some(1));
    let before = ctx;
    assert_eq!(deposit(&ctx, u64::MAX), Err(EscrowError::Overflow));
    assert_eq!(ctx, before);
    let ctx = deposit_accounts(5, Some(u64::MAX - 4));
    assert_eq!(deposit(&ctx, 5), Err(EscrowError::Overflow));
    assert_eq!(deposit(&ctx, 4).unwrap().user_state.amount, u64::MAX);
    // A wallet that cannot pay is told so first.
    assert_eq!(deposit(&ctx, 6), Err(EscrowError::InsufficientFunds));
}

#[test]
fn deposit_with_given_addresses() {
    let ctx = Deposit {
        program_id: program(),
        escrow_key: address(3),
        escrow: Escrow { owner: owner(), mint: mint().key, bump: 200 },
        user: owner(),
        mint: mint(),
        user_state_key: address(4),
        user_state: Some(UserState { amount: 5, bump: 0 }),
        user_ata: TokenAccount { key: address(5), mint: mint().key, owner: owner(), amount: 150 },
        user_deposit: TokenAccount {
            key: address(6),
            mint: mint().key,
            owner: address(3),
            amount: 5,
        },
    };
    assert_eq!(
        deposit_with(&ctx, Some(address(3)), Some((address(4), 77)), 100),
        Ok(Pending {
            transfer: TokenTransfer {
                from: address(5),
                to: address(6),
                mint: mint().key,
                authority: owner(),
                amount: 100,
                decimals: 6,
                signer: Signer::User,
            },
            user_state: UserState { amount: 105, bump: 77 },
        })
    );
    assert_eq!(
        deposit_with(&ctx, None, Some((address(4), 77)), 100),
        Err(EscrowError::Unauthorized)
    );
    assert_eq!(
        deposit_with(&ctx, Some(address(4)), Some((address(4), 77)), 100),
        Err(EscrowError::Unauthorized)
    );
    assert_eq!(deposit_with(&ctx, Some(address(3)), None, 100), Err(EscrowError::Unauthorized));
    assert_eq!(
        deposit_with(&ctx, Some(address(3)), Some((address(3), 77)), 100),
        Err(EscrowError::Unauthorized)
    );
    assert_eq!(
        deposit_with(&ctx, Some(address(3)), Some((address(4), 77)), 151),
        Err(EscrowError::InsufficientFunds)
    );
}

#[test]
fn withdraw_of_more_than_the_balance_is_insufficient() {
    let ctx = withdraw_accounts(0, 60);
    let before = ctx;
    assert_eq!(withdraw(&ctx, 61), Err(EscrowError::InsufficientFunds));
    assert_eq!(withdraw(&ctx, 1_000), Err(EscrowError::InsufficientFunds));
    assert_eq!(withdraw(&ctx, u64::MAX), Err(EscrowError::InsufficientFunds));
    assert_eq!(ctx, before);
    assert!(withdraw(&ctx, 60).is_ok());
}

#[test]
fn withdraw_is_bounded_by_the_balance_and_not_by_the_vault() {
    let mut ctx = withdraw_accounts(0, 60);
    ctx.user_deposit.amount = 1_000;
    assert_eq!(withdraw(&ctx, 61), Err(EscrowError::InsufficientFunds));
}

#[test]
fn withdraw_by_another_identity_is_unauthorized() {
    let mut ctx = withdraw_accounts(0, 60);
    let stranger = address(8);
    ctx.user = stranger;
    let before = ctx;
    assert_eq!(withdraw(&ctx, 10), Err(EscrowError::Unauthorized));
    // Not with a wallet of their own either: the balance is not theirs.
    ctx.user_ata.owner = stranger;
    assert_eq!(withdraw(&ctx, 10), Err(EscrowError::Unauthorized));
    ctx.user_ata.owner = owner();
    assert_eq!(ctx, before);
}

#[test]
fn withdraw_into_a_wallet_of_another_is_unauthorized() {
    let mut ctx = withdraw_accounts(0, 60);
    ctx.user_ata.owner = address(8);
    assert_eq!(withdraw(&ctx, 10), Err(EscrowError::Unauthorized));
}

#[test]
fn withdraw_from_a_vault_of_another_is_unauthorized() {
    let mut ctx = withdraw_accounts(0, 60);
    ctx.user_deposit.owner = owner();
    assert_eq!(withdraw(&ctx, 10), Err(EscrowError::Unauthorized));
}

#[test]
fn withdraw_under_a_changed_bump_is_unauthorized() {
    let mut ctx = withdraw_accounts(0, 60);
    ctx.user_state.bump = ctx.user_state.bump.wrapping_sub(1);
    assert_eq!(withdraw(&ctx, 10), Err(EscrowError::Unauthorized));

    let mut ctx = withdraw_accounts(0, 60);
    ctx.escrow.bump = ctx.escrow.bump.wrapping_sub(1);
    assert_eq!(withdraw(&ctx, 10), Err(EscrowError::Unauthorized));
}

#[test]
fn withdraw_of_another_mint_is_a_mint_mismatch() {
    let mut ctx = withdraw_accounts(0, 60);
    ctx.mint.key = address(4);
    assert_eq!(withdraw(&ctx, 10), Err(EscrowError::MintMismatch));

    let mut ctx = withdraw_accounts(0, 60);
    ctx.user_ata.mint = address(4);
    assert_eq!(withdraw(&ctx, 10), Err(EscrowError::MintMismatch));

    let mut ctx = withdraw_accounts(0, 60);
    ctx.user_deposit.mint = address(4);
    assert_eq!(withdraw(&ctx, 10), Err(EscrowError::MintMismatch));
}

#[test]
fn refusals_of_a_withdrawal_come_in_their_order() {
    let mut ctx = withdraw_accounts(0, 60);
    ctx.user_ata.owner = address(8);
    ctx.mint.key = address(4);
    assert_eq!(withdraw(&ctx, 1_000), Err(EscrowError::Unauthorized));
    ctx.user_ata.owner = owner();
    assert_eq!(withdraw(&ctx, 1_000), Err(EscrowError::MintMismatch));
    ctx.mint.key = mint().key;
    assert_eq!(withdraw(&ctx, 1_000), Err(EscrowError::InsufficientFunds));
}

#[test]
fn withdraw_with_given_addresses() {
    let ctx = Withdraw {
        program_id: program(),
        escrow_key: address(3),
        escrow: Escrow { owner: owner(), mint: mint().key, bump: 200 },
        user: address(8),
        mint: mint(),
        user_state_key: address(4),
        user_state: UserState { amount: 60, bump: 33 },
        user_ata: TokenAccount { key: address(5), mint: mint().key, owner: address(8), amount: 1 },
        user_deposit: TokenAccount {
            key: address(6),
            mint: mint().key,
            owner: address(3),
            amount: 60,
        },
    };
    assert_eq!(
        withdraw_with(&ctx, Some(address(3)), Some(address(4)), 40),
        Ok(Pending {
            transfer: TokenTransfer {
                from: address(6),
                to: address(5),
                mint: mint().key,
                authority: address(3),
                amount: 40,
                decimals: 6,
                signer: Signer::Escrow { bump: 200 },
            },
            user_state: UserState { amount: 20, bump: 33 },
        })
    );
    assert_eq!(
        withdraw_with(&ctx, Some(address(3)), Some(address(4)), 61),
        Err(EscrowError::InsufficientFunds)
    );
    assert_eq!(
        withdraw_with(&ctx, None, Some(address(4)), 40),
        Err(EscrowError::Unauthorized)
    );
    assert_eq!(
        withdraw_with(&ctx, Some(address(3)), None, 40),
        Err(EscrowError::Unauthorized)
    );
    assert_eq!(
        withdraw_with(&ctx, Some(address(3)), Some(address(3)), 40),
        Err(EscrowError::Unauthorized)
    );
}

#[test]
fn settling_a_completed_movement_records_the_balance() {
    let mut ctx = deposit_accounts(150, None);
    let before = ctx;
    let pending = deposit(&ctx, 100).unwrap();
    assert_eq!(ctx.settle(&pending, TransferOutcome::Completed), Ok(()));
    assert_eq!(ctx.user_state, Some(pending.user_state));
    assert_eq!(ctx.user_state.unwrap().amount, 100);
    ctx.user_state = None;
    assert_eq!(ctx, before);

    let mut ctx = withdraw_accounts(0, 60);
    let before = ctx;
    let pending = withdraw(&ctx, 40).unwrap();
    assert_eq!(ctx.settle(&pending, TransferOutcome::Completed), Ok(()));
    assert_eq!(ctx.user_state.amount, 20);
    ctx.user_state = before.user_state;
    assert_eq!(ctx, before);
}

#[test]
fn settling_a_rejected_movement_fails_and_records_nothing() {
    let mut ctx = deposit_accounts(150, Some(10));
    let before = ctx;
    let pending = deposit(&ctx, 100).unwrap();
    assert_eq!(ctx.settle(&pending, TransferOutcome::Rejected), Err(EscrowError::TransferFailed));
    assert_eq!(ctx, before);

    let mut ctx = withdraw_accounts(0, 60);
    let before = ctx;
    let pending = withdraw(&ctx, 40).unwrap();
    assert_eq!(ctx.settle(&pending, TransferOutcome::Rejected), Err(EscrowError::TransferFailed));
    assert_eq!(ctx, before);
}
