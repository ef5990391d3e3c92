use std::collections::HashMap;

use escrow::{
    process, process_cancel, process_post, process_take, AccountView, Authority, Effects, Error,
    Escrow, Fault, Identity, Instruction, TokenOp, RECORD_LEN,
};
use spl_token::solana_program::program_option::COption;
use spl_token::solana_program::program_pack::Pack;
use spl_token::solana_program::pubkey::Pubkey as TokenPubkey;

fn key(n: u8) -> Identity {
    Identity::from_bytes([n; 32])
}

fn token_bytes(mint: &Identity, owner: &Identity, amount: u64) -> Vec<u8> {
    let account = spl_token::state::Account {
        mint: TokenPubkey::new_from_array(mint.0),
        owner: TokenPubkey::new_from_array(owner.0),
        amount,
        delegate: COption::None,
        state: spl_token::state::AccountState::Initialized,
        is_native: COption::None,
        delegated_amount: 0,
        close_authority: COption::None,
    };
    let mut buf = vec![0u8; spl_token::state::Account::LEN];
    spl_token::state::Account::pack(account, &mut buf).unwrap();
    buf
}

fn account(key: Identity, owner: Identity, is_signer: bool, lamports: u64, data: Vec<u8>) -> AccountView {
    AccountView { key, owner, is_signer, lamports, data }
}

/// A miniature ledger mirroring the library's application semantics, for
/// checking end states after a transition's effects are committed.
struct TestWorld {
    /// token account key -> (mint, authority, amount)
    tokens: HashMap<[u8; 32], ([u8; 32], [u8; 32], u64)>,
    lamports: HashMap<[u8; 32], u64>,
    records: HashMap<[u8; 32], Vec<u8>>,
}

fn acting(authority: &Authority, program: &Identity) -> [u8; 32] {
    match authority {
        Authority::HumanKey(k) => k.0,
        Authority::Derived { seed, bump } => {
            let program_key = solana_program::pubkey::Pubkey::new_from_array(program.0);
            let (derived, derived_bump) =
                solana_program::pubkey::Pubkey::find_program_address(&[seed], &program_key);
            assert_eq!(*bump, derived_bump, "derivation proof does not match");
            derived.to_bytes()
        },
    }
}

fn apply(world: &mut TestWorld, effects: &Effects, program: &Identity) {
    if let Some(w) = &effects.record_write {
        assert!(world.records.contains_key(&w.account.0));
        world.records.insert(w.account.0, w.data.clone());
    }
    for op in &effects.token_ops {
        match op {
            TokenOp::Transfer { source, destination, authority, amount } => {
                let src = world.tokens[&source.0];
                let dst = world.tokens[&destination.0];
                assert_eq!(acting(authority, program), src.1, "authority cannot move source");
                assert_eq!(src.0, dst.0, "assets differ");
                assert!(*amount <= src.2, "insufficient balance");
                if source.0 != destination.0 {
                    world.tokens.insert(source.0, (src.0, src.1, src.2 - amount));
                    world.tokens.insert(destination.0, (dst.0, dst.1, dst.2.checked_add(*amount).unwrap()));
                }
            },
            TokenOp::SetAuthority { account, new_authority, authority } => {
                let acct = world.tokens[&account.0];
                assert_eq!(acting(authority, program), acct.1, "authority cannot delegate");
                world.tokens.insert(account.0, (acct.0, new_authority.0, acct.2));
            },
            TokenOp::Close { account, refund_to, authority } => {
                let acct = world.tokens[&account.0];
                assert_eq!(acting(authority, program), acct.1, "authority cannot close");
                assert_eq!(acct.2, 0, "closing a non-empty account");
                assert_ne!(account.0, refund_to.0);
                let rent = world.lamports[&account.0];
                let target = world.lamports[&refund_to.0];
                world.tokens.remove(&account.0);
                world.lamports.insert(refund_to.0, target.checked_add(rent).unwrap());
                world.lamports.insert(account.0, 0);
            },
        }
    }
    if let Some(rc) = &effects.record_close {
        assert!(world.records.contains_key(&rc.record.0));
        assert_ne!(rc.record.0, rc.refund_to.0);
        let rent = world.lamports[&rc.record.0];
        let target = world.lamports[&rc.refund_to.0];
        world.records.insert(rc.record.0, Vec::new());
        world.lamports.insert(rc.refund_to.0, target.checked_add(rent).unwrap());
        world.lamports.insert(rc.record.0, 0);
    }
}

// The fixed cast of the scenarios below.
fn program() -> Identity {
    key(200)
}
fn token_system() -> Identity {
    key(201)
}
fn system_owner() -> Identity {
    key(202)
}
fn mint_x() -> Identity {
    key(210)
}
fn mint_y() -> Identity {
    key(211)
}
fn poster() -> Identity {
    key(1)
}
fn poster_buy() -> Identity {
    key(2)
}
fn custody() -> Identity {
    key(3)
}
fn record() -> Identity {
    key(4)
}
fn taker() -> Identity {
    key(5)
}
fn taker_sell() -> Identity {
    key(6)
}
fn taker_buy() -> Identity {
    key(7)
}
fn refund() -> Identity {
    key(8)
}
fn pda() -> (Identity, u8) {
    escrow::custody_authority(&program()).unwrap()
}

const RENT_MIN: u64 = 2_500;

fn post_accounts() -> Vec<AccountView> {
    vec![
        account(poster(), system_owner(), true, 10_000, Vec::new()),
        account(custody(), token_system(), false, 2_000, token_bytes(&mint_x(), &poster(), 100)),
        account(poster_buy(), token_system(), false, 2_000, token_bytes(&mint_y(), &poster(), 0)),
        account(record(), program(), false, 3_000, vec![0u8; RECORD_LEN]),
        account(token_system(), system_owner(), false, 1, Vec::new()),
    ]
}

fn open_record() -> Escrow {
    Escrow {
        is_initialized: true,
        poster: poster(),
        token_account: custody(),
        poster_buy_account: poster_buy(),
        buy_amount: 500,
    }
}

/// The accounts of a Take request against the world as Post left it.
fn take_accounts() -> Vec<AccountView> {
    vec![
        account(taker(), system_owner(), true, 9_000, Vec::new()),
        account(taker_sell(), token_system(), false, 2_000, token_bytes(&mint_y(), &taker(), 600)),
        account(taker_buy(), token_system(), false, 2_000, token_bytes(&mint_x(), &taker(), 0)),
        account(custody(), token_system(), false, 2_000, token_bytes(&mint_x(), &pda().0, 100)),
        account(poster(), system_owner(), false, 10_000, Vec::new()),
        account(poster_buy(), token_system(), false, 2_000, token_bytes(&mint_y(), &poster(), 0)),
        account(record(), program(), false, 3_000, open_record().store()),
        account(token_system(), system_owner(), false, 1, Vec::new()),
        account(pda().0, system_owner(), false, 1, Vec::new()),
    ]
}

fn cancel_accounts() -> Vec<AccountView> {
    vec![
        account(poster(), system_owner(), true, 10_000, Vec::new()),
        account(custody(), token_system(), false, 2_000, token_bytes(&mint_x(), &pda().0, 100)),
        account(record(), program(), false, 3_000, open_record().store()),
        account(refund(), token_system(), false, 2_000, token_bytes(&mint_x(), &poster(), 0)),
        account(token_system(), system_owner(), false, 1, Vec::new()),
        account(pda().0, system_owner(), false, 1, Vec::new()),
    ]
}

fn world_after_post() -> TestWorld {
    let mut tokens = HashMap::new();
    tokens.insert(taker_sell().0, (mint_y().0, taker().0, 600u64));
    tokens.insert(taker_buy().0, (mint_x().0, taker().0, 0u64));
    tokens.insert(custody().0, (mint_x().0, pda().0 .0, 100u64));
    tokens.insert(poster_buy().0, (mint_y().0, poster().0, 0u64));
    tokens.insert(refund().0, (mint_x().0, poster().0, 0u64));
    let mut lamports = HashMap::new();
    lamports.insert(poster().0, 10_000u64);
    lamports.insert(custody().0, 2_000u64);
    lamports.insert(record().0, 3_000u64);
    lamports.insert(taker().0, 9_000u64);
    let mut records = HashMap::new();
    records.insert(record().0, open_record().store());
    TestWorld { tokens, lamports, records }
}

#[test]
fn post_succeeds_and_delegates_custody() {
    let accounts = post_accounts();
    let effects = process_post(&program(), &token_system(), &accounts, 500, RENT_MIN).unwrap();

    assert_eq!(
        effects.token_ops,
        vec![TokenOp::SetAuthority {
            account: custody(),
            new_authority: pda().0,
            authority: Authority::HumanKey(poster()),
        }]
    );
    let write = effects.record_write.as_ref().unwrap();
    assert_eq!(write.account, record());
    assert_eq!(write.data, open_record().store());
    assert!(effects.record_close.is_none());

    // commit it: custody is now controlled by the derived delegate, not the poster
    let mut world = TestWorld {
        tokens: HashMap::from([(custody().0, (mint_x().0, poster().0, 100u64))]),
        lamports: HashMap::new(),
        records: HashMap::from([(record().0, vec![0u8; RECORD_LEN])]),
    };
    apply(&mut world, &effects, &program());
    assert_eq!(world.tokens[&custody().0].1, pda().0 .0);
    assert_ne!(world.tokens[&custody().0].1, poster().0);
    assert_eq!(world.records[&record().0], open_record().store());
}

#[test]
fn post_into_open_record_fails_and_leaves_it_unchanged() {
    let mut accounts = post_accounts();
    accounts[3].data = open_record().store();
    let before = accounts[3].data.clone();
    let r = process_post(&program(), &token_system(), &accounts, 77, RENT_MIN);
    assert_eq!(r, Err(Fault::AccountAlreadyInitialized));
    assert_eq!(accounts[3].data, before);
}

#[test]
fn post_requires_signature() {
    let mut accounts = post_accounts();
    accounts[0].is_signer = false;
    let r = process_post(&program(), &token_system(), &accounts, 500, RENT_MIN);
    assert_eq!(r, Err(Fault::MissingRequiredSignature));
}

#[test]
fn post_requires_token_owned_accounts() {
    let mut accounts = post_accounts();
    accounts[1].owner = system_owner();
    let r = process_post(&program(), &token_system(), &accounts, 500, RENT_MIN);
    assert_eq!(r, Err(Fault::Rejected(Error::AccountNotToken)));
}

#[test]
fn post_requires_rent_exempt_record() {
    let mut accounts = post_accounts();
    accounts[3].lamports = RENT_MIN - 1;
    let r = process_post(&program(), &token_system(), &accounts, 500, RENT_MIN);
    assert_eq!(r, Err(Fault::Rejected(Error::NotRentExempt)));
}

#[test]
fn post_requires_enough_accounts() {
    let accounts = post_accounts()[..4].to_vec();
    let r = process_post(&program(), &token_system(), &accounts, 500, RENT_MIN);
    assert_eq!(r, Err(Fault::NotEnoughAccountKeys));
}

#[test]
fn take_settles_both_legs_and_closes_the_trade() {
    let accounts = take_accounts();
    let effects = process_take(&program(), &token_system(), &accounts, 100, 500).unwrap();

    let delegate = Authority::Derived { seed: b"escrow".to_vec(), bump: pda().1 };
    assert_eq!(
        effects.token_ops,
        vec![
            TokenOp::Transfer {
                source: taker_sell(),
                destination: poster_buy(),
                authority: Authority::HumanKey(taker()),
                amount: 500,
            },
            TokenOp::Transfer {
                source: custody(),
                destination: taker_buy(),
                authority: delegate.clone(),
                amount: 100,
            },
            TokenOp::Close { account: custody(), refund_to: poster(), authority: delegate },
        ]
    );
    assert!(effects.record_write.is_none());
    let close = effects.record_close.unwrap();
    assert_eq!(close.record, record());
    assert_eq!(close.refund_to, poster());

    let mut world = world_after_post();
    apply(&mut world, &effects, &program());
    assert_eq!(world.tokens[&poster_buy().0].2, 500);
    assert_eq!(world.tokens[&taker_buy().0].2, 100);
    assert_eq!(world.tokens[&taker_sell().0].2, 100);
    assert!(!world.tokens.contains_key(&custody().0));
    assert_eq!(world.lamports[&custody().0], 0);
    assert_eq!(world.records[&record().0], Vec::<u8>::new());
    assert_eq!(world.lamports[&record().0], 0);
    assert_eq!(world.lamports[&poster().0], 15_000);
}

#[test]
fn take_rejects_stale_offer_amount() {
    let accounts = take_accounts();
    let r = process_take(&program(), &token_system(), &accounts, 99, 500);
    assert_eq!(r, Err(Fault::Rejected(Error::ExpectedAmountMismatch)));
}

#[test]
fn take_rejects_wrong_claimed_ask() {
    let accounts = take_accounts();
    let r = process_take(&program(), &token_system(), &accounts, 100, 499);
    assert_eq!(r, Err(Fault::Rejected(Error::ExpectedAmountMismatch)));
}

#[test]
fn take_rejects_redirected_accounts() {
    let mut accounts = take_accounts();
    // a malicious taker points the poster's receive role at their own account
    accounts[5] = account(
        taker_sell(),
        token_system(),
        false,
        2_000,
        token_bytes(&mint_y(), &taker(), 600),
    );
    let r = process_take(&program(), &token_system(), &accounts, 100, 500);
    assert_eq!(r, Err(Fault::Rejected(Error::DoesntMatchEscrow)));
}

#[test]
fn take_rejects_wrong_derived_authority() {
    let mut accounts = take_accounts();
    accounts[8].key = key(99);
    let r = process_take(&program(), &token_system(), &accounts, 100, 500);
    assert_eq!(r, Err(Fault::Rejected(Error::IncorrectPDA)));
}

#[test]
fn take_requires_signature() {
    let mut accounts = take_accounts();
    accounts[0].is_signer = false;
    let r = process_take(&program(), &token_system(), &accounts, 100, 500);
    assert_eq!(r, Err(Fault::MissingRequiredSignature));
}

#[test]
fn take_rejects_rent_refund_overflow() {
    let mut accounts = take_accounts();
    accounts[4].lamports = u64::MAX;
    let r = process_take(&program(), &token_system(), &accounts, 100, 500);
    assert_eq!(r, Err(Fault::Rejected(Error::AmountOverflow)));
}

#[test]
fn second_take_or_cancel_against_closed_record_fails() {
    // settle the trade once
    let effects = process_take(&program(), &token_system(), &take_accounts(), 100, 500).unwrap();
    let mut world = world_after_post();
    apply(&mut world, &effects, &program());

    // rebuild the request against the closed record: its bytes are zeroed
    let mut accounts = take_accounts();
    accounts[6].data = world.records[&record().0].clone();
    let r = process_take(&program(), &token_system(), &accounts, 100, 500);
    assert_eq!(r, Err(Fault::Rejected(Error::InvalidEscrowAccount)));

    let mut accounts = cancel_accounts();
    accounts[2].data = world.records[&record().0].clone();
    let r = process_cancel(&program(), &token_system(), &accounts);
    assert_eq!(r, Err(Fault::Rejected(Error::InvalidEscrowAccount)));
}

#[test]
fn cancel_returns_custody_and_moves_no_counter_asset() {
    let accounts = cancel_accounts();
    let effects = process_cancel(&program(), &token_system(), &accounts).unwrap();

    let delegate = Authority::Derived { seed: b"escrow".to_vec(), bump: pda().1 };
    assert_eq!(
        effects.token_ops,
        vec![
            TokenOp::Transfer {
                source: custody(),
                destination: refund(),
                authority: delegate.clone(),
                amount: 100,
            },
            TokenOp::Close { account: custody(), refund_to: poster(), authority: delegate },
        ]
    );
    assert!(effects.record_write.is_none());
    let close = effects.record_close.unwrap();
    assert_eq!(close.record, record());
    assert_eq!(close.refund_to, poster());

    let mut world = world_after_post();
    apply(&mut world, &effects, &program());
    assert_eq!(world.tokens[&refund().0].2, 100);
    assert!(!world.tokens.contains_key(&custody().0));
    assert_eq!(world.records[&record().0], Vec::<u8>::new());
    assert_eq!(world.lamports[&poster().0], 15_000);
    // the counter-asset never moved
    assert_eq!(world.tokens[&taker_sell().0].2, 600);
    assert_eq!(world.tokens[&poster_buy().0].2, 0);
}

#[test]
fn post_rejects_unparsable_record_bytes() {
    let mut accounts = post_accounts();
    accounts[3].data = vec![0u8; RECORD_LEN - 1];
    let r = process_post(&program(), &token_system(), &accounts, 500, RENT_MIN);
    assert_eq!(r, Err(Fault::Rejected(Error::InvalidEscrowAccount)));
}

#[test]
fn take_rejects_unparsable_custody_bytes() {
    let mut accounts = take_accounts();
    accounts[3].data = vec![1u8; 10];
    let r = process_take(&program(), &token_system(), &accounts, 100, 500);
    assert_eq!(r, Err(Fault::Rejected(Error::AccountNotToken)));
}

#[test]
fn cancel_rejects_rent_refund_overflow() {
    let mut accounts = cancel_accounts();
    accounts[0].lamports = u64::MAX;
    let r = process_cancel(&program(), &token_system(), &accounts);
    assert_eq!(r, Err(Fault::Rejected(Error::AmountOverflow)));
}

#[test]
fn cancel_by_anyone_but_the_poster_fails() {
    let mut accounts = cancel_accounts();
    accounts[0] = account(taker(), system_owner(), true, 9_000, Vec::new());
    let r = process_cancel(&program(), &token_system(), &accounts);
    assert_eq!(r, Err(Fault::Rejected(Error::DoesntMatchEscrow)));
}

#[test]
fn cancel_rejects_mismatched_custody_account() {
    let mut accounts = cancel_accounts();
    accounts[1] = account(
        taker_sell(),
        token_system(),
        false,
        2_000,
        token_bytes(&mint_x(), &pda().0, 100),
    );
    let r = process_cancel(&program(), &token_system(), &accounts);
    assert_eq!(r, Err(Fault::Rejected(Error::DoesntMatchEscrow)));
}

#[test]
fn process_dispatches_on_the_decoded_instruction() {
    let data = Instruction::Post { buy_amount: 500 }.encode();
    let via_process = process(&program(), &token_system(), &post_accounts(), &data, RENT_MIN);
    let direct = process_post(&program(), &token_system(), &post_accounts(), 500, RENT_MIN);
    assert_eq!(via_process, direct);

    let data = Instruction::Take { buy_amount: 100, sell_amount: 500 }.encode();
    let via_process = process(&program(), &token_system(), &take_accounts(), &data, RENT_MIN);
    let direct = process_take(&program(), &token_system(), &take_accounts(), 100, 500);
    assert_eq!(via_process, direct);

    let data = Instruction::Cancel {}.encode();
    let via_process = process(&program(), &token_system(), &cancel_accounts(), &data, RENT_MIN);
    let direct = process_cancel(&program(), &token_system(), &cancel_accounts());
    assert_eq!(via_process, direct);
}

#[test]
fn process_rejects_malformed_request_bytes() {
    let r = process(&program(), &token_system(), &post_accounts(), &[9u8, 9u8], RENT_MIN);
    assert_eq!(r, Err(Fault::Rejected(Error::InvalidInstruction)));
}
