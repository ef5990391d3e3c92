use escrow::{Error, Escrow, Identity, Instruction, RECORD_LEN};

fn key(n: u8) -> Identity {
    Identity::from_bytes([n; 32])
}

#[test]
fn identity_equality_is_byte_for_byte() {
    let mut bytes = [7u8; 32];
    let x = Identity::from_bytes(bytes);
    bytes[31] = 8;
    let y = Identity::from_bytes(bytes);
    assert_ne!(x, y);
    assert_eq!(x, Identity::from_bytes([7u8; 32]));
}

#[test]
fn instruction_post_round_trip() {
    let i = Instruction::Post { buy_amount: 500 };
    let bytes = i.encode();
    assert_eq!(bytes.len(), 9);
    assert_eq!(bytes[0], 0);
    assert_eq!(Instruction::decode(&bytes), Ok(Instruction::Post { buy_amount: 500 }));
}

#[test]
fn instruction_take_round_trip() {
    let i = Instruction::Take { buy_amount: 100, sell_amount: 500 };
    let bytes = i.encode();
    assert_eq!(bytes.len(), 17);
    assert_eq!(bytes[0], 1);
    assert_eq!(
        Instruction::decode(&bytes),
        Ok(Instruction::Take { buy_amount: 100, sell_amount: 500 })
    );
}

#[test]
fn instruction_cancel_round_trip() {
    let i = Instruction::Cancel {};
    let bytes = i.encode();
    assert_eq!(bytes, vec![2u8]);
    assert_eq!(Instruction::decode(&bytes), Ok(Instruction::Cancel {}));
}

#[test]
fn instruction_encoding_is_little_endian() {
    let bytes = Instruction::Post { buy_amount: 0x0102030405060708 }.encode();
    assert_eq!(bytes, vec![0u8, 0x08, 0x07, 0x06, 0x05, 0x04, 0x03, 0x02, 0x01]);
}

#[test]
fn instruction_decode_rejects_unknown_tag() {
    let mut bytes = vec![3u8];
    bytes.extend_from_slice(&[0u8; 8]);
    assert_eq!(Instruction::decode(&bytes), Err(Error::InvalidInstruction));
}

#[test]
fn instruction_decode_rejects_wrong_length() {
    assert_eq!(Instruction::decode(&[]), Err(Error::InvalidInstruction));
    assert_eq!(Instruction::decode(&[0u8; 8]), Err(Error::InvalidInstruction));
    // a trailing byte after a well-formed Cancel is not canonical
    assert_eq!(Instruction::decode(&[2u8, 0u8]), Err(Error::InvalidInstruction));
}

#[test]
fn record_round_trip() {
    let record = Escrow {
        is_initialized: true,
        poster: key(1),
        token_account: key(2),
        poster_buy_account: key(3),
        buy_amount: 500,
    };
    let bytes = record.store();
    assert_eq!(bytes.len(), RECORD_LEN);
    let loaded = Escrow::load(&bytes).unwrap();
    assert!(loaded.is_initialized);
    assert_eq!(loaded.poster, key(1));
    assert_eq!(loaded.token_account, key(2));
    assert_eq!(loaded.poster_buy_account, key(3));
    assert_eq!(loaded.buy_amount, 500);
}

#[test]
fn record_zeroed_slot_parses_as_uninitialized() {
    let blank = vec![0u8; RECORD_LEN];
    let loaded = Escrow::load(&blank).unwrap();
    assert!(!loaded.is_initialized);
    assert_eq!(loaded.poster, Identity::zero());
    assert_eq!(loaded.buy_amount, 0);
}

#[test]
fn record_load_rejects_bad_bytes() {
    // emptied backing storage, as left behind by a close
    assert_eq!(Escrow::load(&[]), Err(Error::InvalidEscrowAccount));
    // wrong length
    assert_eq!(Escrow::load(&[0u8; 104]), Err(Error::InvalidEscrowAccount));
    assert_eq!(Escrow::load(&[0u8; 106]), Err(Error::InvalidEscrowAccount));
    // a flag byte that is neither 0 nor 1
    let mut bytes = vec![0u8; RECORD_LEN];
    bytes[0] = 2;
    assert_eq!(Escrow::load(&bytes), Err(Error::InvalidEscrowAccount));
}

#[test]
fn error_codes_are_stable() {
    assert_eq!(Error::InvalidInstruction.code(), 0);
    assert_eq!(Error::NotRentExempt.code(), 1);
    assert_eq!(Error::InvalidEscrowAccount.code(), 2);
    assert_eq!(Error::ExpectedAmountMismatch.code(), 3);
    assert_eq!(Error::AmountOverflow.code(), 4);
    assert_eq!(Error::NotEnoughForFee.code(), 5);
    assert_eq!(Error::IncorrectFeeAccount.code(), 6);
    assert_eq!(Error::DoesntMatchEscrow.code(), 7);
    assert_eq!(Error::AccountNotToken.code(), 8);
    assert_eq!(Error::IncorrectPDA.code(), 9);
}

#[test]
fn error_messages_name_the_failure() {
    assert_eq!(Error::InvalidInstruction.message(), "Invalid Instruction");
    assert_eq!(Error::NotRentExempt.message(), "Escrow account is not rent exempt");
    assert_eq!(Error::AmountOverflow.message(), "Lamport amount overflow");
    assert_eq!(Error::IncorrectPDA.message(), "Incorrect PDA account");
}

#[test]
fn escrow_seed_is_the_word_escrow() {
    assert_eq!(escrow::escrow_seed(), b"escrow".to_vec());
}

#[test]
fn custody_authority_matches_direct_derivation() {
    let program = key(77);
    let (derived, bump) = escrow::custody_authority(&program).unwrap();
    let program_key = solana_program::pubkey::Pubkey::new_from_array(program.0);
    let (expected, expected_bump) =
        solana_program::pubkey::Pubkey::find_program_address(&[b"escrow"], &program_key);
    assert_eq!(derived.0, expected.to_bytes());
    assert_eq!(bump, expected_bump);
}

#[test]
fn post_trade_instruction_follows_the_role_schema() {
    let r = escrow::post_trade_instruction(
        &key(200),
        &key(1),
        &key(3),
        &key(2),
        &key(4),
        &key(201),
        500,
    );
    assert_eq!(r.program, key(200));
    assert_eq!(r.data, Instruction::Post { buy_amount: 500 }.encode());
    let expect = [
        (key(1), true, false),
        (key(3), false, true),
        (key(2), false, false),
        (key(4), false, true),
        (key(201), false, false),
    ];
    assert_eq!(r.roles.len(), expect.len());
    for (role, (k, signer, writable)) in r.roles.iter().zip(expect.iter()) {
        assert_eq!(role.key, *k);
        assert_eq!(role.is_signer, *signer);
        assert_eq!(role.is_writable, *writable);
    }
}

#[test]
fn take_trade_instruction_follows_the_role_schema() {
    let r = escrow::take_trade_instruction(
        &key(200),
        &key(5),
        &key(6),
        &key(7),
        &key(3),
        &key(1),
        &key(2),
        &key(4),
        &key(201),
        &key(99),
        100,
        500,
    );
    assert_eq!(r.data, Instruction::Take { buy_amount: 100, sell_amount: 500 }.encode());
    assert_eq!(r.roles.len(), 9);
    assert!(r.roles[0].is_signer);
    assert_eq!(r.roles[3].key, key(3));
    assert!(r.roles[6].is_writable);
    assert!(!r.roles[8].is_writable);
}

#[test]
fn cancel_trade_instruction_follows_the_role_schema() {
    let r = escrow::cancel_trade_instruction(
        &key(200),
        &key(1),
        &key(3),
        &key(4),
        &key(8),
        &key(201),
        &key(99),
    );
    assert_eq!(r.data, vec![2u8]);
    assert_eq!(r.roles.len(), 6);
    assert!(r.roles[0].is_signer);
    assert_eq!(r.roles[1].key, key(3));
    assert_eq!(r.roles[3].key, key(8));
}

#[test]
fn custody_authority_is_deterministic() {
    let program = key(42);
    let a = escrow::custody_authority(&program).unwrap();
    let b = escrow::custody_authority(&program).unwrap();
    assert_eq!(a, b);
    let other = escrow::custody_authority(&key(43)).unwrap();
    assert_ne!(a.0, other.0);
}
