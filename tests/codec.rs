use fixed_price_store::error::StoreError;
use fixed_price_store::instruction::{
    buy_instruction, initialyze_account_instruction, sell_instruction, update_price_instruction,
    AccountMeta, StoreInstruction,
};
use fixed_price_store::state::{Store, STORE_LEN};

fn all_variants(a: u64, p: u64) -> Vec<StoreInstruction> {
    vec![
        StoreInstruction::InitializeAccount { price: p },
        StoreInstruction::UpdatePrice { price: p },
        StoreInstruction::Buy { amount: a, price: p },
        StoreInstruction::Sell { amount: a, price: p },
    ]
}

#[test]
fn instruction_round_trip() {
    for (a, p) in [(0u64, 0u64), (3, 321), (u64::MAX, 1), (1, u64::MAX), (u64::MAX, u64::MAX)] {
        for ix in all_variants(a, p) {
            assert_eq!(StoreInstruction::unpack(&ix.pack()), Ok(ix));
        }
    }
}

#[test]
fn instruction_wire_bytes() {
    assert_eq!(
        StoreInstruction::InitializeAccount { price: 123 }.pack(),
        vec![0, 123, 0, 0, 0, 0, 0, 0, 0]
    );
    assert_eq!(
        StoreInstruction::UpdatePrice { price: 0x0102 }.pack(),
        vec![1, 2, 1, 0, 0, 0, 0, 0, 0]
    );
    assert_eq!(
        StoreInstruction::Buy { amount: 3, price: 321 }.pack(),
        vec![2, 3, 0, 0, 0, 0, 0, 0, 0, 65, 1, 0, 0, 0, 0, 0, 0]
    );
    assert_eq!(
        StoreInstruction::Sell { amount: u64::MAX, price: 6 }.pack(),
        vec![3, 255, 255, 255, 255, 255, 255, 255, 255, 6, 0, 0, 0, 0, 0, 0, 0]
    );
}

#[test]
fn instruction_unpack_ignores_trailing_bytes() {
    let mut bytes = StoreInstruction::UpdatePrice { price: 9 }.pack();
    bytes.extend_from_slice(&[7, 7, 7]);
    assert_eq!(StoreInstruction::unpack(&bytes), Ok(StoreInstruction::UpdatePrice { price: 9 }));
}

#[test]
fn instruction_unpack_malformed() {
    let bad: Vec<Vec<u8>> = vec![
        vec![],
        vec![4, 0, 0, 0, 0, 0, 0, 0, 0],
        vec![255],
        vec![0, 1, 2, 3, 4, 5, 6, 7],
        vec![1],
        vec![2, 1, 0, 0, 0, 0, 0, 0, 0, 1, 0, 0, 0, 0, 0, 0],
        vec![3, 1, 0, 0, 0, 0, 0, 0, 0],
    ];
    for b in bad {
        assert_eq!(StoreInstruction::unpack(&b), Err(StoreError::MalformedInstruction));
    }
}

fn sample_store() -> Store {
    Store {
        is_initialized: true,
        price: 0x0102030405060708,
        owner_pubkey: [1u8; 32],
        native_tokens_to_auto_sell_pubkey: [2u8; 32],
        store_tokens_to_auto_buy_pubkey: [3u8; 32],
    }
}

#[test]
fn record_round_trip() {
    let zero = Store {
        is_initialized: false,
        price: 0,
        owner_pubkey: [0u8; 32],
        native_tokens_to_auto_sell_pubkey: [0u8; 32],
        store_tokens_to_auto_buy_pubkey: [0u8; 32],
    };
    for r in [zero, sample_store()] {
        let bytes = r.pack_to_vec();
        assert_eq!(bytes.len(), STORE_LEN);
        assert_eq!(Store::unpack_unchecked(&bytes), Ok(r));
    }
    assert_eq!(Store::unpack_unchecked(&[0u8; 105]), Ok(zero));
}

#[test]
fn record_layout() {
    let bytes = sample_store().pack_to_vec();
    assert_eq!(bytes[0], 1);
    assert_eq!(&bytes[1..9], &[8, 7, 6, 5, 4, 3, 2, 1]);
    assert!(bytes[9..41].iter().all(|b| *b == 1));
    assert!(bytes[41..73].iter().all(|b| *b == 2));
    assert!(bytes[73..105].iter().all(|b| *b == 3));
}

#[test]
fn record_unpack_rejects_bad_flag_and_length() {
    let mut bytes = sample_store().pack_to_vec();
    bytes[0] = 2;
    assert_eq!(Store::unpack_unchecked(&bytes), Err(StoreError::LayoutError));
    let short = vec![0u8; 104];
    assert_eq!(Store::unpack_unchecked(&short), Err(StoreError::LayoutError));
    let long = vec![0u8; 106];
    assert_eq!(Store::unpack_unchecked(&long), Err(StoreError::LayoutError));
    let mut long = sample_store().pack_to_vec();
    long.push(9);
    assert_eq!(Store::unpack_from_slice(&long), Ok(sample_store()));
}

#[test]
fn record_pack_into_buffers() {
    let r = sample_store();
    let mut exact = vec![0xaau8; STORE_LEN];
    assert_eq!(Store::pack(r, &mut exact), Ok(()));
    assert_eq!(exact, r.pack_to_vec());
    let mut wrong = vec![0xaau8; STORE_LEN + 1];
    assert_eq!(Store::pack(r, &mut wrong), Err(StoreError::LayoutError));
    assert!(wrong.iter().all(|b| *b == 0xaa));
    r.pack_into_slice(&mut wrong);
    assert_eq!(&wrong[..STORE_LEN], &r.pack_to_vec()[..]);
    assert_eq!(wrong[STORE_LEN], 0xaa);
    assert!(r.is_initialized());
}

#[test]
fn error_codes_are_distinct() {
    let all = [
        StoreError::MalformedInstruction,
        StoreError::NotEnoughAccountKeys,
        StoreError::MissingSignature,
        StoreError::WrongProgramOwnership,
        StoreError::AlreadyInitialized,
        StoreError::NotInitialized,
        StoreError::AuthorityMismatch,
        StoreError::PriceMismatch,
        StoreError::NotRentExempt,
        StoreError::LayoutError,
        StoreError::InvalidTokenAccount,
        StoreError::ArithmeticOverflow,
        StoreError::NoDerivedAuthority,
        StoreError::InvalidSysvar,
    ];
    for (i, a) in all.iter().enumerate() {
        for b in all[i + 1..].iter() {
            assert_ne!(a.code(), b.code());
        }
    }
    assert_eq!(StoreError::PriceMismatch.code(), 0);
}

#[test]
fn builders_lay_out_accounts() {
    let k = |n: u8| [n; 32];
    let ix = initialyze_account_instruction(5, &k(1), &k(2), &k(3), &k(4), &k(5), &k(6)).unwrap();
    assert_eq!(ix.program_id, k(1));
    assert_eq!(ix.data, StoreInstruction::InitializeAccount { price: 5 }.pack());
    assert_eq!(ix.accounts.len(), 6);
    assert_eq!(ix.accounts[0], AccountMeta { pubkey: k(2), is_signer: true, is_writable: true });
    assert_eq!(ix.accounts[4], AccountMeta { pubkey: k(6), is_signer: false, is_writable: false });
    assert_eq!(ix.accounts[5].pubkey, solana_program::sysvar::rent::id().to_bytes());

    let ix = update_price_instruction(8, &k(1), &k(2), &k(3)).unwrap();
    assert_eq!(ix.data, vec![1, 8, 0, 0, 0, 0, 0, 0, 0]);
    assert_eq!(ix.accounts[1], AccountMeta { pubkey: k(3), is_signer: false, is_writable: true });

    let ix =
        buy_instruction(1, 2, &k(1), &k(2), &k(3), &k(4), &k(5), &k(6), &k(7), &k(8), &k(9))
            .unwrap();
    assert_eq!(ix.data, StoreInstruction::Buy { amount: 1, price: 2 }.pack());
    assert_eq!(ix.accounts.len(), 8);
    assert_eq!(ix.accounts[6], AccountMeta { pubkey: k(8), is_signer: false, is_writable: false });
    assert_eq!(ix.accounts[0], AccountMeta { pubkey: k(2), is_signer: true, is_writable: true });
    assert_eq!(ix.accounts[1], AccountMeta { pubkey: k(3), is_signer: false, is_writable: false });
    assert_eq!(ix.accounts[5], AccountMeta { pubkey: k(7), is_signer: false, is_writable: true });
    let ix =
        sell_instruction(1, 2, &k(1), &k(2), &k(3), &k(4), &k(5), &k(6), &k(7), &k(8), &k(9))
            .unwrap();
    assert_eq!(ix.data, StoreInstruction::Sell { amount: 1, price: 2 }.pack());
    assert_eq!(ix.accounts[7], AccountMeta { pubkey: k(9), is_signer: false, is_writable: false });
    assert_eq!(ix.accounts[1], AccountMeta { pubkey: k(3), is_signer: false, is_writable: false });
}
