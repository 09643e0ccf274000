use crate::error::StoreError;
use crate::host::{rent_sysvar_id, spec_rent_sysvar_id};
use vstd::bytes::{
    lemma_auto_spec_u64_to_from_le_bytes, spec_u64_from_le_bytes, spec_u64_to_le_bytes,
    u64_from_le_bytes, u64_to_le_bytes,
};
use vstd::prelude::*;
use vstd::slice::slice_subrange;

verus! {

/// A request to the store program. Its wire form is a tag byte followed by
/// little-endian `u64` fields.
#[derive(Debug, Clone, Copy, PartialEq, Eq, Structural)]
pub enum StoreInstruction {
    /// Accounts, in order:
    ///   0. `[signer]` the initializer, who becomes the owner of the store record
    ///   1. `[writable]` the store record account
    ///   2. `[writable]` the quote-token account, paid into on buy and out of on sell
    ///   3. `[writable]` the base-token account, paid out of on buy and into on sell
    ///   4. `[]` the token program
    ///   5. `[]` the rent sysvar
    InitializeAccount { price: u64 },
    /// Accounts, in order:
    ///   0. `[signer]` the owner of the store record
    ///   1. `[writable]` the store record account
    UpdatePrice { price: u64 },
    /// Accounts, in order:
    ///   0. `[signer]` the buyer
    ///   1. `[]` the store record account
    ///   2. `[writable]` the store's quote-token account
    ///   3. `[writable]` the store's base-token account
    ///   4. `[writable]` the buyer's quote-token account
    ///   5. `[writable]` the buyer's base-token account
    ///   6. `[]` the program-derived authority
    ///   7. `[]` the token program
    Buy {
        amount: u64,
        /// must equal the stored price
        price: u64,
    },
    /// Accounts, in the same order as for `Buy`, with the seller at position 0.
    Sell {
        amount: u64,
        /// must equal the stored price
        price: u64,
    },
}

/// The little-endian `u64` held in the eight bytes of `s` from `offset` on.
pub open spec fn u64_at(s: Seq<u8>, offset: int) -> u64 {
    spec_u64_from_le_bytes(s.subrange(offset, offset + 8))
}

impl StoreInstruction {
    /// The wire form of an instruction.
    pub open spec fn spec_pack(self) -> Seq<u8> {
        match self {
            StoreInstruction::InitializeAccount { price } => seq![0u8] + spec_u64_to_le_bytes(
                price,
            ),
            StoreInstruction::UpdatePrice { price } => seq![1u8] + spec_u64_to_le_bytes(price),
            StoreInstruction::Buy { amount, price } => seq![2u8] + spec_u64_to_le_bytes(amount)
                + spec_u64_to_le_bytes(price),
            StoreInstruction::Sell { amount, price } => seq![3u8] + spec_u64_to_le_bytes(amount)
                + spec_u64_to_le_bytes(price),
        }
    }

    /// The instruction that a byte string encodes, if any. Bytes past the
    /// fields are ignored.
    pub open spec fn spec_unpack(input: Seq<u8>) -> Option<StoreInstruction> {
        if input.len() == 0 {
            None
        } else {
            let tag = input[0];
            let rest = input.drop_first();
            if (tag == 0 || tag == 1) && rest.len() >= 8 {
                let price = u64_at(rest, 0);
                if tag == 0 {
                    Some(StoreInstruction::InitializeAccount { price })
                } else {
                    Some(StoreInstruction::UpdatePrice { price })
                }
            } else if (tag == 2 || tag == 3) && rest.len() >= 16 {
                let amount = u64_at(rest, 0);
                let price = u64_at(rest, 8);
                if tag == 2 {
                    Some(StoreInstruction::Buy { amount, price })
                } else {
                    Some(StoreInstruction::Sell { amount, price })
                }
            } else {
                None
            }
        }
    }

    /// Decodes an instruction; empty input, an unknown tag or missing field
    /// bytes give `MalformedInstruction`.
    pub fn unpack(input: &[u8]) -> (r: Result<Self, StoreError>)
        ensures
            r == (match Self::spec_unpack(input@) {
                Some(i) => Ok(i),
                None => Err(StoreError::MalformedInstruction),
            }),
    {
        if input.len() == 0 {
            return Err(StoreError::MalformedInstruction);
        }
        let tag = input[0];
        let rest = slice_subrange(input, 1, input.len());
        assert(rest@ == input@.drop_first());
        if tag == 0 {
            let price = Self::unpack_u64(0, rest)?;
            Ok(Self::InitializeAccount { price })
        } else if tag == 1 {
            let price = Self::unpack_u64(0, rest)?;
            Ok(Self::UpdatePrice { price })
        } else if tag == 2 {
            let amount = Self::unpack_u64(0, rest)?;
            let price = Self::unpack_u64(8, rest)?;
            Ok(Self::Buy { amount, price })
        } else if tag == 3 {
            let amount = Self::unpack_u64(0, rest)?;
            let price = Self::unpack_u64(8, rest)?;
            Ok(Self::Sell { amount, price })
        } else {
            Err(StoreError::MalformedInstruction)
        }
    }

    /// Encodes an instruction in its wire form.
    pub fn pack(&self) -> (buf: Vec<u8>)
        ensures
            buf@ == self.spec_pack(),
    {
        let mut buf: Vec<u8> = Vec::with_capacity(17);
        match self {
            Self::InitializeAccount { price } => {
                buf.push(0);
                buf.extend_from_slice(u64_to_le_bytes(*price).as_slice());
            },
            Self::UpdatePrice { price } => {
                buf.push(1);
                buf.extend_from_slice(u64_to_le_bytes(*price).as_slice());
            },
            Self::Buy { amount, price } => {
                buf.push(2);
                buf.extend_from_slice(u64_to_le_bytes(*amount).as_slice());
                buf.extend_from_slice(u64_to_le_bytes(*price).as_slice());
            },
            Self::Sell { amount, price } => {
                buf.push(3);
                buf.extend_from_slice(u64_to_le_bytes(*amount).as_slice());
                buf.extend_from_slice(u64_to_le_bytes(*price).as_slice());
            },
        }
        proof {
            assert(buf@ =~= self.spec_pack());
        }
        buf
    }

    /// Reads the little-endian `u64` at `offset`; too few bytes give
    /// `MalformedInstruction`.
    fn unpack_u64(offset: usize, input: &[u8]) -> (r: Result<u64, StoreError>)
        ensures
            r == (if offset + 8 <= input@.len() {
                Ok(u64_at(input@, offset as int))
            } else {
                Err(StoreError::MalformedInstruction)
            }),
    {
        if offset > input.len() || input.len() - offset < 8 {
            return Err(StoreError::MalformedInstruction);
        }
        let bytes = slice_subrange(input, offset, offset + 8);
        Ok(u64_from_le_bytes(bytes))
    }
}

/// One account that an instruction names, with how it is used.
#[derive(Clone, Copy, Debug, PartialEq, Eq)]
pub struct AccountMeta {
    pub pubkey: [u8; 32],
    pub is_signer: bool,
    pub is_writable: bool,
}

/// An instruction addressed to a program: the accounts it names, in order,
/// and its wire bytes.
#[derive(Clone, Debug)]
pub struct Instruction {
    pub program_id: [u8; 32],
    pub accounts: Vec<AccountMeta>,
    pub data: Vec<u8>,
}

/// A writable account.
pub open spec fn writable(pubkey: [u8; 32], is_signer: bool) -> AccountMeta {
    AccountMeta { pubkey, is_signer, is_writable: true }
}

/// A read-only account that does not sign.
pub open spec fn readonly(pubkey: [u8; 32]) -> AccountMeta {
    AccountMeta { pubkey, is_signer: false, is_writable: false }
}

/// Builds the instruction that initializes a store record at `price`, owned
/// by `owner_pubkey`, over the two given token accounts.
pub fn initialyze_account_instruction(
    price: u64,
    store_program_id: &[u8; 32],
    owner_pubkey: &[u8; 32],
    store_account_pubkey: &[u8; 32],
    account_with_payment_tokens: &[u8; 32],
    account_with_store_tokens: &[u8; 32],
    token_program_id: &[u8; 32],
) -> (r: Result<Instruction, StoreError>)
    ensures
        r is Ok,
        r->Ok_0.program_id == *store_program_id,
        r->Ok_0.data@ == (StoreInstruction::InitializeAccount { price }).spec_pack(),
        r->Ok_0.accounts@.len() == 6,
        r->Ok_0.accounts@.take(5) == seq![
            writable(*owner_pubkey, true),
            writable(*store_account_pubkey, false),
            writable(*account_with_payment_tokens, false),
            writable(*account_with_store_tokens, false),
            readonly(*token_program_id),
        ],
        !r->Ok_0.accounts@[5].is_signer && !r->Ok_0.accounts@[5].is_writable,
        r->Ok_0.accounts@[5].pubkey@ == spec_rent_sysvar_id(),
{
    let data = StoreInstruction::InitializeAccount { price }.pack();
    let accounts = vec![
        AccountMeta { pubkey: *owner_pubkey, is_signer: true, is_writable: true },
        AccountMeta { pubkey: *store_account_pubkey, is_signer: false, is_writable: true },
        AccountMeta { pubkey: *account_with_payment_tokens, is_signer: false, is_writable: true },
        AccountMeta { pubkey: *account_with_store_tokens, is_signer: false, is_writable: true },
        AccountMeta { pubkey: *token_program_id, is_signer: false, is_writable: false },
        AccountMeta { pubkey: rent_sysvar_id(), is_signer: false, is_writable: false },
    ];
    let ix = Instruction { program_id: *store_program_id, accounts, data };
    assert(ix.accounts@.take(5) =~= seq![
        writable(*owner_pubkey, true),
        writable(*store_account_pubkey, false),
        writable(*account_with_payment_tokens, false),
        writable(*account_with_store_tokens, false),
        readonly(*token_program_id),
    ]);
    Ok(ix)
}

/// Builds the instruction by which the owner sets a new price.
pub fn update_price_instruction(
    price: u64,
    store_program_id: &[u8; 32],
    owner_pubkey: &[u8; 32],
    store_account_pubkey: &[u8; 32],
) -> (r: Result<Instruction, StoreError>)
    ensures
        r is Ok,
        r->Ok_0.program_id == *store_program_id,
        r->Ok_0.data@ == (StoreInstruction::UpdatePrice { price }).spec_pack(),
        r->Ok_0.accounts@ == seq![
            writable(*owner_pubkey, true),
            writable(*store_account_pubkey, false),
        ],
{
    let data = StoreInstruction::UpdatePrice { price }.pack();
    let accounts = vec![
        AccountMeta { pubkey: *owner_pubkey, is_signer: true, is_writable: true },
        AccountMeta { pubkey: *store_account_pubkey, is_signer: false, is_writable: true },
    ];
    let ix = Instruction { program_id: *store_program_id, accounts, data };
    assert(ix.accounts@ =~= seq![
        writable(*owner_pubkey, true),
        writable(*store_account_pubkey, false),
    ]);
    Ok(ix)
}

/// The accounts of a buy or a sell, in the order the engine reads them.
pub open spec fn trade_accounts(
    signer: [u8; 32],
    store_account: [u8; 32],
    store_payment: [u8; 32],
    store_tokens: [u8; 32],
    user_payment: [u8; 32],
    user_tokens: [u8; 32],
    pda: [u8; 32],
    token_program: [u8; 32],
) -> Seq<AccountMeta> {
    seq![
        writable(signer, true),
        readonly(store_account),
        writable(store_payment, false),
        writable(store_tokens, false),
        writable(user_payment, false),
        writable(user_tokens, false),
        readonly(pda),
        readonly(token_program),
    ]
}

fn trade_instruction(
    data: Vec<u8>,
    store_program_id: &[u8; 32],
    signer: &[u8; 32],
    store_account: &[u8; 32],
    store_payment: &[u8; 32],
    store_tokens: &[u8; 32],
    user_payment: &[u8; 32],
    user_tokens: &[u8; 32],
    pda: &[u8; 32],
    token_program: &[u8; 32],
) -> (ix: Instruction)
    ensures
        ix.program_id == *store_program_id,
        ix.data == data,
        ix.accounts@ == trade_accounts(
            *signer,
            *store_account,
            *store_payment,
            *store_tokens,
            *user_payment,
            *user_tokens,
            *pda,
            *token_program,
        ),
{
    let accounts = vec![
        AccountMeta { pubkey: *signer, is_signer: true, is_writable: true },
        AccountMeta { pubkey: *store_account, is_signer: false, is_writable: false },
        AccountMeta { pubkey: *store_payment, is_signer: false, is_writable: true },
        AccountMeta { pubkey: *store_tokens, is_signer: false, is_writable: true },
        AccountMeta { pubkey: *user_payment, is_signer: false, is_writable: true },
        AccountMeta { pubkey: *user_tokens, is_signer: false, is_writable: true },
        AccountMeta { pubkey: *pda, is_signer: false, is_writable: false },
        AccountMeta { pubkey: *token_program, is_signer: false, is_writable: false },
    ];
    let ix = Instruction { program_id: *store_program_id, accounts, data };
    assert(ix.accounts@ =~= trade_accounts(
        *signer,
        *store_account,
        *store_payment,
        *store_tokens,
        *user_payment,
        *user_tokens,
        *pda,
        *token_program,
    ));
    ix
}

/// Builds the instruction by which `buyer_pubkey` buys `amount` store
/// tokens at `price`.
pub fn buy_instruction(
    amount: u64,
    price: u64,
    store_program_id: &[u8; 32],
    buyer_pubkey: &[u8; 32],
    store_account_pubkey: &[u8; 32],
    store_account_with_payment_tokens: &[u8; 32],
    store_account_with_store_tokens: &[u8; 32],
    user_account_with_payment_tokens: &[u8; 32],
    user_account_with_store_tokens: &[u8; 32],
    pda: &[u8; 32],
    token_program_id: &[u8; 32],
) -> (r: Result<Instruction, StoreError>)
    ensures
        r is Ok,
        r->Ok_0.program_id == *store_program_id,
        r->Ok_0.data@ == (StoreInstruction::Buy { amount, price }).spec_pack(),
        r->Ok_0.accounts@ == trade_accounts(
            *buyer_pubkey,
            *store_account_pubkey,
            *store_account_with_payment_tokens,
            *store_account_with_store_tokens,
            *user_account_with_payment_tokens,
            *user_account_with_store_tokens,
            *pda,
            *token_program_id,
        ),
{
    let data = StoreInstruction::Buy { amount, price }.pack();
    Ok(
        trade_instruction(
            data,
            store_program_id,
            buyer_pubkey,
            store_account_pubkey,
            store_account_with_payment_tokens,
            store_account_with_store_tokens,
            user_account_with_payment_tokens,
            user_account_with_store_tokens,
            pda,
            token_program_id,
        ),
    )
}

/// Builds the instruction by which `buyer_pubkey` sells `amount` store
/// tokens at `price`.
pub fn sell_instruction(
    amount: u64,
    price: u64,
    store_program_id: &[u8; 32],
    buyer_pubkey: &[u8; 32],
    store_account_pubkey: &[u8; 32],
    store_account_with_payment_tokens: &[u8; 32],
    store_account_with_store_tokens: &[u8; 32],
    user_account_with_payment_tokens: &[u8; 32],
    user_account_with_store_tokens: &[u8; 32],
    pda: &[u8; 32],
    token_program_id: &[u8; 32],
) -> (r: Result<Instruction, StoreError>)
    ensures
        r is Ok,
        r->Ok_0.program_id == *store_program_id,
        r->Ok_0.data@ == (StoreInstruction::Sell { amount, price }).spec_pack(),
        r->Ok_0.accounts@ == trade_accounts(
            *buyer_pubkey,
            *store_account_pubkey,
            *store_account_with_payment_tokens,
            *store_account_with_store_tokens,
            *user_account_with_payment_tokens,
            *user_account_with_store_tokens,
            *pda,
            *token_program_id,
        ),
{
    let data = StoreInstruction::Sell { amount, price }.pack();
    Ok(
        trade_instruction(
            data,
            store_program_id,
            buyer_pubkey,
            store_account_pubkey,
            store_account_with_payment_tokens,
            store_account_with_store_tokens,
            user_account_with_payment_tokens,
            user_account_with_store_tokens,
            pda,
            token_program_id,
        ),
    )
}

/// Decoding what was encoded gives back the same instruction, for every
/// variant and every field value.
pub proof fn lemma_instruction_round_trip(ix: StoreInstruction)
    ensures
        StoreInstruction::spec_unpack(ix.spec_pack()) == Some(ix),
{
    lemma_auto_spec_u64_to_from_le_bytes();
    let s = ix.spec_pack();
    match ix {
        StoreInstruction::InitializeAccount { price } | StoreInstruction::UpdatePrice { price } => {
            assert(s.drop_first().subrange(0, 8) =~= spec_u64_to_le_bytes(price));
        },
        StoreInstruction::Buy { amount, price } | StoreInstruction::Sell { amount, price } => {
            assert(s.drop_first().subrange(0, 8) =~= spec_u64_to_le_bytes(amount));
            assert(s.drop_first().subrange(8, 16) =~= spec_u64_to_le_bytes(price));
        },
    }
}

} // verus!
