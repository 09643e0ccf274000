use crate::error::StoreError;
use crate::host::{
    find_program_address, program_address, rent_sysvar_id, same_address, spec_rent_sysvar_id,
    spec_token_program_id, token_account_authority, token_account_owner, token_program_id,
};
use crate::instruction::StoreInstruction;
use crate::state::{lemma_record_round_trip, record_bytes, Store};
use vstd::prelude::*;

verus! {

/// The seed of the store's program-derived authority, the bytes of "store".
pub open spec fn authority_seed() -> Seq<u8> {
    seq![115u8, 116, 111, 114, 101]
}

/// What the engine reads of one account handed to an instruction.
#[derive(Clone, Debug)]
pub struct AccountInput {
    pub key: [u8; 32],
    /// the program that owns the account
    pub owner: [u8; 32],
    pub is_signer: bool,
    pub data: Vec<u8>,
}

/// A request to the token program that an accepted instruction makes.
#[derive(Clone, Copy, Debug, PartialEq, Eq)]
pub enum TokenAction {
    /// Hand the owner-authority of `account` to `new_authority`, signed by
    /// `current_authority`.
    SetAuthority {
        token_program: [u8; 32],
        account: [u8; 32],
        current_authority: [u8; 32],
        new_authority: [u8; 32],
    },
    /// Move `amount` units from `source` to `destination`, authorized by
    /// `authority`. `authority_bump` is `Some(bump)` where the authority is
    /// the program-derived one, `bump` reproducing its derivation.
    Transfer {
        token_program: [u8; 32],
        source: [u8; 32],
        destination: [u8; 32],
        authority: [u8; 32],
        amount: u64,
        authority_bump: Option<u8>,
    },
}

/// A token request with addresses as byte sequences.
pub enum ActionModel {
    SetAuthority {
        token_program: Seq<u8>,
        account: Seq<u8>,
        current_authority: Seq<u8>,
        new_authority: Seq<u8>,
    },
    Transfer {
        token_program: Seq<u8>,
        source: Seq<u8>,
        destination: Seq<u8>,
        authority: Seq<u8>,
        amount: u64,
        authority_bump: Option<u8>,
    },
}

impl View for TokenAction {
    type V = ActionModel;

    open spec fn view(&self) -> ActionModel {
        match *self {
            TokenAction::SetAuthority {
                token_program,
                account,
                current_authority,
                new_authority,
            } => ActionModel::SetAuthority {
                token_program: token_program@,
                account: account@,
                current_authority: current_authority@,
                new_authority: new_authority@,
            },
            TokenAction::Transfer {
                token_program,
                source,
                destination,
                authority,
                amount,
                authority_bump,
            } => ActionModel::Transfer {
                token_program: token_program@,
                source: source@,
                destination: destination@,
                authority: authority@,
                amount,
                authority_bump,
            },
        }
    }
}

/// What an accepted instruction does: token requests, made in order, then
/// the new contents of the store record account where it changes.
#[derive(Clone, Debug)]
pub struct Outcome {
    pub actions: Vec<TokenAction>,
    pub store_data: Option<Vec<u8>>,
}

pub struct OutcomeModel {
    pub actions: Seq<ActionModel>,
    pub store_data: Option<Seq<u8>>,
}

impl View for Outcome {
    type V = OutcomeModel;

    open spec fn view(&self) -> OutcomeModel {
        OutcomeModel {
            actions: self.actions@.map_values(|a: TokenAction| a@),
            store_data: match self.store_data {
                Some(v) => Some(v@),
                None => None,
            },
        }
    }
}

/// Whether an executable result is the one a model result describes.
pub open spec fn result_is(r: Result<Outcome, StoreError>, m: Result<OutcomeModel, StoreError>) -> bool {
    match r {
        Ok(o) => m == Ok::<OutcomeModel, StoreError>(o@),
        Err(e) => m == Err::<OutcomeModel, StoreError>(e),
    }
}

/// The record held by an account's data, if it holds one.
pub open spec fn record_of(a: AccountInput) -> Option<Store> {
    Store::spec_unpack(a.data@)
}

/// The result of initializing a store: the checks in order, then the
/// authority of both token accounts handed to the program-derived address,
/// then the new record. Every check comes before any token request, so a
/// rejected initialization leaves both token accounts as they were.
pub open spec fn spec_init(
    program_id: Seq<u8>,
    accts: Seq<AccountInput>,
    price: u64,
    store_rent_exempt: bool,
) -> Result<OutcomeModel, StoreError> {
    let derived = program_address(authority_seed(), program_id);
    if accts.len() < 1 {
        Err(StoreError::NotEnoughAccountKeys)
    } else if !accts[0].is_signer {
        Err(StoreError::MissingSignature)
    } else if accts.len() < 5 {
        Err(StoreError::NotEnoughAccountKeys)
    } else if accts[3].owner@ != spec_token_program_id() || accts[2].owner@
        != spec_token_program_id() {
        Err(StoreError::WrongProgramOwnership)
    } else if accts.len() < 6 {
        Err(StoreError::NotEnoughAccountKeys)
    } else if accts[5].key@ != spec_rent_sysvar_id() {
        Err(StoreError::InvalidSysvar)
    } else if !store_rent_exempt {
        Err(StoreError::NotRentExempt)
    } else if accts[1].owner@ != program_id {
        Err(StoreError::WrongProgramOwnership)
    } else if record_of(accts[1]) is None {
        Err(StoreError::LayoutError)
    } else if record_of(accts[1])->Some_0.is_initialized {
        Err(StoreError::AlreadyInitialized)
    } else if derived is None {
        Err(StoreError::NoDerivedAuthority)
    } else {
        let pda = derived->Some_0.0;
        Ok(
            OutcomeModel {
                actions: seq![
                    ActionModel::SetAuthority {
                        token_program: accts[4].key@,
                        account: accts[3].key@,
                        current_authority: accts[0].key@,
                        new_authority: pda,
                    },
                    ActionModel::SetAuthority {
                        token_program: accts[4].key@,
                        account: accts[2].key@,
                        current_authority: accts[0].key@,
                        new_authority: pda,
                    },
                ],
                store_data: Some(
                    record_bytes(true, price, accts[0].key@, accts[2].key@, accts[3].key@),
                ),
            },
        )
    }
}

/// The result of a price update: the checks in order, then the record with
/// only its price replaced.
pub open spec fn spec_update_price(program_id: Seq<u8>, accts: Seq<AccountInput>, price: u64) -> Result<
    OutcomeModel,
    StoreError,
> {
    if accts.len() < 1 {
        Err(StoreError::NotEnoughAccountKeys)
    } else if !accts[0].is_signer {
        Err(StoreError::MissingSignature)
    } else if accts.len() < 2 {
        Err(StoreError::NotEnoughAccountKeys)
    } else if accts[1].owner@ != program_id {
        Err(StoreError::WrongProgramOwnership)
    } else if record_of(accts[1]) is None {
        Err(StoreError::LayoutError)
    } else if !record_of(accts[1])->Some_0.is_initialized {
        Err(StoreError::NotInitialized)
    } else if record_of(accts[1])->Some_0.owner_pubkey@ != accts[0].key@ {
        Err(StoreError::AuthorityMismatch)
    } else {
        let rec = record_of(accts[1])->Some_0;
        Ok(OutcomeModel { actions: seq![], store_data: Some(Store { price, ..rec }.spec_pack()) })
    }
}

/// The first check of a buy (`buy`) or a sell (`!buy`) that fails, up to and
/// including the check of the store-side token account's authority.
pub open spec fn trade_precheck(
    program_id: Seq<u8>,
    accts: Seq<AccountInput>,
    price: u64,
    buy: bool,
) -> Option<StoreError> {
    if accts.len() < 1 {
        Some(StoreError::NotEnoughAccountKeys)
    } else if !accts[0].is_signer {
        Some(StoreError::MissingSignature)
    } else if accts.len() < 2 {
        Some(StoreError::NotEnoughAccountKeys)
    } else if accts[1].owner@ != program_id {
        Some(StoreError::WrongProgramOwnership)
    } else if record_of(accts[1]) is None {
        Some(StoreError::LayoutError)
    } else if !record_of(accts[1])->Some_0.is_initialized {
        Some(StoreError::NotInitialized)
    } else if price != record_of(accts[1])->Some_0.price {
        Some(StoreError::PriceMismatch)
    } else if accts.len() < 4 {
        Some(StoreError::NotEnoughAccountKeys)
    } else {
        let checked = if buy {
            accts[2]
        } else {
            accts[3]
        };
        if checked.owner@ != spec_token_program_id() {
            Some(StoreError::WrongProgramOwnership)
        } else if token_account_owner(checked.data@) is None {
            Some(StoreError::InvalidTokenAccount)
        } else if token_account_owner(checked.data@)->Some_0 != record_of(
            accts[1],
        )->Some_0.owner_pubkey@ {
            Some(StoreError::AuthorityMismatch)
        } else {
            None
        }
    }
}

/// The result of a buy (`buy`) or a sell (`!buy`). The counterparty pays
/// with its own signature; the store pays under the program-derived
/// authority. The quote side moves `amount * price`, the base side `amount`;
/// a product over 64 bits is rejected.
pub open spec fn spec_trade(
    program_id: Seq<u8>,
    accts: Seq<AccountInput>,
    amount: u64,
    price: u64,
    buy: bool,
) -> Result<OutcomeModel, StoreError> {
    let derived = program_address(authority_seed(), program_id);
    if trade_precheck(program_id, accts, price, buy) is Some {
        Err(trade_precheck(program_id, accts, price, buy)->Some_0)
    } else if accts.len() < 8 {
        Err(StoreError::NotEnoughAccountKeys)
    } else if amount * price > u64::MAX {
        Err(StoreError::ArithmeticOverflow)
    } else if derived is None {
        Err(StoreError::NoDerivedAuthority)
    } else {
        let pda = derived->Some_0.0;
        let bump = derived->Some_0.1;
        let total = (amount * price) as u64;
        let token_program = accts[7].key@;
        let signer = accts[0].key@;
        let store_quote = accts[2].key@;
        let store_base = accts[3].key@;
        let user_quote = accts[4].key@;
        let user_base = accts[5].key@;
        let actions = if buy {
            seq![
                ActionModel::Transfer {
                    token_program,
                    source: user_quote,
                    destination: store_quote,
                    authority: signer,
                    amount: total,
                    authority_bump: None,
                },
                ActionModel::Transfer {
                    token_program,
                    source: store_base,
                    destination: user_base,
                    authority: pda,
                    amount,
                    authority_bump: Some(bump),
                },
            ]
        } else {
            seq![
                ActionModel::Transfer {
                    token_program,
                    source: user_base,
                    destination: store_base,
                    authority: signer,
                    amount,
                    authority_bump: None,
                },
                ActionModel::Transfer {
                    token_program,
                    source: store_quote,
                    destination: user_quote,
                    authority: pda,
                    amount: total,
                    authority_bump: Some(bump),
                },
            ]
        };
        Ok(OutcomeModel { actions, store_data: None })
    }
}

/// The result of any instruction, once decoded.
pub open spec fn spec_dispatch(
    program_id: Seq<u8>,
    accts: Seq<AccountInput>,
    ix: StoreInstruction,
    store_rent_exempt: bool,
) -> Result<OutcomeModel, StoreError> {
    match ix {
        StoreInstruction::InitializeAccount { price } => spec_init(
            program_id,
            accts,
            price,
            store_rent_exempt,
        ),
        StoreInstruction::UpdatePrice { price } => spec_update_price(program_id, accts, price),
        StoreInstruction::Buy { amount, price } => spec_trade(program_id, accts, amount, price, true),
        StoreInstruction::Sell { amount, price } => spec_trade(
            program_id,
            accts,
            amount,
            price,
            false,
        ),
    }
}

/// The seed of the program-derived authority, for callers that sign
/// with it.
pub fn authority_seed_bytes() -> (s: [u8; 5])
    ensures
        s@ == authority_seed(),
{
    let s: [u8; 5] = [115, 116, 111, 114, 101];
    proof {
        broadcast use vstd::array::group_array_axioms;

        assert(s@ =~= authority_seed());
    }
    s
}

/// The state-transition engine: decides, from the accounts handed to an
/// instruction, whether it is accepted and what it does.
pub struct Processor;

impl Processor {
    /// Decodes `instruction_data` and runs the matching handler.
    /// `store_rent_exempt` is whether the store account's balance keeps it
    /// alive at its size; only initialization reads it.
    pub fn process(
        program_id: &[u8; 32],
        accounts: &[AccountInput],
        instruction_data: &[u8],
        store_rent_exempt: bool,
    ) -> (r: Result<Outcome, StoreError>)
        ensures
            match StoreInstruction::spec_unpack(instruction_data@) {
                Some(ix) => result_is(r, spec_dispatch(program_id@, accounts@, ix, store_rent_exempt)),
                None => r == Err::<Outcome, StoreError>(StoreError::MalformedInstruction),
            },
    {
        let instruction = match StoreInstruction::unpack(instruction_data) {
            Ok(ix) => ix,
            Err(e) => return Err(e),
        };
        match instruction {
            StoreInstruction::InitializeAccount { price } => {
                Self::process_init_store(accounts, price, program_id, store_rent_exempt)
            },
            StoreInstruction::UpdatePrice { price } => {
                Self::process_update_price(accounts, price, program_id)
            },
            StoreInstruction::Buy { amount, price } => {
                Self::process_buy(accounts, amount, price, program_id)
            },
            StoreInstruction::Sell { amount, price } => {
                Self::process_sell(accounts, amount, price, program_id)
            },
        }
    }

    /// Initializes a store record; see `spec_init`.
    pub fn process_init_store(
        accounts: &[AccountInput],
        price: u64,
        program_id: &[u8; 32],
        store_rent_exempt: bool,
    ) -> (r: Result<Outcome, StoreError>)
        ensures
            result_is(r, spec_init(program_id@, accounts@, price, store_rent_exempt)),
    {
        broadcast use vstd::array::group_array_axioms;

        if accounts.len() < 1 {
            return Err(StoreError::NotEnoughAccountKeys);
        }
        let owner = &accounts[0];
        if !owner.is_signer {
            return Err(StoreError::MissingSignature);
        }
        if accounts.len() < 5 {
            return Err(StoreError::NotEnoughAccountKeys);
        }
        let store_account = &accounts[1];
        let native_tokens_account = &accounts[2];
        let store_tokens_account = &accounts[3];
        let token_program = &accounts[4];
        let token_id = token_program_id();
        if !same_address(&store_tokens_account.owner, &token_id) || !same_address(
            &native_tokens_account.owner,
            &token_id,
        ) {
            return Err(StoreError::WrongProgramOwnership);
        }
        if accounts.len() < 6 {
            return Err(StoreError::NotEnoughAccountKeys);
        }
        let rent_id = rent_sysvar_id();
        if !same_address(&accounts[5].key, &rent_id) {
            return Err(StoreError::InvalidSysvar);
        }
        if !store_rent_exempt {
            return Err(StoreError::NotRentExempt);
        }
        if !same_address(&store_account.owner, program_id) {
            return Err(StoreError::WrongProgramOwnership);
        }
        let mut store_info = match Store::unpack_unchecked(store_account.data.as_slice()) {
            Ok(s) => s,
            Err(e) => return Err(e),
        };
        if store_info.is_initialized() {
            return Err(StoreError::AlreadyInitialized);
        }
        let seed = authority_seed_bytes();
        let pda = match find_program_address(seed.as_slice(), program_id) {
            Some((pda, _bump)) => pda,
            None => return Err(StoreError::NoDerivedAuthority),
        };
        store_info.is_initialized = true;
        store_info.price = price;
        store_info.owner_pubkey = owner.key;
        store_info.native_tokens_to_auto_sell_pubkey = native_tokens_account.key;
        store_info.store_tokens_to_auto_buy_pubkey = store_tokens_account.key;

        let actions = vec![
            TokenAction::SetAuthority {
                token_program: token_program.key,
                account: store_tokens_account.key,
                current_authority: owner.key,
                new_authority: pda,
            },
            TokenAction::SetAuthority {
                token_program: token_program.key,
                account: native_tokens_account.key,
                current_authority: owner.key,
                new_authority: pda,
            },
        ];
        let out = Outcome { actions, store_data: Some(store_info.pack_to_vec()) };
        proof {
            let m = spec_init(program_id@, accounts@, price, store_rent_exempt)->Ok_0;
            assert(out@.actions =~= m.actions);
        }
        Ok(out)
    }

    /// Replaces the price of an initialized record; see `spec_update_price`.
    pub fn process_update_price(accounts: &[AccountInput], price: u64, program_id: &[u8; 32]) -> (r:
        Result<Outcome, StoreError>)
        ensures
            result_is(r, spec_update_price(program_id@, accounts@, price)),
    {
        if accounts.len() < 1 {
            return Err(StoreError::NotEnoughAccountKeys);
        }
        let owner = &accounts[0];
        if !owner.is_signer {
            return Err(StoreError::MissingSignature);
        }
        if accounts.len() < 2 {
            return Err(StoreError::NotEnoughAccountKeys);
        }
        let store_account = &accounts[1];
        if !same_address(&store_account.owner, program_id) {
            return Err(StoreError::WrongProgramOwnership);
        }
        let mut store_info = match Store::unpack_unchecked(store_account.data.as_slice()) {
            Ok(s) => s,
            Err(e) => return Err(e),
        };
        if !store_info.is_initialized() {
            return Err(StoreError::NotInitialized);
        }
        if !same_address(&store_info.owner_pubkey, &owner.key) {
            return Err(StoreError::AuthorityMismatch);
        }
        store_info.price = price;
        let out = Outcome { actions: Vec::new(), store_data: Some(store_info.pack_to_vec()) };
        proof {
            assert(out@.actions =~= seq![]);
        }
        Ok(out)
    }

    /// Sells `amount` base-token units to the signer at `price`; see
    /// `spec_trade` with `buy`.
    pub fn process_buy(accounts: &[AccountInput], amount: u64, price: u64, program_id: &[u8; 32]) -> (r:
        Result<Outcome, StoreError>)
        ensures
            result_is(r, spec_trade(program_id@, accounts@, amount, price, true)),
    {
        Self::process_trade(accounts, amount, price, program_id, true)
    }

    /// Buys `amount` base-token units from the signer at `price`; see
    /// `spec_trade` without `buy`.
    pub fn process_sell(accounts: &[AccountInput], amount: u64, price: u64, program_id: &[u8; 32]) -> (r:
        Result<Outcome, StoreError>)
        ensures
            result_is(r, spec_trade(program_id@, accounts@, amount, price, false)),
    {
        Self::process_trade(accounts, amount, price, program_id, false)
    }

    fn process_trade(
        accounts: &[AccountInput],
        amount: u64,
        price: u64,
        program_id: &[u8; 32],
        buy: bool,
    ) -> (r: Result<Outcome, StoreError>)
        ensures
            result_is(r, spec_trade(program_id@, accounts@, amount, price, buy)),
    {
        broadcast use vstd::array::group_array_axioms;

        if accounts.len() < 1 {
            return Err(StoreError::NotEnoughAccountKeys);
        }
        let signer = &accounts[0];
        if !signer.is_signer {
            return Err(StoreError::MissingSignature);
        }
        if accounts.len() < 2 {
            return Err(StoreError::NotEnoughAccountKeys);
        }
        let store_account = &accounts[1];
        if !same_address(&store_account.owner, program_id) {
            return Err(StoreError::WrongProgramOwnership);
        }
        let store_info = match Store::unpack_unchecked(store_account.data.as_slice()) {
            Ok(s) => s,
            Err(e) => return Err(e),
        };
        if !store_info.is_initialized() {
            return Err(StoreError::NotInitialized);
        }
        if price != store_info.price {
            return Err(StoreError::PriceMismatch);
        }
        if accounts.len() < 4 {
            return Err(StoreError::NotEnoughAccountKeys);
        }
        let store_quote = &accounts[2];
        let store_base = &accounts[3];
        let checked = if buy {
            store_quote
        } else {
            store_base
        };
        let token_id = token_program_id();
        if !same_address(&checked.owner, &token_id) {
            return Err(StoreError::WrongProgramOwnership);
        }
        let authority = match token_account_authority(checked.data.as_slice()) {
            Ok(a) => a,
            Err(_) => return Err(StoreError::InvalidTokenAccount),
        };
        if !same_address(&authority, &store_info.owner_pubkey) {
            return Err(StoreError::AuthorityMismatch);
        }
        if accounts.len() < 8 {
            return Err(StoreError::NotEnoughAccountKeys);
        }
        let user_quote = &accounts[4];
        let user_base = &accounts[5];
        let token_program = &accounts[7];
        let total = match amount.checked_mul(price) {
            Some(t) => t,
            None => return Err(StoreError::ArithmeticOverflow),
        };
        let seed = authority_seed_bytes();
        let (pda, bump) = match find_program_address(seed.as_slice(), program_id) {
            Some(found) => found,
            None => return Err(StoreError::NoDerivedAuthority),
        };
        let actions = if buy {
            vec![
                TokenAction::Transfer {
                    token_program: token_program.key,
                    source: user_quote.key,
                    destination: store_quote.key,
                    authority: signer.key,
                    amount: total,
                    authority_bump: None,
                },
                TokenAction::Transfer {
                    token_program: token_program.key,
                    source: store_base.key,
                    destination: user_base.key,
                    authority: pda,
                    amount,
                    authority_bump: Some(bump),
                },
            ]
        } else {
            vec![
                TokenAction::Transfer {
                    token_program: token_program.key,
                    source: user_base.key,
                    destination: store_base.key,
                    authority: signer.key,
                    amount,
                    authority_bump: None,
                },
                TokenAction::Transfer {
                    token_program: token_program.key,
                    source: store_quote.key,
                    destination: user_quote.key,
                    authority: pda,
                    amount: total,
                    authority_bump: Some(bump),
                },
            ]
        };
        let out = Outcome { actions, store_data: None };
        proof {
            let m = spec_trade(program_id@, accounts@, amount, price, buy)->Ok_0;
            assert(out@.actions =~= m.actions);
        }
        Ok(out)
    }
}

/// Initialization happens at most once: once an initialization of a store
/// account has been accepted, initializing it again, with the record it
/// wrote and the same accounts otherwise, is rejected with
/// `AlreadyInitialized`, and so leaves the record as it is.
pub proof fn lemma_initialize_once(
    program_id: Seq<u8>,
    accts: Seq<AccountInput>,
    price: u64,
    store_rent_exempt: bool,
    again: Seq<AccountInput>,
    second_price: u64,
)
    requires
        spec_init(program_id, accts, price, store_rent_exempt) is Ok,
        again.len() == accts.len(),
        forall|i: int| 0 <= i < accts.len() && i != 1 ==> again[i] == accts[i],
        again[1].key == accts[1].key,
        again[1].owner == accts[1].owner,
        again[1].is_signer == accts[1].is_signer,
        Some(again[1].data@) == spec_init(program_id, accts, price, store_rent_exempt)->Ok_0.store_data,
    ensures
        spec_init(program_id, again, second_price, store_rent_exempt) == Err::<
            OutcomeModel,
            StoreError,
        >(StoreError::AlreadyInitialized),
{
    let rec = Store {
        is_initialized: true,
        price,
        owner_pubkey: accts[0].key,
        native_tokens_to_auto_sell_pubkey: accts[2].key,
        store_tokens_to_auto_buy_pubkey: accts[3].key,
    };
    assert(rec.spec_pack() == again[1].data@);
    lemma_record_round_trip(rec);
}

/// An initialization whose store record is already initialized is rejected
/// with `AlreadyInitialized` once the signer, the token accounts, the rent
/// sysvar, the rent exemption and the store's owner have been accepted,
/// whether or not a derived authority exists.
pub proof fn lemma_initialize_rejects_initialized_record(
    program_id: Seq<u8>,
    accts: Seq<AccountInput>,
    price: u64,
)
    requires
        accts.len() >= 6,
        accts[0].is_signer,
        accts[2].owner@ == spec_token_program_id(),
        accts[3].owner@ == spec_token_program_id(),
        accts[5].key@ == spec_rent_sysvar_id(),
        accts[1].owner@ == program_id,
        record_of(accts[1]) is Some,
        record_of(accts[1])->Some_0.is_initialized,
    ensures
        spec_init(program_id, accts, price, true) == Err::<OutcomeModel, StoreError>(
            StoreError::AlreadyInitialized,
        ),
{
}

/// A price update by a signer that is not the record's owner is rejected
/// with `AuthorityMismatch`; by the owner it is accepted, moves no tokens,
/// and the new record differs from the old one in its price alone.
pub proof fn lemma_update_price_owner_only(
    program_id: Seq<u8>,
    accts: Seq<AccountInput>,
    price: u64,
)
    requires
        accts.len() >= 2,
        accts[0].is_signer,
        accts[1].owner@ == program_id,
        record_of(accts[1]) is Some,
        record_of(accts[1])->Some_0.is_initialized,
    ensures
        accts[0].key@ != record_of(accts[1])->Some_0.owner_pubkey@ ==> spec_update_price(
            program_id,
            accts,
            price,
        ) == Err::<OutcomeModel, StoreError>(StoreError::AuthorityMismatch),
        accts[0].key@ == record_of(accts[1])->Some_0.owner_pubkey@ ==> {
            let out = spec_update_price(program_id, accts, price)->Ok_0;
            &&& spec_update_price(program_id, accts, price) is Ok
            &&& out.actions.len() == 0
            &&& Store::spec_unpack(out.store_data->Some_0) == Some(
                Store { price, ..record_of(accts[1])->Some_0 },
            )
        },
{
    lemma_record_round_trip(Store { price, ..record_of(accts[1])->Some_0 });
}

/// A buy or a sell whose price differs from the stored price is rejected
/// with `PriceMismatch` once the signer and the record have been accepted,
/// and then makes no token request at all.
pub proof fn lemma_price_mismatch(
    program_id: Seq<u8>,
    accts: Seq<AccountInput>,
    amount: u64,
    price: u64,
    buy: bool,
)
    requires
        accts.len() >= 2,
        accts[0].is_signer,
        accts[1].owner@ == program_id,
        record_of(accts[1]) is Some,
        record_of(accts[1])->Some_0.is_initialized,
        price != record_of(accts[1])->Some_0.price,
    ensures
        spec_trade(program_id, accts, amount, price, buy) == Err::<OutcomeModel, StoreError>(
            StoreError::PriceMismatch,
        ),
{
}

/// The product `amount * price` is never wrapped: where it does not fit in
/// 64 bits, a buy and a sell that pass every earlier check are both rejected
/// with `ArithmeticOverflow`; where either is accepted, its quote-side
/// transfer moves exactly `amount * price` and its base-side one `amount`.
pub proof fn lemma_trade_overflow(
    program_id: Seq<u8>,
    accts: Seq<AccountInput>,
    amount: u64,
    price: u64,
)
    ensures
        accts.len() >= 8 && amount * price > u64::MAX ==> {
            &&& trade_precheck(program_id, accts, price, true) is None ==> spec_trade(
                program_id,
                accts,
                amount,
                price,
                true,
            ) == Err::<OutcomeModel, StoreError>(StoreError::ArithmeticOverflow)
            &&& trade_precheck(program_id, accts, price, false) is None ==> spec_trade(
                program_id,
                accts,
                amount,
                price,
                false,
            ) == Err::<OutcomeModel, StoreError>(StoreError::ArithmeticOverflow)
        },
        spec_trade(program_id, accts, amount, price, true) is Ok ==> {
            let acts = spec_trade(program_id, accts, amount, price, true)->Ok_0.actions;
            &&& amount * price <= u64::MAX
            &&& acts[0]->Transfer_amount == amount * price
            &&& acts[1]->Transfer_amount == amount
        },
        spec_trade(program_id, accts, amount, price, false) is Ok ==> {
            let acts = spec_trade(program_id, accts, amount, price, false)->Ok_0.actions;
            &&& amount * price <= u64::MAX
            &&& acts[0]->Transfer_amount == amount
            &&& acts[1]->Transfer_amount == amount * price
        },
{
}

} // verus!
