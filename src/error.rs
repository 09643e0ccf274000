use vstd::prelude::*;

verus! {

/// Every way an instruction can be rejected. Each kind has its own stable code.
#[derive(Debug, Clone, Copy, PartialEq, Eq, Structural)]
pub enum StoreError {
    /// The instruction bytes are empty, carry an unknown tag, or are too short.
    MalformedInstruction,
    /// Fewer accounts were passed than the instruction needs.
    NotEnoughAccountKeys,
    /// The account that must authorize the instruction did not sign it.
    MissingSignature,
    /// An account is not owned by the program it has to be owned by.
    WrongProgramOwnership,
    /// The store record is already initialized.
    AlreadyInitialized,
    /// The store record has not been initialized yet.
    NotInitialized,
    /// The signer, or the authority of a store-side token account, is not the record's owner.
    AuthorityMismatch,
    /// The price given with a buy or sell differs from the stored price.
    PriceMismatch,
    /// The store account's balance is below what keeps it alive.
    NotRentExempt,
    /// The stored record's bytes are not a valid record.
    LayoutError,
    /// A store-side token account's data is not a valid token account.
    InvalidTokenAccount,
    /// `amount * price` does not fit in 64 bits.
    ArithmeticOverflow,
    /// No program-derived authority could be found for this program.
    NoDerivedAuthority,
    /// The account passed as the rent sysvar is not the rent sysvar.
    InvalidSysvar,
}

impl StoreError {
    pub open spec fn spec_code(self) -> u32 {
        match self {
            StoreError::PriceMismatch => 0,
            StoreError::MalformedInstruction => 1,
            StoreError::NotEnoughAccountKeys => 2,
            StoreError::MissingSignature => 3,
            StoreError::WrongProgramOwnership => 4,
            StoreError::AlreadyInitialized => 5,
            StoreError::NotInitialized => 6,
            StoreError::AuthorityMismatch => 7,
            StoreError::NotRentExempt => 8,
            StoreError::LayoutError => 9,
            StoreError::InvalidTokenAccount => 10,
            StoreError::ArithmeticOverflow => 11,
            StoreError::NoDerivedAuthority => 12,
            StoreError::InvalidSysvar => 13,
        }
    }

    /// The stable numeric code of this rejection.
    pub fn code(&self) -> (r: u32)
        ensures
            r == self.spec_code(),
    {
        match self {
            StoreError::PriceMismatch => 0,
            StoreError::MalformedInstruction => 1,
            StoreError::NotEnoughAccountKeys => 2,
            StoreError::MissingSignature => 3,
            StoreError::WrongProgramOwnership => 4,
            StoreError::AlreadyInitialized => 5,
            StoreError::NotInitialized => 6,
            StoreError::AuthorityMismatch => 7,
            StoreError::NotRentExempt => 8,
            StoreError::LayoutError => 9,
            StoreError::InvalidTokenAccount => 10,
            StoreError::ArithmeticOverflow => 11,
            StoreError::NoDerivedAuthority => 12,
            StoreError::InvalidSysvar => 13,
        }
    }

    /// Distinct rejections have distinct codes.
    pub proof fn lemma_codes_distinct(a: StoreError, b: StoreError)
        ensures
            a.spec_code() == b.spec_code() ==> a == b,
    {
    }
}

} // verus!
