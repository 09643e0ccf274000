use solana_program::program_error::ProgramError;
use solana_program::program_pack::Pack;
use solana_program::pubkey::Pubkey;
use vstd::prelude::*;

verus! {

#[verifier::external_type_specification]
#[verifier::external_body]
pub struct ExProgramError(ProgramError);

/// The address and bump that the runtime derives for a program from one seed,
/// or `None` where no bump gives an address off the curve.
pub uninterp spec fn program_address(seed: Seq<u8>, program_id: Seq<u8>) -> Option<(Seq<u8>, u8)>;

/// The address of the token program.
pub open spec fn spec_token_program_id() -> Seq<u8> {
    seq![
        6u8, 221, 246, 225, 215, 101, 161, 147, 217, 203, 225, 70, 206, 235, 121, 172, 28, 180,
        133, 237, 95, 91, 55, 145, 58, 140, 245, 133, 126, 255, 0, 169,
    ]
}

/// The address of the rent sysvar.
pub open spec fn spec_rent_sysvar_id() -> Seq<u8> {
    seq![
        6u8, 167, 213, 23, 25, 44, 92, 81, 33, 140, 201, 76, 61, 74, 241, 127, 88, 218, 238, 8,
        155, 161, 253, 68, 227, 219, 217, 138, 0, 0, 0, 0,
    ]
}

/// Whether the four bytes at `offset` are an option tag (0 or 1, little-endian).
pub open spec fn option_tag_ok(data: Seq<u8>, offset: int) -> bool {
    (data[offset] == 0 || data[offset] == 1) && data[offset + 1] == 0 && data[offset + 2] == 0
        && data[offset + 3] == 0
}

/// The owner-authority of a token account, read from its 165 data bytes:
/// mint (0..32), owner (32..64), amount, delegate option (tag at 72),
/// state (108: 0, 1 or 2), native option (tag at 109), delegated amount,
/// close-authority option (tag at 129). `None` where the bytes are not
/// a token account.
pub open spec fn token_account_owner(data: Seq<u8>) -> Option<Seq<u8>> {
    if data.len() == 165 && option_tag_ok(data, 72) && data[108] <= 2 && option_tag_ok(data, 109)
        && option_tag_ok(data, 129) {
        Some(data.subrange(32, 64))
    } else {
        None
    }
}

/// Whether two addresses are the same.
pub fn same_address(a: &[u8; 32], b: &[u8; 32]) -> (r: bool)
    ensures
        r == (a@ == b@),
{
    let mut i: usize = 0;
    while i < 32
        invariant
            0 <= i <= 32,
            a@.len() == 32,
            b@.len() == 32,
            forall|j: int| 0 <= j < i ==> a@[j] == b@[j],
        decreases 32 - i,
    {
        if a[i] != b[i] {
            return false;
        }
        i += 1;
    }
    assert(a@ =~= b@);
    true
}

/// Relies on `Pubkey::try_find_program_address` of solana-program: a
/// deterministic search over bumps from 255 down for a derived address
/// off the ed25519 curve; the result depends on the seed and the program
/// id alone.
#[verifier::external_body]
pub(crate) fn find_program_address(seed: &[u8], program_id: &[u8; 32]) -> (r: Option<([u8; 32], u8)>)
    ensures
        match r {
            Some((a, bump)) => program_address(seed@, program_id@) == Some((a@, bump)),
            None => program_address(seed@, program_id@) is None,
        },
{
    Pubkey::try_find_program_address(&[seed], &Pubkey::new_from_array(*program_id)).map(
        |(a, bump)| (a.to_bytes(), bump),
    )
}

/// Relies on `spl_token::id()`: the token program's address, declared in
/// spl-token as `TokenkegQfeZyiNwAJbNbGKPFXCWuBvf9Ss623VQ5DA`.
#[verifier::external_body]
pub(crate) fn token_program_id() -> (r: [u8; 32])
    ensures
        r@ == spec_token_program_id(),
{
    spl_token::id().to_bytes()
}

/// Relies on `solana_program::sysvar::rent::id()`: the rent sysvar's address,
/// declared as `SysvarRent111111111111111111111111111111111`.
#[verifier::external_body]
pub(crate) fn rent_sysvar_id() -> (r: [u8; 32])
    ensures
        r@ == spec_rent_sysvar_id(),
{
    solana_program::sysvar::rent::id().to_bytes()
}

/// Relies on `Pack::unpack_unchecked` of spl-token's `Account`: it accepts a
/// buffer of exactly 165 bytes whose option tags and state byte are valid,
/// and its `owner` field is bytes 32..64.
#[verifier::external_body]
pub(crate) fn token_account_authority(data: &[u8]) -> (r: Result<[u8; 32], ProgramError>)
    ensures
        match r {
            Ok(a) => token_account_owner(data@) == Some(a@),
            Err(_) => token_account_owner(data@) is None,
        },
{
    spl_token::state::Account::unpack_unchecked(data).map(|a| a.owner.to_bytes())
}

} // verus!
