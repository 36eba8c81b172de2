//! Reading balances out of packed spl-token records.
use solana_program::program_error::ProgramError;
use solana_program::program_pack::Pack;
use spl_token::state::{Account, Mint};
use vstd::prelude::*;

verus! {

#[verifier::external_type_specification]
#[verifier::external_body]
pub struct ExProgramError(ProgramError);

/// Length of a packed token account.
pub const TOKEN_ACCOUNT_LEN: usize = 165;

/// Length of a packed mint.
pub const MINT_LEN: usize = 82;

/// The unsigned number that a byte sequence encodes, least significant byte first.
pub open spec fn le_value(s: Seq<u8>) -> nat
    decreases s.len(),
{
    if s.len() == 0 {
        0
    } else {
        s[0] as nat + 256 * le_value(s.drop_first())
    }
}

/// Whether the four bytes at `at` tag an absent (0) or present (1) optional field.
pub open spec fn option_tag_ok(s: Seq<u8>, at: int) -> bool {
    (s[at] == 0 || s[at] == 1) && s[at + 1] == 0 && s[at + 2] == 0 && s[at + 3] == 0
}

/// Whether `s` is a packed token account that is initialised or frozen, with
/// well-formed delegate, native-amount and close-authority fields.
pub open spec fn token_account_readable(s: Seq<u8>) -> bool {
    &&& s.len() == 165
    &&& (s[108] == 1 || s[108] == 2)
    &&& option_tag_ok(s, 72)
    &&& option_tag_ok(s, 109)
    &&& option_tag_ok(s, 129)
}

/// Whether `s` is a packed, initialised mint with well-formed mint and freeze
/// authority fields.
pub open spec fn mint_readable(s: Seq<u8>) -> bool {
    &&& s.len() == 82
    &&& s[45] == 1
    &&& option_tag_ok(s, 0)
    &&& option_tag_ok(s, 46)
}

/// Relies on spl_token's `Account::unpack`: it accepts exactly the data of
/// `token_account_readable` (length 165, state byte at 108 initialised or
/// frozen, option tags at 72, 109 and 129 each 0 or 1), and reads the balance
/// as the little-endian u64 at bytes 64..72.
#[verifier::external_body]
pub(crate) fn unpack_token_account_amount(data: &[u8]) -> (r: Result<u64, ProgramError>)
    ensures
        r is Ok <==> token_account_readable(data@),
        r matches Ok(a) ==> a as nat == le_value(data@.subrange(64, 72)),
{
    Account::unpack(data).map(|a| a.amount)
}

/// Relies on spl_token's `Mint::unpack`: it accepts exactly the data of
/// `mint_readable` (length 82, initialised flag at 45 equal to 1, option tags
/// at 0 and 46 each 0 or 1), and reads the supply as the little-endian u64 at
/// bytes 36..44.
#[verifier::external_body]
pub(crate) fn unpack_mint_supply(data: &[u8]) -> (r: Result<u64, ProgramError>)
    ensures
        r is Ok <==> mint_readable(data@),
        r matches Ok(s) ==> s as nat == le_value(data@.subrange(36, 44)),
{
    Mint::unpack(data).map(|m| m.supply)
}

} // verus!
