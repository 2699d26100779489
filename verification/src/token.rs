//! The token program's instructions, as far as replay reads them.

use spl_token::instruction::AuthorityType as SplAuthority;
use spl_token::instruction::TokenInstruction as SplInstruction;
use vstd::prelude::*;

verus! {

/// Which authority a `SetAuthority` instruction changes.
#[derive(Debug, Clone, Copy, PartialEq, Eq, Structural)]
pub enum AuthorityType {
    MintTokens,
    FreezeAccount,
    AccountOwner,
    CloseAccount,
}

/// A decoded instruction of the token program.
#[derive(Debug, Clone, Copy, PartialEq, Eq, Structural)]
pub enum TokenInstruction {
    InitializeMint { decimals: u8 },
    InitializeAccount,
    InitializeMultisig,
    Transfer { amount: u64 },
    Approve { amount: u64 },
    Revoke,
    SetAuthority { authority_type: AuthorityType },
    MintTo { amount: u64 },
    Burn { amount: u64 },
    CloseAccount,
    FreezeAccount,
    ThawAccount,
    TransferChecked { amount: u64, decimals: u8 },
    ApproveChecked { amount: u64, decimals: u8 },
    MintToChecked { amount: u64, decimals: u8 },
    BurnChecked { amount: u64, decimals: u8 },
    InitializeAccount2,
    SyncNative,
}

impl TokenInstruction {
    /// The instructions that name an amount of tokens.
    pub open spec fn names_amount(self) -> bool {
        self is Transfer || self is Approve || self is MintTo || self is Burn
            || self is TransferChecked || self is ApproveChecked || self is MintToChecked
            || self is BurnChecked
    }
}

/// What the token program's own decoder makes of an instruction's data: the
/// instruction, where the data decode to one of those listed in
/// `TokenInstruction`, and `None` for all other data.
pub uninterp spec fn token_unpacked(data: Seq<u8>) -> Option<TokenInstruction>;

/// A decoded instruction where `keep` holds of it, and `None` otherwise.
pub open spec fn only_if(
    decoded: Option<TokenInstruction>,
    keep: spec_fn(TokenInstruction) -> bool,
) -> Option<TokenInstruction> {
    match decoded {
        Some(instruction) => if keep(instruction) {
            Some(instruction)
        } else {
            None
        },
        None => None,
    }
}

/// Calls `spl_token::instruction::TokenInstruction::unpack` and hands on what
/// it decoded where that is one of the eight instructions that name an
/// amount, with the amount and the decimals as decoded.
#[verifier::external_body]
fn unpack_amount_instruction(data: &[u8]) -> (r: Option<TokenInstruction>)
    ensures
        r == only_if(token_unpacked(data@), |i: TokenInstruction| i.names_amount()),
{
    match SplInstruction::unpack(data).ok()? {
        SplInstruction::Transfer { amount } => Some(TokenInstruction::Transfer { amount }),
        SplInstruction::Approve { amount } => Some(TokenInstruction::Approve { amount }),
        SplInstruction::MintTo { amount } => Some(TokenInstruction::MintTo { amount }),
        SplInstruction::Burn { amount } => Some(TokenInstruction::Burn { amount }),
        SplInstruction::TransferChecked { amount, decimals } =>
            Some(TokenInstruction::TransferChecked { amount, decimals }),
        SplInstruction::ApproveChecked { amount, decimals } =>
            Some(TokenInstruction::ApproveChecked { amount, decimals }),
        SplInstruction::MintToChecked { amount, decimals } =>
            Some(TokenInstruction::MintToChecked { amount, decimals }),
        SplInstruction::BurnChecked { amount, decimals } =>
            Some(TokenInstruction::BurnChecked { amount, decimals }),
        _ => None,
    }
}

/// Calls `spl_token::instruction::TokenInstruction::unpack` and hands on what
/// it decoded where that is `SetAuthority`, with the authority type as
/// decoded.
#[verifier::external_body]
fn unpack_authority_instruction(data: &[u8]) -> (r: Option<TokenInstruction>)
    ensures
        r == only_if(token_unpacked(data@), |i: TokenInstruction| i is SetAuthority),
{
    let authority_type = match SplInstruction::unpack(data).ok()? {
        SplInstruction::SetAuthority { authority_type: SplAuthority::MintTokens, .. } => AuthorityType::MintTokens,
        SplInstruction::SetAuthority { authority_type: SplAuthority::FreezeAccount, .. } => AuthorityType::FreezeAccount,
        SplInstruction::SetAuthority { authority_type: SplAuthority::AccountOwner, .. } => AuthorityType::AccountOwner,
        SplInstruction::SetAuthority { authority_type: SplAuthority::CloseAccount, .. } => AuthorityType::CloseAccount,
        _ => return None,
    };
    Some(TokenInstruction::SetAuthority { authority_type })
}

/// Calls `spl_token::instruction::TokenInstruction::unpack` and hands on what
/// it decoded where that is one of the listed instructions that neither name
/// an amount nor set an authority.
#[verifier::external_body]
fn unpack_plain_instruction(data: &[u8]) -> (r: Option<TokenInstruction>)
    ensures
        r == only_if(
            token_unpacked(data@),
            |i: TokenInstruction| !i.names_amount() && !(i is SetAuthority),
        ),
{
    match SplInstruction::unpack(data).ok()? {
        SplInstruction::InitializeMint { decimals, .. } => Some(TokenInstruction::InitializeMint { decimals }),
        SplInstruction::InitializeAccount => Some(TokenInstruction::InitializeAccount),
        SplInstruction::InitializeMultisig { .. } => Some(TokenInstruction::InitializeMultisig),
        SplInstruction::Revoke => Some(TokenInstruction::Revoke),
        SplInstruction::CloseAccount => Some(TokenInstruction::CloseAccount),
        SplInstruction::FreezeAccount => Some(TokenInstruction::FreezeAccount),
        SplInstruction::ThawAccount => Some(TokenInstruction::ThawAccount),
        SplInstruction::InitializeAccount2 { .. } => Some(TokenInstruction::InitializeAccount2),
        SplInstruction::SyncNative => Some(TokenInstruction::SyncNative),
        _ => None,
    }
}

/// Decodes the data of an instruction of the token program.
pub fn decode_token_instruction(data: &[u8]) -> (r: Option<TokenInstruction>)
    ensures
        r == token_unpacked(data@),
{
    let with_amount = unpack_amount_instruction(data);
    if with_amount.is_some() {
        return with_amount;
    }
    let with_authority = unpack_authority_instruction(data);
    if with_authority.is_some() {
        return with_authority;
    }
    unpack_plain_instruction(data)
}

} // verus!
