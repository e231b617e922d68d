//! Creating a token's records.

use vstd::prelude::*;
use crate::account::AccountId;
use crate::events::TokenCreated;
use crate::state::{TokenMetadata, TokenMint};

verus! {

/// What `create_token` hands back: the mint's record, the token's metadata
/// and the event that reports the creation.
#[derive(Clone, Debug, PartialEq, Eq)]
pub struct CreatedToken {
    pub mint: TokenMint,
    pub metadata: TokenMetadata,
    pub event: TokenCreated,
}

/// Builds the records of a new token.
///
/// The mint's record holds the two authorities, the initial supply and the
/// decimals; the metadata holds the name and the symbol; the event repeats
/// them together with the creator. Bringing the mint into being on the
/// platform is the host's business.
pub fn create_token(
    mint: AccountId,
    freeze_authority: AccountId,
    mint_authority: AccountId,
    name: String,
    symbol: String,
    decimals: u8,
    initial_supply: u64,
    creator: AccountId,
) -> (created: CreatedToken)
    ensures
        created == (CreatedToken {
            mint: TokenMint {
                mint,
                freeze_authority,
                mint_authority,
                supply: initial_supply,
                decimals,
            },
            metadata: TokenMetadata { name, symbol },
            event: TokenCreated { mint, name, symbol, decimals, initial_supply, creator },
        }),
{
    let metadata = TokenMetadata { name: name.clone(), symbol: symbol.clone() };
    let event = TokenCreated { mint, name, symbol, decimals, initial_supply, creator };
    CreatedToken {
        mint: TokenMint { mint, freeze_authority, mint_authority, supply: initial_supply, decimals },
        metadata,
        event,
    }
}

} // verus!
