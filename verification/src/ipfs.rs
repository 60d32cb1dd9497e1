//! What a launch says about its token. The texts are written elsewhere
//! and stored off-chain; a launch only carries them.

use vstd::prelude::*;

verus! {

/// The name and the ticker of a token.
#[derive(Debug, Clone, PartialEq, Eq)]
pub struct TokenMetadata {
    pub name: String,
    pub symbol: String,
}

/// The metadata of a token and the address under which it was stored.
#[derive(Debug, Clone, PartialEq, Eq)]
pub struct TokenMetadataIPFS {
    pub metadata: TokenMetadata,
    pub metadata_uri: String,
}

} // verus!
