use vstd::prelude::*;

use crate::asset::Pubkey;

verus! {

/// Why an NFT mint was refused.
#[derive(Clone, Copy, Debug, PartialEq, Eq, Structural)]
pub enum NFTError {
    /// The collection has minted as many items as it may.
    MaxSupplyReached,
}

impl NFTError {
    /// The message that goes with the error.
    pub fn message(&self) -> (r: &'static str)
        ensures
            r@ == "Maximum supply reached"@,
    {
        match self {
            NFTError::MaxSupplyReached => "Maximum supply reached",
        }
    }
}

/// A collection of NFTs with a cap on how many may be minted.
#[derive(Clone, Debug)]
pub struct Collection {
    pub authority: Pubkey,
    pub name: String,
    pub symbol: String,
    pub uri: String,
    pub max_supply: u64,
    pub total_minted: u64,
}

impl Collection {
    /// Never more minted than the cap allows.
    pub open spec fn wf(&self) -> bool {
        self.total_minted <= self.max_supply
    }
}

/// A new collection under `authority`, capped at `max_supply`, with nothing
/// minted yet.
pub fn initialize_collection(
    authority: Pubkey,
    name: String,
    symbol: String,
    uri: String,
    max_supply: u64,
) -> (r: Collection)
    ensures
        r.authority == authority,
        r.name@ == name@,
        r.symbol@ == symbol@,
        r.uri@ == uri@,
        r.max_supply == max_supply,
        r.total_minted == 0,
        r.wf(),
{
    Collection { authority, name, symbol, uri, max_supply, total_minted: 0 }
}

/// Counts one more NFT of the collection, refusing, unchanged, once the cap
/// is reached.
pub fn mint_nft(collection: &mut Collection) -> (r: Result<(), NFTError>)
    ensures
        old(collection).total_minted < old(collection).max_supply ==> r == Ok::<(), NFTError>(())
            && *final(collection) == (Collection {
                total_minted: (old(collection).total_minted + 1) as u64,
                ..*old(collection)
            }),
        old(collection).total_minted >= old(collection).max_supply ==> r == Err::<(), NFTError>(
            NFTError::MaxSupplyReached,
        ) && *final(collection) == *old(collection),
        old(collection).wf() ==> final(collection).wf(),
{
    if collection.total_minted >= collection.max_supply {
        return Err(NFTError::MaxSupplyReached);
    }
    collection.total_minted = collection.total_minted + 1;
    Ok(())
}

} // verus!
