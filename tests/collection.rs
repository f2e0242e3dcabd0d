use solsynthai::asset::Pubkey;
use solsynthai::collection::{initialize_collection, mint_nft, NFTError};

#[test]
fn collection_starts_empty() {
    let c = initialize_collection(Pubkey::new([4; 32]), "Art".to_string(), "ART".to_string(), "https://a/b".to_string(), 3);
    assert_eq!(c.authority, Pubkey::new([4; 32]));
    assert_eq!(c.name, "Art");
    assert_eq!(c.symbol, "ART");
    assert_eq!(c.uri, "https://a/b");
    assert_eq!(c.max_supply, 3);
    assert_eq!(c.total_minted, 0);
}

#[test]
fn collection_mints_up_to_cap() {
    let mut c = initialize_collection(Pubkey::new([4; 32]), "Art".to_string(), "ART".to_string(), String::new(), 2);
    assert_eq!(mint_nft(&mut c), Ok(()));
    assert_eq!(c.total_minted, 1);
    assert_eq!(mint_nft(&mut c), Ok(()));
    assert_eq!(c.total_minted, 2);
    assert_eq!(mint_nft(&mut c), Err(NFTError::MaxSupplyReached));
    assert_eq!(c.total_minted, 2);
    assert_eq!(NFTError::MaxSupplyReached.message(), "Maximum supply reached");
}

#[test]
fn collection_with_zero_cap_refuses() {
    let mut c = initialize_collection(Pubkey::new([0; 32]), String::new(), String::new(), String::new(), 0);
    assert_eq!(mint_nft(&mut c), Err(NFTError::MaxSupplyReached));
    assert_eq!(c.total_minted, 0);
}
