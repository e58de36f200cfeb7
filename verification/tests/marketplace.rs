use nft_programs::address::Address;
use nft_programs::marketplace::{purchase, Listing, Marketplace, MarketplaceError, Purchase};

fn addr(b: u8) -> Address {
    [b; 32]
}

fn accounts(fee_percentage: u8, price: u64) -> Purchase {
    Purchase {
        nft: addr(1),
        nft_decimals: 0,
        listing_key: addr(2),
        listing: Listing { seller: addr(3), price, is_active: true, bump: 254 },
        listing_token_account: addr(4),
        buyer: addr(5),
        buyer_token_account: addr(6),
        seller: addr(3),
        marketplace_key: addr(7),
        marketplace: Marketplace { fee_percentage, bump: 255 },
        treasury: addr(8),
    }
}

fn listing_seed_bytes(p: &Purchase) -> Vec<Vec<u8>> {
    vec![
        b"listing".to_vec(),
        p.marketplace_key.to_vec(),
        p.seller.to_vec(),
        p.nft.to_vec(),
        vec![p.listing.bump],
    ]
}

#[test]
fn purchase_splits_price_between_treasury_and_seller() {
    let mut p = accounts(5, 1000);
    let before = p;
    let t = purchase(&mut p).unwrap();
    assert_eq!(t.sol.fee.lamports, 50);
    assert_eq!(t.sol.payment.lamports, 950);
    assert_eq!(t.sol.fee.from, before.buyer);
    assert_eq!(t.sol.fee.to, before.treasury);
    assert_eq!(t.sol.payment.from, before.buyer);
    assert_eq!(t.sol.payment.to, before.seller);
    assert_eq!(t.nft.amount, 1);
    assert_eq!(t.nft.from, before.listing_token_account);
    assert_eq!(t.nft.to, before.buyer_token_account);
    assert_eq!(t.nft.authority, before.listing_key);
    assert_eq!(t.nft.mint, before.nft);
    assert_eq!(t.nft.signer_seeds, listing_seed_bytes(&before));
    assert!(!p.listing.is_active);
    assert_eq!(p.listing.price, 1000);
}

#[test]
fn fee_rounds_down() {
    let t = accounts(3, 99).transfer_sol().unwrap();
    assert_eq!(t.fee.lamports, 2);
    assert_eq!(t.payment.lamports, 97);
}

#[test]
fn zero_fee_pays_all_to_seller() {
    let t = accounts(0, 12345).transfer_sol().unwrap();
    assert_eq!(t.fee.lamports, 0);
    assert_eq!(t.payment.lamports, 12345);
}

#[test]
fn full_fee_pays_all_to_treasury() {
    let t = accounts(100, 777).transfer_sol().unwrap();
    assert_eq!(t.fee.lamports, 777);
    assert_eq!(t.payment.lamports, 0);
}

#[test]
fn fee_above_price_is_refused() {
    assert_eq!(accounts(150, 1000).transfer_sol(), Err(MarketplaceError::MathOverflow));
}

#[test]
fn product_overflow_is_refused() {
    assert_eq!(accounts(2, u64::MAX).transfer_sol(), Err(MarketplaceError::MathOverflow));
    let t = accounts(1, u64::MAX).transfer_sol().unwrap();
    assert_eq!(t.fee.lamports, u64::MAX / 100);
    assert_eq!(t.fee.lamports + t.payment.lamports, u64::MAX);
}

#[test]
fn inactive_listing_is_refused_and_left_unchanged() {
    let mut p = accounts(5, 1000);
    p.listing.is_active = false;
    let before = p;
    assert_eq!(purchase(&mut p), Err(MarketplaceError::ListingNotActive));
    assert_eq!(p, before);
}

#[test]
fn other_seller_is_refused() {
    let mut p = accounts(5, 1000);
    p.seller = addr(9);
    let before = p;
    assert_eq!(p.transfer_nft(), Err(MarketplaceError::ListingNotActive));
    assert_eq!(purchase(&mut p), Err(MarketplaceError::ListingNotActive));
    assert_eq!(p, before);
}

#[test]
fn overflowing_purchase_leaves_listing_open() {
    let mut p = accounts(200, 1000);
    let before = p;
    assert_eq!(purchase(&mut p), Err(MarketplaceError::MathOverflow));
    assert_eq!(p, before);
    assert!(p.listing.is_active);
}

#[test]
fn second_purchase_is_refused() {
    let mut p = accounts(5, 1000);
    assert!(purchase(&mut p).is_ok());
    assert_eq!(purchase(&mut p), Err(MarketplaceError::ListingNotActive));
}

#[test]
fn delist_closes_the_listing() {
    let mut p = accounts(5, 1000);
    let before = p;
    assert_eq!(p.delist_nft(), Ok(()));
    assert!(!p.listing.is_active);
    p.listing.is_active = true;
    assert_eq!(p, before);
}

#[test]
fn nft_transfer_carries_mint_decimals() {
    let mut p = accounts(5, 1000);
    p.nft_decimals = 6;
    let t = p.transfer_nft().unwrap();
    assert_eq!(t.decimals, 6);
    assert_eq!(t.signer_seeds, listing_seed_bytes(&p));
}
