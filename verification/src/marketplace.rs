use vstd::prelude::*;
use vstd::slice::slice_to_vec;
use crate::address::Address;
use crate::address::same_address;
use crate::address::address_seed;
use crate::address::bump_seed;
use crate::address::push_seed;

verus! {

/// Why the marketplace program refuses an instruction.
#[derive(Clone, Copy, Debug, PartialEq, Eq)]
pub enum MarketplaceError {
    /// The listing is closed, or the seller account is not the one that listed.
    ListingNotActive,
    /// The fee or the seller's share does not fit in a `u64`.
    MathOverflow,
}

/// The marketplace settings that a purchase reads.
#[derive(Clone, Copy, Debug, PartialEq, Eq)]
pub struct Marketplace {
    /// Percent of the price that goes to the treasury.
    pub fee_percentage: u8,
    pub bump: u8,
}

/// A listed NFT.
#[derive(Clone, Copy, Debug, PartialEq, Eq)]
pub struct Listing {
    pub seller: Address,
    /// Price in lamports.
    pub price: u64,
    pub is_active: bool,
    pub bump: u8,
}

/// The accounts of a purchase, as plain values: addresses, and the state of
/// the accounts whose contents the purchase reads or writes.
#[derive(Clone, Copy, Debug, PartialEq, Eq)]
pub struct Purchase {
    pub nft: Address,
    pub nft_decimals: u8,
    pub listing_key: Address,
    pub listing: Listing,
    pub listing_token_account: Address,
    pub buyer: Address,
    pub buyer_token_account: Address,
    pub seller: Address,
    pub marketplace_key: Address,
    pub marketplace: Marketplace,
    pub treasury: Address,
}

/// A token transfer that the listing account signs for with its seeds.
#[derive(Clone, Debug, PartialEq, Eq)]
pub struct TokenTransfer {
    pub from: Address,
    pub mint: Address,
    pub to: Address,
    pub authority: Address,
    pub amount: u64,
    pub decimals: u8,
    pub signer_seeds: Vec<Vec<u8>>,
}

/// A transfer of lamports between two system accounts.
#[derive(Clone, Copy, Debug, PartialEq, Eq)]
pub struct LamportTransfer {
    pub from: Address,
    pub to: Address,
    pub lamports: u64,
}

/// The two payments of a sale: the fee to the treasury, the rest to the seller.
#[derive(Clone, Copy, Debug, PartialEq, Eq)]
pub struct SolTransfers {
    pub fee: LamportTransfer,
    pub payment: LamportTransfer,
}

/// Everything a successful purchase moves.
#[derive(Clone, Debug, PartialEq, Eq)]
pub struct PurchaseTransfers {
    pub nft: TokenTransfer,
    pub sol: SolTransfers,
}

/// The bytes of the seed `b"listing"`.
pub open spec fn tag_listing() -> Seq<u8> {
    seq![108u8, 105u8, 115u8, 116u8, 105u8, 110u8, 103u8]
}

/// The seeds of a listing account: `b"listing"`, the marketplace, the seller,
/// the NFT mint, and the bump.
pub open spec fn listing_seeds(marketplace: Seq<u8>, seller: Seq<u8>, nft: Seq<u8>, bump: u8) -> Seq<Seq<u8>> {
    seq![tag_listing(), marketplace, seller, nft, seq![bump]]
}

/// The treasury's fee on a sale: the percentage of the price, rounded down.
pub open spec fn sale_fee(fee_percentage: u8, price: u64) -> int {
    (fee_percentage * price) / 100
}

/// Whether the fee and the seller's share of a sale can be computed in `u64`:
/// the product of percentage and price fits, and the fee is at most the price.
pub open spec fn sale_split_fits(fee_percentage: u8, price: u64) -> bool {
    &&& fee_percentage * price <= u64::MAX
    &&& sale_fee(fee_percentage, price) <= price
}

impl Purchase {
    /// The listing is open, and to the seller account of this purchase.
    pub open spec fn listing_open(self) -> bool {
        self.listing.is_active && self.listing.seller@ == self.seller@
    }

    pub open spec fn fee(self) -> int {
        sale_fee(self.marketplace.fee_percentage, self.listing.price)
    }

    pub open spec fn split_fits(self) -> bool {
        sale_split_fits(self.marketplace.fee_percentage, self.listing.price)
    }

    /// The same accounts, with the listing closed.
    pub open spec fn delisted(self) -> Purchase {
        Purchase { listing: Listing { is_active: false, ..self.listing }, ..self }
    }

    /// The token transfer that hands the NFT from the listing to the buyer.
    pub open spec fn is_nft_release(self, t: TokenTransfer) -> bool {
        &&& t.from == self.listing_token_account
        &&& t.mint == self.nft
        &&& t.to == self.buyer_token_account
        &&& t.authority == self.listing_key
        &&& t.amount == 1
        &&& t.decimals == self.nft_decimals
        &&& t.signer_seeds.deep_view() == listing_seeds(
            self.marketplace_key@,
            self.seller@,
            self.nft@,
            self.listing.bump,
        )
    }

    /// The buyer pays the fee to the treasury and the rest of the price to the seller.
    pub open spec fn is_payment(self, t: SolTransfers) -> bool {
        &&& t.fee == (LamportTransfer {
            from: self.buyer,
            to: self.treasury,
            lamports: self.fee() as u64,
        })
        &&& t.payment == (LamportTransfer {
            from: self.buyer,
            to: self.seller,
            lamports: (self.listing.price - self.fee()) as u64,
        })
    }

    /// Why a purchase from these accounts is refused, if it is.
    pub open spec fn purchase_error(self) -> Option<MarketplaceError> {
        if !self.listing_open() {
            Some(MarketplaceError::ListingNotActive)
        } else if !self.split_fits() {
            Some(MarketplaceError::MathOverflow)
        } else {
            None
        }
    }

    /// Checks that the listing is open to this seller, and gives the transfer
    /// of the NFT from the listing's token account to the buyer's, signed with
    /// the listing's seeds.
    pub fn transfer_nft(&self) -> (r: Result<TokenTransfer, MarketplaceError>)
        ensures
            r is Ok <==> self.listing_open(),
            r matches Err(e) ==> e == MarketplaceError::ListingNotActive,
            r matches Ok(t) ==> self.is_nft_release(t),
    {
        if !(self.listing.is_active && same_address(&self.listing.seller, &self.seller)) {
            return Err(MarketplaceError::ListingNotActive);
        }
        let mut seeds: Vec<Vec<u8>> = Vec::new();
        push_seed(&mut seeds, slice_to_vec(&[108u8, 105, 115, 116, 105, 110, 103]));
        push_seed(&mut seeds, address_seed(&self.marketplace_key));
        push_seed(&mut seeds, address_seed(&self.seller));
        push_seed(&mut seeds, address_seed(&self.nft));
        push_seed(&mut seeds, bump_seed(self.listing.bump));
        assert(seeds.deep_view() =~= listing_seeds(
            self.marketplace_key@,
            self.seller@,
            self.nft@,
            self.listing.bump,
        ));
        Ok(TokenTransfer {
            from: self.listing_token_account,
            mint: self.nft,
            to: self.buyer_token_account,
            authority: self.listing_key,
            amount: 1,
            decimals: self.nft_decimals,
            signer_seeds: seeds,
        })
    }

    /// Splits the price: the fee (percentage of the price, rounded down) to
    /// the treasury, the rest to the seller, both paid by the buyer.
    pub fn transfer_sol(&self) -> (r: Result<SolTransfers, MarketplaceError>)
        ensures
            r is Ok <==> self.split_fits(),
            r matches Err(e) ==> e == MarketplaceError::MathOverflow,
            r matches Ok(t) ==> self.is_payment(t),
    {
        let percentage = self.marketplace.fee_percentage as u64;
        let fee_lamports = match percentage.checked_mul(self.listing.price) {
            Some(product) => product / 100,
            None => return Err(MarketplaceError::MathOverflow),
        };
        let seller_lamports = match self.listing.price.checked_sub(fee_lamports) {
            Some(rest) => rest,
            None => return Err(MarketplaceError::MathOverflow),
        };
        Ok(SolTransfers {
            fee: LamportTransfer { from: self.buyer, to: self.treasury, lamports: fee_lamports },
            payment: LamportTransfer { from: self.buyer, to: self.seller, lamports: seller_lamports },
        })
    }

    /// Closes the listing.
    pub fn delist_nft(&mut self) -> (r: Result<(), MarketplaceError>)
        ensures
            r is Ok,
            *final(self) == old(self).delisted(),
    {
        self.listing.is_active = false;
        Ok(())
    }
}

/// Buys the listed NFT: checks the listing, splits the price, and closes the
/// listing. On refusal the accounts are left as they were.
pub fn purchase(ctx: &mut Purchase) -> (r: Result<PurchaseTransfers, MarketplaceError>)
    ensures
        r matches Err(e) ==> old(ctx).purchase_error() == Some(e) && *final(ctx) == *old(ctx),
        r is Ok <==> old(ctx).purchase_error() is None,
        r matches Ok(t) ==> {
            &&& old(ctx).is_nft_release(t.nft)
            &&& old(ctx).is_payment(t.sol)
            &&& *final(ctx) == old(ctx).delisted()
        },
{
    let nft = match ctx.transfer_nft() {
        Ok(t) => t,
        Err(e) => return Err(e),
    };
    let sol = match ctx.transfer_sol() {
        Ok(t) => t,
        Err(e) => return Err(e),
    };
    let _ = ctx.delist_nft();
    Ok(PurchaseTransfers { nft, sol })
}

/// A sale's two payments come from the buyer and add up to the listed price:
/// the fee to the treasury, the rest to the seller.
pub proof fn law_buyer_pays_the_price(p: Purchase, t: SolTransfers)
    requires
        p.split_fits(),
        p.is_payment(t),
    ensures
        t.fee.lamports + t.payment.lamports == p.listing.price,
        t.fee.from == p.buyer && t.payment.from == p.buyer,
        t.fee.to == p.treasury && t.payment.to == p.seller,
{
}

/// The fee is the percentage of the price rounded down: `100 * fee` is at
/// most `percentage * price` and less than 100 more.
pub proof fn law_fee_rounds_down(fee_percentage: u8, price: u64)
    ensures
        100 * sale_fee(fee_percentage, price) <= fee_percentage * price,
        fee_percentage * price < 100 * sale_fee(fee_percentage, price) + 100,
{
    let product: int = fee_percentage * price;
    assert(0 <= product) by (nonlinear_arith)
        requires 0 <= fee_percentage, 0 <= price, product == fee_percentage * price;
}

/// With a percentage of at most 100, the only refusal of a split is an
/// overflow of `percentage * price`.
pub proof fn law_split_fits_up_to_full_fee(fee_percentage: u8, price: u64)
    requires
        fee_percentage <= 100,
    ensures
        sale_split_fits(fee_percentage, price) <==> fee_percentage * price <= u64::MAX,
{
    let product: int = fee_percentage * price;
    assert(product <= 100 * price) by (nonlinear_arith)
        requires fee_percentage <= 100, 0 <= price, product == fee_percentage * price;
}

/// A listing that has been bought is closed: a second purchase from the same
/// accounts is refused with `ListingNotActive`.
pub proof fn law_sold_listing_refuses_purchase(p: Purchase)
    ensures
        p.delisted().purchase_error() == Some(MarketplaceError::ListingNotActive),
{
}

/// A successful purchase changes nothing but the listing's `is_active`.
pub proof fn law_purchase_touches_only_the_listing_flag(p: Purchase)
    ensures
        p.delisted().listing.price == p.listing.price,
        p.delisted().listing.seller == p.listing.seller,
        p.delisted().listing.bump == p.listing.bump,
        p.delisted().marketplace == p.marketplace,
        !p.delisted().listing.is_active,
        p.delisted().delisted() == p.delisted(),
{
}

} // verus!
