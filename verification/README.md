# nft_programs

The decision logic of two Solana programs, an NFT marketplace and an NFT
staking program, written in Verus and proved against its contracts.

- `src/marketplace.rs`: a purchase. It checks that the listing is open to the
  seller, splits the price into the treasury's fee and the seller's share
  (refusing on overflow), builds the listing's signer seeds for the NFT
  transfer, and closes the listing. Laws: the two payments add up to the price,
  the fee is the percentage rounded down, a bought listing refuses a second
  purchase.
- `src/staking.rs`: stake and unstake. Staking is refused at the user's
  maximum, writes the stake record and counts the NFT; unstaking is refused
  while the whole-day count is below the freeze period, credits points per
  whole day and counts the NFT off. Both give the token-program actions to
  perform, with the stake account's signer seeds. Laws relate a stake to the
  unstake that undoes it, rule out a release before the freeze period ends at
  a clock not earlier than the stake, and tie the staked count to the NFTs
  still staked over any history of stakes and unstakes.
- `src/address.rs`: addresses as 32 bytes, and seed building.
- `src/runtime.rs`: the one call into the runtime that the logic makes, the
  clock sysvar, behind a trusted wrapper.
- `app/`: the Anchor side: account validation, the invocations of the token,
  metadata and system programs, and the conversions to and from the library's
  plain values.
