//! The wire messages that a fee is encoded to and decoded from.
use cosmos_sdk_proto::cosmos::base::v1beta1::Coin as WireCoin;
use cosmos_sdk_proto::cosmos::tx::v1beta1::Fee as WireFee;
use vstd::prelude::*;

verus! {

/// The wire message of one coin amount, `cosmos.base.v1beta1.Coin`:
/// two public string fields, `denom` and `amount`.
#[verifier::external_type_specification]
pub struct ExWireCoin(WireCoin);

/// The wire message of a fee, `cosmos.tx.v1beta1.Fee`: the coin list, the
/// gas limit, and the payer and granter addresses, where an empty string
/// stands for an absent address.
#[verifier::external_type_specification]
pub struct ExWireFee(WireFee);

} // verus!
