//! Transaction fees and their wire message.
use crate::account_id::{is_account_id, AccountId};
use crate::coin::{coin_decoded, coin_encoded, is_denom, Coin};
use crate::decimal::lemma_numeral_of;
use crate::error::Error;
use crate::gas::Gas;
use cosmos_sdk_proto::cosmos::base::v1beta1::Coin as ProtoCoin;
use cosmos_sdk_proto::cosmos::tx::v1beta1::Fee as ProtoFee;
use vstd::prelude::*;
use vstd::std_specs::convert::IntoSpec;

verus! {

/// Fee includes the amount of coins paid in fees and the maximum gas to be
/// used by the transaction.
///
/// The ratio yields an effective "gas price", which must be above some
/// minimum to be accepted into the mempool.
#[derive(Clone, Debug, PartialEq, Eq, PartialOrd, Ord)]
pub struct Fee {
    /// Amount of coins to be paid as a fee.
    pub amount: Vec<Coin>,
    /// Maximum gas that can be used in transaction processing before an out
    /// of gas error occurs.
    pub gas_limit: Gas,
    /// Payer: if `None`, the first signer is responsible for paying the fees.
    ///
    /// If `Some`, the specified account must pay the fees. The payer must be
    /// a transaction signer. Setting this field does not change the ordering
    /// of required signers for the transaction.
    pub payer: Option<AccountId>,
    /// Granter: if `Some`, the fee payer (either the first signer or the
    /// payer above) requests that a fee grant be used to pay fees instead of
    /// the fee payer's own balance.
    pub granter: Option<AccountId>,
}

/// The abstract value of a fee: coins as (denomination, amount) pairs, the
/// gas limit, and the text of each address that is present.
pub ghost struct FeeView {
    pub amount: Seq<(Seq<char>, u128)>,
    pub gas_limit: u64,
    pub payer: Option<Seq<char>>,
    pub granter: Option<Seq<char>>,
}

/// The abstract value of a fee's wire message: coins as (denomination,
/// amount) text pairs, the gas limit, and the payer and granter text.
pub ghost struct WireFeeView {
    pub amount: Seq<(Seq<char>, Seq<char>)>,
    pub gas_limit: u64,
    pub payer: Seq<char>,
    pub granter: Seq<char>,
}

impl View for Fee {
    type V = FeeView;

    open spec fn view(&self) -> FeeView {
        FeeView {
            amount: self.amount@.map_values(|c: Coin| c@),
            gas_limit: self.gas_limit.0,
            payer: address_view(self.payer),
            granter: address_view(self.granter),
        }
    }
}

/// The text of an address that may be absent.
pub open spec fn address_view(a: Option<AccountId>) -> Option<Seq<char>> {
    match a {
        Some(id) => Some(id@),
        None => None,
    }
}

/// The abstract value of a wire message.
pub open spec fn wire_view(p: ProtoFee) -> WireFeeView {
    WireFeeView {
        amount: p.amount@.map_values(|c: ProtoCoin| (c.denom@, c.amount@)),
        gas_limit: p.gas_limit,
        payer: p.payer@,
        granter: p.granter@,
    }
}

/// A well-formed fee: every denomination and every present address is of
/// its syntax.
pub open spec fn fee_wf(f: FeeView) -> bool {
    &&& forall|i: int| 0 <= i < f.amount.len() ==> is_denom(#[trigger] f.amount[i].0)
    &&& f.payer matches Some(s) ==> is_account_id(s)
    &&& f.granter matches Some(s) ==> is_account_id(s)
}

/// The wire text of an address: the empty string where it is absent.
pub open spec fn address_encoded(a: Option<Seq<char>>) -> Seq<char> {
    match a {
        Some(s) => s,
        None => Seq::empty(),
    }
}

/// The wire message of a fee.
pub open spec fn fee_encoded(f: FeeView) -> WireFeeView {
    WireFeeView {
        amount: f.amount.map_values(|c: (Seq<char>, u128)| coin_encoded(c)),
        gas_limit: f.gas_limit,
        payer: address_encoded(f.payer),
        granter: address_encoded(f.granter),
    }
}

/// Decodes the wire text of an address: the empty string is an absent
/// address, any other text must be of the address syntax.
pub open spec fn address_decoded(s: Seq<char>) -> Result<Option<Seq<char>>, Error> {
    if s.len() == 0 {
        Ok(None)
    } else if is_account_id(s) {
        Ok(Some(s))
    } else {
        Err(Error::AccountId)
    }
}

/// Decodes a list of wire coins in order; the first coin that fails decides
/// the error.
pub open spec fn coins_decoded(ws: Seq<(Seq<char>, Seq<char>)>) -> Result<
    Seq<(Seq<char>, u128)>,
    Error,
>
    decreases ws.len(),
{
    if ws.len() == 0 {
        Ok(Seq::empty())
    } else {
        match coins_decoded(ws.drop_last()) {
            Err(e) => Err(e),
            Ok(cs) => match coin_decoded(ws.last().0, ws.last().1) {
                Err(e) => Err(e),
                Ok(c) => Ok(cs.push(c)),
            },
        }
    }
}

/// Decodes a fee's wire message: the coins first, then the payer, then the
/// granter; the first part that fails decides the error.
pub open spec fn fee_decoded(w: WireFeeView) -> Result<FeeView, Error> {
    match coins_decoded(w.amount) {
        Err(e) => Err(e),
        Ok(amount) => match address_decoded(w.payer) {
            Err(e) => Err(e),
            Ok(payer) => match address_decoded(w.granter) {
                Err(e) => Err(e),
                Ok(granter) => Ok(FeeView { amount, gas_limit: w.gas_limit, payer, granter }),
            },
        },
    }
}

impl Fee {
    /// Simple constructor for a single `Coin` amount and the given amount of
    /// `Gas`.
    pub fn from_amount_and_gas<G: Into<Gas>>(amount: Coin, gas_limit: G) -> (r: Fee)
        ensures
            r.amount@ == seq![amount],
            G::obeys_into_spec() ==> r.gas_limit == gas_limit.into_spec(),
            r.payer is None,
            r.granter is None,
    {
        Fee { amount: vec![amount], gas_limit: gas_limit.into(), payer: None, granter: None }
    }

    /// Whether every denomination and every present address is of its
    /// syntax: what decoding the fee's wire message asks.
    pub open spec fn wf(&self) -> bool {
        fee_wf(self@)
    }

    /// Encodes the fee as its wire message; absent addresses become empty
    /// strings.
    pub fn to_proto(&self) -> (r: ProtoFee)
        ensures
            wire_view(r) == fee_encoded(self@),
    {
        let mut amount: Vec<ProtoCoin> = Vec::new();
        let mut i: usize = 0;
        while i < self.amount.len()
            invariant
                i <= self.amount.len(),
                amount@.len() == i,
                forall|j: int|
                    0 <= j < i ==> (#[trigger] amount@[j].denom@, amount@[j].amount@)
                        == coin_encoded(self.amount@[j]@),
            decreases self.amount.len() - i,
        {
            amount.push(self.amount[i].to_proto());
            i = i + 1;
        }
        let r = ProtoFee {
            amount,
            gas_limit: self.gas_limit.value(),
            payer: encode_address(&self.payer),
            granter: encode_address(&self.granter),
        };
        assert(wire_view(r).amount =~= fee_encoded(self@).amount);
        r
    }

    /// Decodes a fee from its wire message. Fails with the error of the first
    /// coin that does not decode, else with `Error::AccountId` where the payer
    /// or the granter text is neither empty nor of the address syntax.
    pub fn from_proto(p: &ProtoFee) -> (r: Result<Fee, Error>)
        ensures
            match fee_decoded(wire_view(*p)) {
                Ok(f) => r is Ok && r->Ok_0@ == f,
                Err(e) => r == Err::<Fee, Error>(e),
            },
    {
        let mut amount: Vec<Coin> = Vec::new();
        let mut i: usize = 0;
        assert(wire_view(*p).amount.take(0) =~= Seq::empty());
        assert(amount@.map_values(|c: Coin| c@) =~= Seq::empty());
        while i < p.amount.len()
            invariant
                i <= p.amount.len(),
                coins_decoded(wire_view(*p).amount.take(i as int)) == Ok::<
                    Seq<(Seq<char>, u128)>,
                    Error,
                >(amount@.map_values(|c: Coin| c@)),
            decreases p.amount.len() - i,
        {
            let ghost ws = wire_view(*p).amount;
            assert(ws.take(i + 1).drop_last() =~= ws.take(i as int));
            let c = match Coin::from_proto(&p.amount[i]) {
                Ok(c) => c,
                Err(e) => {
                    proof {
                        lemma_coins_decoded_prefix_err(ws, i + 1);
                    }
                    return Err(e);
                },
            };
            let ghost before = amount@;
            amount.push(c);
            assert(amount@.map_values(|c: Coin| c@) =~= before.map_values(|c: Coin| c@).push(c@));
            i = i + 1;
        }
        assert(wire_view(*p).amount.take(i as int) =~= wire_view(*p).amount);
        let payer = decode_address(&p.payer)?;
        let granter = decode_address(&p.granter)?;
        Ok(Fee { amount, gas_limit: Gas(p.gas_limit), payer, granter })
    }
}

impl TryFrom<ProtoFee> for Fee {
    type Error = Error;

    /// Decodes a fee from its wire message, as `Fee::from_proto` does.
    fn try_from(p: ProtoFee) -> (r: Result<Fee, Error>)
        ensures
            match fee_decoded(wire_view(p)) {
                Ok(f) => r is Ok && r->Ok_0@ == f,
                Err(e) => r == Err::<Fee, Error>(e),
            },
    {
        Fee::from_proto(&p)
    }
}

impl vstd::std_specs::convert::TryFromSpecImpl<ProtoFee> for Fee {
    open spec fn obeys_try_from_spec() -> bool {
        false
    }

    open spec fn try_from_spec(p: ProtoFee) -> Result<Fee, Error> {
        arbitrary()
    }
}

impl From<Fee> for ProtoFee {
    /// Encodes a fee as its wire message, as `Fee::to_proto` does.
    fn from(fee: Fee) -> (r: ProtoFee)
        ensures
            wire_view(r) == fee_encoded(fee@),
    {
        fee.to_proto()
    }
}

impl vstd::std_specs::convert::FromSpecImpl<Fee> for ProtoFee {
    open spec fn obeys_from_spec() -> bool {
        false
    }

    open spec fn from_spec(fee: Fee) -> ProtoFee {
        arbitrary()
    }
}

impl TryFrom<&ProtoFee> for Fee {
    type Error = Error;

    /// Decodes a fee from its wire message, as `Fee::from_proto` does.
    fn try_from(p: &ProtoFee) -> (r: Result<Fee, Error>)
        ensures
            match fee_decoded(wire_view(*p)) {
                Ok(f) => r is Ok && r->Ok_0@ == f,
                Err(e) => r == Err::<Fee, Error>(e),
            },
    {
        Fee::from_proto(p)
    }
}

impl vstd::std_specs::convert::TryFromSpecImpl<&ProtoFee> for Fee {
    open spec fn obeys_try_from_spec() -> bool {
        false
    }

    open spec fn try_from_spec(p: &ProtoFee) -> Result<Fee, Error> {
        arbitrary()
    }
}

impl From<&Fee> for ProtoFee {
    /// Encodes a fee as its wire message, as `Fee::to_proto` does.
    fn from(fee: &Fee) -> (r: ProtoFee)
        ensures
            wire_view(r) == fee_encoded(fee@),
    {
        fee.to_proto()
    }
}

impl vstd::std_specs::convert::FromSpecImpl<&Fee> for ProtoFee {
    open spec fn obeys_from_spec() -> bool {
        false
    }

    open spec fn from_spec(fee: &Fee) -> ProtoFee {
        arbitrary()
    }
}

/// Where a prefix of the wire coins fails to decode, the whole list fails
/// with the same error.
proof fn lemma_coins_decoded_prefix_err(ws: Seq<(Seq<char>, Seq<char>)>, i: int)
    requires
        0 <= i <= ws.len(),
        coins_decoded(ws.take(i)) is Err,
    ensures
        coins_decoded(ws) == coins_decoded(ws.take(i)),
    decreases ws.len() - i,
{
    if i < ws.len() {
        assert(ws.take(i + 1).drop_last() =~= ws.take(i));
        lemma_coins_decoded_prefix_err(ws, i + 1);
    } else {
        assert(ws.take(i) =~= ws);
    }
}

fn encode_address(a: &Option<AccountId>) -> (r: String)
    ensures
        r@ == address_encoded(address_view(*a)),
{
    match a {
        Some(id) => id.to_string(),
        None => String::new(),
    }
}

fn decode_address(s: &String) -> (r: Result<Option<AccountId>, Error>)
    ensures
        match address_decoded(s@) {
            Ok(a) => r is Ok && address_view(r->Ok_0) == a,
            Err(e) => r == Err::<Option<AccountId>, Error>(e),
        },
{
    if s.as_str().unicode_len() == 0 {
        Ok(None)
    } else {
        let id = AccountId::new(s.as_str())?;
        Ok(Some(id))
    }
}

/// A well-formed coin list survives encoding and decoding unchanged.
proof fn lemma_coins_round_trip(cs: Seq<(Seq<char>, u128)>)
    requires
        forall|i: int| 0 <= i < cs.len() ==> is_denom(#[trigger] cs[i].0),
    ensures
        coins_decoded(cs.map_values(|c: (Seq<char>, u128)| coin_encoded(c))) == Ok::<
            Seq<(Seq<char>, u128)>,
            Error,
        >(cs),
    decreases cs.len(),
{
    let ws = cs.map_values(|c: (Seq<char>, u128)| coin_encoded(c));
    if cs.len() > 0 {
        let init = cs.drop_last();
        assert(ws.drop_last() =~= init.map_values(|c: (Seq<char>, u128)| coin_encoded(c)));
        assert(is_denom(cs[cs.len() - 1].0));
        lemma_coins_round_trip(init);
        lemma_numeral_of(cs.last().1 as nat);
        assert(ws.last() == coin_encoded(cs.last()));
        assert(coin_decoded(ws.last().0, ws.last().1) == Ok::<(Seq<char>, u128), Error>(cs.last()));
        assert(init.push(cs.last()) =~= cs);
    } else {
        assert(ws =~= Seq::empty());
        assert(cs =~= Seq::empty());
    }
}

/// A well-formed address, present or absent, survives encoding and decoding
/// unchanged.
proof fn lemma_address_round_trip(a: Option<Seq<char>>)
    requires
        a matches Some(s) ==> is_account_id(s),
    ensures
        address_decoded(address_encoded(a)) == Ok::<Option<Seq<char>>, Error>(a),
{
    if let Some(s) = a {
        assert(s.len() > 0);
    }
}

/// Encoding a well-formed fee and decoding the message gives the same fee
/// back: the same coins in the same order, the same gas limit, and the same
/// payer and granter, each present or absent as before.
pub proof fn lemma_round_trip(fee: Fee)
    requires
        fee.wf(),
    ensures
        fee_decoded(fee_encoded(fee@)) == Ok::<FeeView, Error>(fee@),
{
    let f = fee@;
    lemma_coins_round_trip(f.amount);
    lemma_address_round_trip(f.payer);
    lemma_address_round_trip(f.granter);
}

/// An absent payer (or granter) is encoded as the empty string, and an empty
/// payer (or granter) text decodes, where the message decodes at all, to an
/// absent one.
pub proof fn lemma_absence(fee: Fee, p: ProtoFee)
    ensures
        fee.payer is None ==> fee_encoded(fee@).payer.len() == 0,
        fee.granter is None ==> fee_encoded(fee@).granter.len() == 0,
        p.payer@.len() == 0 && fee_decoded(wire_view(p)) is Ok ==> fee_decoded(
            wire_view(p),
        )->Ok_0.payer is None,
        p.granter@.len() == 0 && fee_decoded(wire_view(p)) is Ok ==> fee_decoded(
            wire_view(p),
        )->Ok_0.granter is None,
{
}

/// A message whose payer or granter text is neither empty nor of the address
/// syntax does not decode.
pub proof fn lemma_bad_address_fails(p: ProtoFee)
    requires
        (p.payer@.len() > 0 && !is_account_id(p.payer@)) || (p.granter@.len() > 0
            && !is_account_id(p.granter@)),
    ensures
        fee_decoded(wire_view(p)) is Err,
{
}

/// Encoding then decoding a well-formed fee keeps its gas limit, whatever
/// 64-bit value it is; and a decoded fee has the gas limit of its message.
pub proof fn lemma_gas_limit_fidelity(fee: Fee, p: ProtoFee)
    requires
        fee.wf(),
    ensures
        fee_decoded(fee_encoded(fee@)) is Ok,
        fee_decoded(fee_encoded(fee@))->Ok_0.gas_limit == fee.gas_limit.0,
        fee_decoded(wire_view(p)) is Ok ==> fee_decoded(wire_view(p))->Ok_0.gas_limit
            == p.gas_limit,
{
    lemma_round_trip(fee);
}

} // verus!
