use cosmos_sdk_proto::cosmos::base::v1beta1::Coin as ProtoCoin;
use cosmos_sdk_proto::cosmos::tx::v1beta1::Fee as ProtoFee;
use cosmos_tx::{AccountId, Coin, Error, Fee, Gas};

const PAYER: &str = "cosmos1qypqxpq9qcrsszg2pvxq6rs0zqg3yyc5lzv7xu";
const GRANTER: &str = "osmo1qqqqqqqqqqqqqqqqqqqqqqqqqqqqqqqqqqqqqq";

fn uatom(amount: u128) -> Coin {
    Coin::new("uatom", amount).unwrap()
}

fn wire_coin(denom: &str, amount: &str) -> ProtoCoin {
    ProtoCoin { denom: denom.to_string(), amount: amount.to_string() }
}

fn wire_fee(amount: Vec<ProtoCoin>, gas_limit: u64, payer: &str, granter: &str) -> ProtoFee {
    ProtoFee { amount, gas_limit, payer: payer.to_string(), granter: granter.to_string() }
}

#[test]
fn from_amount_and_gas_builds_single_coin_fee() {
    let fee = Fee::from_amount_and_gas(uatom(2_500), 200_000u64);
    assert_eq!(fee.amount, vec![uatom(2_500)]);
    assert_eq!(fee.gas_limit, Gas(200_000));
    assert_eq!(fee.gas_limit.value(), 200_000);
    assert!(fee.payer.is_none());
    assert!(fee.granter.is_none());
}

#[test]
fn from_amount_and_gas_takes_gas_value() {
    let fee = Fee::from_amount_and_gas(uatom(1), Gas(7));
    assert_eq!(fee.gas_limit, Gas(7));
}

#[test]
fn encode_fee_fields() {
    let fee = Fee {
        amount: vec![uatom(1_000), Coin::new("ibc/27394FB092D2ECCD", 5).unwrap()],
        gas_limit: Gas(300_000),
        payer: Some(AccountId::new(PAYER).unwrap()),
        granter: None,
    };
    let wire = fee.to_proto();
    assert_eq!(
        wire.amount,
        vec![wire_coin("uatom", "1000"), wire_coin("ibc/27394FB092D2ECCD", "5")]
    );
    assert_eq!(wire.gas_limit, 300_000);
    assert_eq!(wire.payer, PAYER);
    assert_eq!(wire.granter, "");
}

#[test]
fn round_trip_all_address_combinations() {
    let ids = [None, Some(PAYER), Some(GRANTER)];
    for payer in ids.iter() {
        for granter in ids.iter() {
            let fee = Fee {
                amount: vec![uatom(42), Coin::new("uosmo", 0).unwrap()],
                gas_limit: Gas(123_456),
                payer: payer.map(|s| AccountId::new(s).unwrap()),
                granter: granter.map(|s| AccountId::new(s).unwrap()),
            };
            let back = Fee::from_proto(&fee.to_proto()).unwrap();
            assert_eq!(back, fee);
        }
    }
}

#[test]
fn round_trip_through_trait_conversions() {
    let fee = Fee {
        amount: vec![uatom(u128::MAX)],
        gas_limit: Gas(1),
        payer: Some(AccountId::new(PAYER).unwrap()),
        granter: Some(AccountId::new(GRANTER).unwrap()),
    };
    let wire = ProtoFee::from(&fee);
    assert_eq!(Fee::try_from(&wire).unwrap(), fee);
    let owned = ProtoFee::from(fee.clone());
    assert_eq!(Fee::try_from(owned).unwrap(), fee);
}

#[test]
fn absent_payer_encodes_to_empty_string() {
    let fee = Fee::from_amount_and_gas(uatom(10), 100u64);
    let wire = fee.to_proto();
    assert_eq!(wire.payer, "");
    assert_eq!(wire.granter, "");
}

#[test]
fn empty_address_text_decodes_to_absent() {
    let wire = wire_fee(vec![wire_coin("uatom", "10")], 100, "", "");
    let fee = Fee::from_proto(&wire).unwrap();
    assert!(fee.payer.is_none());
    assert!(fee.granter.is_none());
}

#[test]
fn granter_decodes_from_its_own_field() {
    let wire = wire_fee(vec![wire_coin("uatom", "10")], 100, PAYER, GRANTER);
    let fee = Fee::from_proto(&wire).unwrap();
    assert_eq!(fee.payer.unwrap().as_str(), PAYER);
    assert_eq!(fee.granter.unwrap().as_str(), GRANTER);
}

#[test]
fn malformed_payer_fails() {
    let wire = wire_fee(vec![wire_coin("uatom", "10")], 100, "not-an-address", "");
    assert_eq!(Fee::from_proto(&wire), Err(Error::AccountId));
}

#[test]
fn malformed_granter_fails() {
    let wire = wire_fee(vec![wire_coin("uatom", "10")], 100, PAYER, "cosmos1short");
    assert_eq!(Fee::from_proto(&wire), Err(Error::AccountId));
}

#[test]
fn malformed_coin_fails_first() {
    let wire = wire_fee(
        vec![wire_coin("uatom", "10"), wire_coin("uatom", "1.5"), wire_coin("x", "1")],
        100,
        "bad",
        "",
    );
    assert_eq!(Fee::from_proto(&wire), Err(Error::Amount));
    let wire = wire_fee(vec![wire_coin("9atom", "10")], 100, "", "");
    assert_eq!(Fee::from_proto(&wire), Err(Error::Denom));
}

#[test]
fn gas_limit_extremes_round_trip() {
    for gas in [0u64, 1, 200_000, u64::MAX] {
        let fee = Fee::from_amount_and_gas(uatom(1), gas);
        let wire = fee.to_proto();
        assert_eq!(wire.gas_limit, gas);
        assert_eq!(Fee::from_proto(&wire).unwrap().gas_limit, Gas(gas));
    }
}

#[test]
fn empty_coin_list_round_trips() {
    let fee = Fee { amount: vec![], gas_limit: Gas(5), payer: None, granter: None };
    assert_eq!(Fee::from_proto(&fee.to_proto()).unwrap(), fee);
}
