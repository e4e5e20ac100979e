use cosmos_sdk_proto::cosmos::base::v1beta1::Coin as ProtoCoin;
use cosmos_tx::account_id::check_account_id;
use cosmos_tx::decimal::{format_u128, parse_u128};
use cosmos_tx::{AccountId, Coin, Denom, Error};

#[test]
fn account_id_accepts_address() {
    let id = AccountId::new("cosmos1qypqxpq9qcrsszg2pvxq6rs0zqg3yyc5lzv7xu").unwrap();
    assert_eq!(id.to_string(), "cosmos1qypqxpq9qcrsszg2pvxq6rs0zqg3yyc5lzv7xu");
    assert!(check_account_id("a1qqqqqq"));
    assert!(check_account_id("a11qqqqqq"));
}

#[test]
fn account_id_rejects_malformed() {
    for s in [
        "",
        "cosmos",
        "1qqqqqq",
        "cosmos1qqqqq",
        "cosmos1qqqqqb",
        "Cosmos1qqqqqq",
        "cos-mos1qqqqqq",
        "cosmos1qqqqqqqqqqqqqqqqqqqqqqqqqqqqqqqqqqqqqqqqqqqqqqqqqqqqqqqqqqqqqqqqqqqqqqqqqqqqqqqqqqqqqq",
    ] {
        assert_eq!(AccountId::new(s), Err(Error::AccountId), "{}", s);
    }
}

#[test]
fn account_id_longest_accepted() {
    let s = format!("a1{}", "q".repeat(88));
    assert_eq!(s.len(), 90);
    assert!(AccountId::new(&s).is_ok());
}

#[test]
fn denom_syntax() {
    assert_eq!(Denom::new("uatom").unwrap().as_str(), "uatom");
    assert!(Denom::new("ibc/27394FB0:x.y_z-w").is_ok());
    assert_eq!(Denom::new("ab"), Err(Error::Denom));
    assert_eq!(Denom::new("1abc"), Err(Error::Denom));
    assert_eq!(Denom::new("ab c"), Err(Error::Denom));
    assert!(Denom::new(&format!("a{}", "b".repeat(127))).is_ok());
    assert_eq!(Denom::new(&format!("a{}", "b".repeat(128))), Err(Error::Denom));
}

#[test]
fn coin_wire_form() {
    let coin = Coin::new("uatom", 1_234_567).unwrap();
    let wire = coin.to_proto();
    assert_eq!(wire.denom, "uatom");
    assert_eq!(wire.amount, "1234567");
    assert_eq!(Coin::from_proto(&wire).unwrap(), coin);
    assert_eq!(Coin::new("a", 1), Err(Error::Denom));
}

#[test]
fn coin_decode_errors() {
    let bad_amount = ProtoCoin { denom: "uatom".to_string(), amount: "".to_string() };
    assert_eq!(Coin::from_proto(&bad_amount), Err(Error::Amount));
    let bad_denom = ProtoCoin { denom: "u".to_string(), amount: "x".to_string() };
    assert_eq!(Coin::from_proto(&bad_denom), Err(Error::Denom));
}

#[test]
fn numerals_format() {
    assert_eq!(format_u128(0), "0");
    assert_eq!(format_u128(7), "7");
    assert_eq!(format_u128(1_000_000), "1000000");
    assert_eq!(format_u128(u128::MAX), "340282366920938463463374607431768211455");
}

#[test]
fn numerals_parse() {
    assert_eq!(parse_u128("0"), Some(0));
    assert_eq!(parse_u128("007"), Some(7));
    assert_eq!(parse_u128("340282366920938463463374607431768211455"), Some(u128::MAX));
    assert_eq!(parse_u128("340282366920938463463374607431768211456"), None);
    assert_eq!(parse_u128("1000000000000000000000000000000000000000"), None);
    assert_eq!(parse_u128(""), None);
    assert_eq!(parse_u128("12a"), None);
    assert_eq!(parse_u128("-1"), None);
}
