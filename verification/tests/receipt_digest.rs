use evcharge::user::payment_receipt::recorded_matches;
use evcharge::user::receipt_digest::{receipt_digest, ReceiptFacts};
use serde_json::Value;
use sha2::Digest;

fn facts() -> ReceiptFacts {
    ReceiptFacts {
        payment_id: 18_446_744_073_709_551_615,
        month: "2026-09-01".into(),
        appid: "wx_\"test\"\\".into(),
        mchid: "1900000109".into(),
        out_trade_no: "PAY\n\t\u{1}\u{7f}".into(),
        transaction_id: "WX_1".into(),
        payer_openid: "微信用户".into(),
        amount_total: 100,
        amount_payer_total: -90,
        success_ms: i64::MIN,
    }
}

fn reference(f: &ReceiptFacts) -> Vec<u8> {
    let value = Value::Array(vec![
        Value::from(f.payment_id),
        Value::from(f.month.as_str()),
        Value::from(f.appid.as_str()),
        Value::from(f.mchid.as_str()),
        Value::from(f.out_trade_no.as_str()),
        Value::from(f.transaction_id.as_str()),
        Value::from(f.payer_openid.as_str()),
        Value::from(f.amount_total),
        Value::from(f.amount_payer_total),
        Value::from(f.success_ms),
    ]);
    serde_json::to_vec(&value).unwrap()
}

#[test]
fn digest_is_sha256_of_the_facts() {
    let f = facts();
    let expected = format!("{:x}", sha2::Sha256::digest(reference(&f)));
    assert_eq!(receipt_digest(&f), expected);
    assert_eq!(receipt_digest(&f).len(), 64);
    let mut g = facts();
    g.transaction_id = "WX_2".into();
    assert_ne!(receipt_digest(&g), expected);
}

#[test]
fn recorded_digest_must_be_ours() {
    let d = receipt_digest(&facts());
    assert!(recorded_matches(&Some(d.clone()), &d));
    assert!(!recorded_matches(&Some("other".into()), &d));
    assert!(!recorded_matches(&None, &d));
}
