//! The stable identity of a payment notification: a SHA-256 digest of the
//! notification's payment facts written as a compact JSON array, the same
//! for every retry and independent of the notification's id and layout.
use vstd::prelude::*;
use sha2::Digest;

verus! {

/// The payment facts a notification is identified by.
pub struct ReceiptFacts {
    pub payment_id: u64,
    /// The payment's month, as `YYYY-MM-DD`.
    pub month: String,
    pub appid: String,
    pub mchid: String,
    pub out_trade_no: String,
    pub transaction_id: String,
    pub payer_openid: String,
    pub amount_total: i64,
    pub amount_payer_total: i64,
    /// The payment time, in milliseconds since the epoch.
    pub success_ms: i64,
}

/// The bytes `serde_json::to_vec` writes for the facts as one JSON array
/// (payment id, month, appid, mchid, trade number, transaction id, payer
/// openid, total, payer total, payment time in milliseconds); `None` would
/// be an error, which these values never give.
pub uninterp spec fn facts_json_bytes(
    payment_id: u64,
    month: Seq<char>,
    appid: Seq<char>,
    mchid: Seq<char>,
    out_trade_no: Seq<char>,
    transaction_id: Seq<char>,
    payer_openid: Seq<char>,
    amount_total: i64,
    amount_payer_total: i64,
    success_ms: i64,
) -> Option<Seq<u8>>;

/// The JSON bytes of the facts of `f`, as named by `facts_json_bytes`.
pub open spec fn facts_bytes(f: ReceiptFacts) -> Option<Seq<u8>> {
    facts_json_bytes(
        f.payment_id,
        f.month@,
        f.appid@,
        f.mchid@,
        f.out_trade_no@,
        f.transaction_id@,
        f.payer_openid@,
        f.amount_total,
        f.amount_payer_total,
        f.success_ms,
    )
}

/// Calls `serde_json::to_vec` on the facts as a tuple, which serde writes as
/// a JSON array. The contract names the bytes by the facts, and claims that
/// the call succeeds: an integer or a string always serializes, and writing
/// into a `Vec` never fails.
#[verifier::external_body]
fn facts_json(f: &ReceiptFacts) -> (r: Option<Vec<u8>>)
    ensures
        r is Some,
        r matches Some(b) ==> facts_json_bytes(
            f.payment_id,
            f.month@,
            f.appid@,
            f.mchid@,
            f.out_trade_no@,
            f.transaction_id@,
            f.payer_openid@,
            f.amount_total,
            f.amount_payer_total,
            f.success_ms,
        ) == Some(b@),
{
    serde_json::to_vec(&(
        f.payment_id,
        f.month.as_str(),
        f.appid.as_str(),
        f.mchid.as_str(),
        f.out_trade_no.as_str(),
        f.transaction_id.as_str(),
        f.payer_openid.as_str(),
        f.amount_total,
        f.amount_payer_total,
        f.success_ms,
    )).ok()
}

/// The SHA-256 digest of `bytes`, written as 64 lower-case hexadecimal
/// digits, as `format!("{:x}", sha2::Sha256::digest(bytes))` writes it.
pub uninterp spec fn sha256_hex(bytes: Seq<u8>) -> Seq<char>;

/// Calls `sha2::Sha256::digest` and writes the digest with `LowerHex`. The
/// contract only names the result as the digest of the given bytes.
#[verifier::external_body]
fn sha256_text(bytes: &[u8]) -> (r: String)
    ensures
        r@ == sha256_hex(bytes@),
{
    format!("{:x}", sha2::Sha256::digest(bytes))
}

/// The identity digest of a notification: SHA-256 over its facts written as
/// JSON.
pub fn receipt_digest(f: &ReceiptFacts) -> (r: String)
    ensures
        facts_bytes(*f) matches Some(b) && r@ == sha256_hex(b),
{
    match facts_json(f) {
        Some(bytes) => sha256_text(bytes.as_slice()),
        None => {
            proof {
                assert(false);
            }
            String::new()
        },
    }
}

} // verus!
