use vstd::prelude::*;

verus! {

/// The SHA-256 digest of a string's UTF-8 bytes.
pub uninterp spec fn sha256_of_str(s: Seq<char>) -> Seq<u8>;

/// Relies on sha2::Sha256, through sha2::Digest::digest: the digest of the
/// string's bytes, which depends on them alone.
#[verifier::external_body]
fn sha256_str(s: &str) -> (r: [u8; 32])
    ensures
        r@ == sha256_of_str(s@),
{
    <sha2::Sha256 as sha2::Digest>::digest(s.as_bytes()).into()
}

/// The ledger fields a caller hands over for one call.
#[derive(Clone, Debug)]
pub struct CLedgerInfo {
    pub network_passphrase: String,
    pub sequence_number: u32,
    pub protocol_version: u32,
    pub timestamp: u64,
    pub base_reserve: u32,
    pub bucket_list_size: u64,
}

/// The ledger as the engine sees it during one call; the network is named by
/// the digest of its passphrase.
#[derive(Clone, Copy, Debug, PartialEq, Eq)]
pub struct LedgerInfo {
    pub protocol_version: u32,
    pub sequence_number: u32,
    pub timestamp: u64,
    pub network_id: [u8; 32],
    pub base_reserve: u32,
}

/// Builds the per-call ledger info from the caller's fields.
pub fn fill_ledger_info(c_ledger_info: &CLedgerInfo) -> (r: LedgerInfo)
    ensures
        r.protocol_version == c_ledger_info.protocol_version,
        r.sequence_number == c_ledger_info.sequence_number,
        r.timestamp == c_ledger_info.timestamp,
        r.base_reserve == c_ledger_info.base_reserve,
        r.network_id@ == sha256_of_str(c_ledger_info.network_passphrase@),
{
    LedgerInfo {
        protocol_version: c_ledger_info.protocol_version,
        sequence_number: c_ledger_info.sequence_number,
        timestamp: c_ledger_info.timestamp,
        network_id: sha256_str(c_ledger_info.network_passphrase.as_str()),
        base_reserve: c_ledger_info.base_reserve,
    }
}

} // verus!
