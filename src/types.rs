//! Log records, as received and in canonical form.
use vstd::prelude::*;

verus! {

/// One log record as the management canister returns it.
#[derive(Debug, Clone)]
pub struct CanisterLogRecord {
    pub idx: u64,
    pub timestamp_nanos: u64,
    pub content: Vec<u8>,
}

/// The response of a `fetch_canister_logs` query.
#[derive(Debug, Clone)]
pub struct FetchCanisterLogsResponse {
    pub canister_log_records: Vec<CanisterLogRecord>,
}

/// One canonical log record: its index, its time in whole seconds since the
/// Unix epoch, and a printable message.
#[derive(Debug)]
pub struct EventLog {
    pub index: u64,
    pub timestamp: i64,
    pub logs: String,
}

impl EventLog {
    pub fn new(index: u64, timestamp: i64, logs: String) -> (r: Self)
        ensures
            r.index == index,
            r.timestamp == timestamp,
            r.logs@ == logs@,
    {
        Self { index, timestamp, logs }
    }
}

/// The bytes that a principal's text form denotes, where the text is a
/// valid principal.
pub uninterp spec fn principal_bytes_of_text(s: Seq<char>) -> Option<Seq<u8>>;

#[verifier::external_type_specification]
#[verifier::external_body]
pub struct ExPrincipalError(candid::types::principal::PrincipalError);

/// Relies on candid::Principal::from_text, which checks the grouping, the
/// base-32 digits and the checksum of the text, and on Principal::as_slice for
/// the bytes of the principal it gives.
#[verifier::external_body]
fn principal_from_text(s: &str) -> (r: Result<Vec<u8>, candid::types::principal::PrincipalError>)
    ensures
        match r {
            Ok(b) => principal_bytes_of_text(s@) == Some(b@),
            Err(_) => principal_bytes_of_text(s@) is None,
        },
{
    candid::Principal::from_text(s).map(|p| p.as_slice().to_vec())
}

/// The identifier of an actor, a canister or a user, as its bytes.
#[derive(Debug, Clone, PartialEq, Eq)]
pub struct ActorId {
    pub bytes: Vec<u8>,
}

/// Who sends a call: the selected identity, or a wallet canister.
#[derive(Debug, Clone, PartialEq, Eq)]
pub enum CallSender {
    SelectedId,
    Wallet(ActorId),
}

/// Why a wallet could not be chosen as the sender.
#[derive(Debug)]
pub enum CallSenderFromWalletError {
    /// The text is not a valid principal.
    ParsePrincipalFromIdFailed(String, candid::types::principal::PrincipalError),
}

impl CallSender {
    /// The sender named by an optional wallet principal: the selected
    /// identity when none is given, else the wallet whose principal the text
    /// denotes.
    pub fn from(wallet_principal_or_identity_name: &Option<String>) -> (r: Result<
        Self,
        CallSenderFromWalletError,
    >)
        ensures
            match wallet_principal_or_identity_name {
                None => r matches Ok(CallSender::SelectedId),
                Some(s) => match principal_bytes_of_text(s@) {
                    Some(b) => r matches Ok(CallSender::Wallet(id)) && id.bytes@ == b,
                    None => r matches Err(
                        CallSenderFromWalletError::ParsePrincipalFromIdFailed(t, _),
                    ) && t@ == s@,
                },
            },
    {
        match wallet_principal_or_identity_name {
            Some(s) => match principal_from_text(s.as_str()) {
                Ok(bytes) => Ok(CallSender::Wallet(ActorId { bytes })),
                Err(e) => Err(
                    CallSenderFromWalletError::ParsePrincipalFromIdFailed(s.clone(), e),
                ),
            },
            None => Ok(CallSender::SelectedId),
        }
    }
}

} // verus!
