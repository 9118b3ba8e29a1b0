//! Sync wire types: change envelopes and push/pull payloads.

use vstd::prelude::*;

verus! {

/// A JSON value, carried through unchanged.
#[verifier::external_type_specification]
#[verifier::external_body]
pub struct ExJsonValue(serde_json::Value);

/// Whether a change writes a row or soft-deletes it.
#[derive(Debug, Clone, Copy, PartialEq, Eq, Structural)]
pub enum ChangeOp {
    Upsert,
    Delete,
}

/// One change to one row, as it travels between devices.
#[derive(Debug, Clone)]
pub struct ChangeEnvelope {
    pub entity: String,
    pub id: String,
    pub op: ChangeOp,
    pub data: Option<serde_json::Value>,
    pub updated_at: i64,
    pub device_id: String,
    pub device_hostname: String,
}

/// A batch of encrypted changes sent by a device.
#[derive(Debug, Clone)]
pub struct PushRequest {
    pub device_id: String,
    pub device_hostname: String,
    pub changes: Vec<EncryptedChange>,
}

/// One encrypted change: a Base64 nonce and a Base64 ciphertext.
#[derive(Debug, Clone)]
pub struct EncryptedChange {
    pub nonce: String,
    pub ciphertext: String,
}

/// Where the next pull starts: the server's receive time and change id of the last change
/// already pulled.
#[derive(Debug, Clone, Copy, PartialEq, Eq, Structural)]
pub struct PullCursor {
    pub received_at: i64,
    pub change_id: i64,
}

/// A page of encrypted changes from the server.
#[derive(Debug, Clone)]
pub struct PullResponse {
    pub changes: Vec<EncryptedChange>,
    pub timestamp: i64,
    pub has_more: bool,
}

} // verus!
