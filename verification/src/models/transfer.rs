use vstd::prelude::*;

verus! {

/// A peer-to-peer transfer session.
#[derive(Debug, Clone, PartialEq, Eq)]
pub struct TransferSession {
    pub id: u128,
    pub sender_id: Option<u128>,
    pub token: String,
    pub file_name: String,
    pub file_size: i64,
    pub is_active: bool,
    pub created_at: i64,
    pub expires_at: i64,
}

/// Body of a transfer-session creation.
#[derive(Debug, Clone, PartialEq, Eq)]
pub struct CreateTransferRequest {
    pub file_name: String,
    pub file_size: i64,
}

/// What a client is told of a new transfer session.
#[derive(Debug, Clone, PartialEq, Eq)]
pub struct TransferSessionResponse {
    pub id: u128,
    pub token: String,
    pub file_name: String,
    pub file_size: i64,
    pub expires_at: i64,
}

/// Signalling messages exchanged over the WebSocket of a WebRTC transfer.
#[derive(Debug, Clone, PartialEq, Eq)]
pub enum SignalMessage {
    /// The sender offers a file transfer.
    Offer { sdp: String },
    /// The receiver answers the offer.
    Answer { sdp: String },
    /// An ICE candidate.
    IceCandidate { candidate: String },
    /// A peer joined the session.
    PeerJoined { role: String },
    /// A peer left the session.
    PeerLeft,
    /// An error report.
    Error { message: String },
}

} // verus!
