//! Records and request bodies. Identifiers are the 128-bit value of a UUID;
//! timestamps are microseconds since the Unix epoch (UTC).

pub mod file;
pub mod folder;
pub mod share;
pub mod transfer;
pub mod user;

pub use file::{FileListParams, FileMoveRequest, FileRecord, FileRenameRequest, FileUploadParams};
pub use folder::{CreateFolderRequest, Folder, RenameFolderRequest};
pub use share::{CreateShareLinkRequest, ShareAccessRequest, ShareLink, ShareLinkResponse};
pub use transfer::{CreateTransferRequest, SignalMessage, TransferSession, TransferSessionResponse};
pub use user::UserStorage;
