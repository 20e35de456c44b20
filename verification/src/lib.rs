//! Invitations to a wedding and the answers guests give to them.
//!
//! The library holds the rules of the invitation service: which invite
//! identifiers are accepted, how an answer changes an invite, what the
//! notification mail says, where an invite is kept in blob storage, how
//! storing and loading an invite proceed, and how a request about an
//! invite (showing its page, or recording an answer) decides its next move.
//! The caller performs each storage request, mail or reply that these
//! decisions ask for and hands the outcome back.
pub mod flow;
pub mod guest_list;
pub mod invite;
pub mod notify;
pub mod query;
pub mod storage;
pub mod text;

pub use flow::{Answer, Effect, FlowEvent, Reply, RsvpFlow};
pub use guest_list::{invitation_line, new_invitation};
pub use invite::{AlreadyResponded, Invite, InviteId, InviteView, Language};
pub use notify::{envelope, Envelope, Mailbox, Notification};
pub use storage::{
    FetchEvent, FetchStep, FromBlobError, InviteFetch, InviteUpload, StorageAction, UploadEvent,
    UploadStep,
};
