//! The protocol method handlers' decisions. The handlers themselves are
//! deliberate stubs — business logic is out of scope — but what the
//! initialize handler answers is a fixed, verified decision: the server
//! advertises incremental text-document synchronisation and nothing else.

use vstd::prelude::*;

verus! {

/// How the server asks the client to report text document changes.
#[derive(Clone, Copy, PartialEq, Eq, Structural, Debug)]
pub enum SyncKind {
    NoSync,
    Full,
    Incremental,
}

/// The initialize handler's answer: which capabilities the server claims,
/// and whether it names itself.
pub struct InitializeReply {
    pub text_document_sync: Option<SyncKind>,
    pub offers_server_info: bool,
}

/// The one capability this server claims: incremental text-document
/// synchronisation, with no server info attached.
pub fn initialize_reply() -> (r: InitializeReply)
    ensures
        r.text_document_sync == Some(SyncKind::Incremental),
        !r.offers_server_info,
{
    InitializeReply {
        text_document_sync: Some(SyncKind::Incremental),
        offers_server_info: false,
    }
}

} // verus!
