//! The replay client's opaque framework types and the recorded type
//! encoding its memory layout was derived from.

use vstd::prelude::*;

verus! {

/// An APR memory pool (`apr_pool_t`), only ever handled by pointer.
pub struct AprPool {
    _opaque: [u8; 0],
}

/// The framework's replay controller, only ever handled by pointer.
pub struct GTMTLReplayController {
    _opaque: [u8; 0],
}

/// The framework's replay client, only ever handled by pointer.
pub struct GTMTLReplayClient {
    _opaque: [u8; 0],
}

/// The Objective-C type encoding of `-[GTMTLReplayService
/// initWithContext:]`'s argument, as recorded when the client's size was
/// derived from it.
pub const CLIENT_ENCODING: &'static str = "^{GTMTLReplayClient=^{apr_pool_t}^{GTMTLReplayController}Q{?=QQQdII}{?={?=II}IIfb1b1b1b1b28}@{GTMTLReplayWireframeRenderer=@{GTMTLReplayWireframeRenderPassDescriptor=@@SB[5C]}Q@@@@@@@@@@@@@@@@@}{GTMTLReplayOperationQueues=@@@}@@}";

} // verus!
