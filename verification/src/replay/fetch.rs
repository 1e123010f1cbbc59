//! The decisions around one fetch: what each request object is set to,
//! what a delivered response means, which of several outcomes wins, when
//! waiting gives up, and what the caller finally receives.

use crate::replay::error::FetchError;
use crate::replay::reply::{RawReply, Record, Reply, decoded_as, spec_raw_reply};
use crate::replay::request::{DispatchUid, TextureRequest, WireframeRequest};
use crate::replay::util::{truncate, truncated};
use crate::sys::replay::{GTPoint3D, GTRegion, GTSize};
use vstd::prelude::*;
use vstd::string::*;

verus! {

broadcast use vstd::std_specs::vec::group_vec_axioms;

/// What one texture fetch object is set to.
#[derive(Debug, Clone, Copy)]
pub struct TextureWire {
    /// The texture's stream reference.
    pub stream_ref: u64,
    /// The size (the region's, depth 1).
    pub size: GTSize,
    /// The region (depth 1).
    pub region: GTRegion,
    /// The plane.
    pub plane: u32,
    /// The depth: always 1.
    pub depth: u32,
    /// The array slice.
    pub slice: u32,
    /// The mip level.
    pub level: u32,
}

/// What a texture request sets on its fetch object.
pub open spec fn spec_texture_wire(r: TextureRequest) -> TextureWire {
    let region = GTRegion {
        origin: GTPoint3D { x: r.region.origin.x, y: r.region.origin.y, z: r.region.origin.z },
        size: GTSize { width: r.region.size.width, height: r.region.size.height, depth: 1 },
    };
    TextureWire {
        stream_ref: r.stream_ref,
        size: region.size,
        region,
        plane: r.plane,
        depth: 1,
        slice: r.slice,
        level: r.level,
    }
}

/// The fetch objects a batch of texture requests builds, one per request
/// in order; an empty batch is refused.
pub fn texture_batch_plan(requests: &[TextureRequest]) -> (r: Result<Vec<TextureWire>, FetchError>)
    ensures
        requests@.len() == 0 ==> r matches Err(FetchError::EmptyBatch),
        requests@.len() > 0 ==> (r matches Ok(v) && v@.len() == requests@.len() && forall|i: int|
            0 <= i < requests@.len() ==> v@[i] == spec_texture_wire(#[trigger] requests@[i])),
{
    if requests.len() == 0 {
        return Err(FetchError::EmptyBatch);
    }
    let mut out: Vec<TextureWire> = Vec::new();
    let mut i: usize = 0;
    while i < requests.len()
        invariant
            i <= requests@.len(),
            out@.len() == i,
            forall|k: int| 0 <= k < i ==> out@[k] == spec_texture_wire(#[trigger] requests@[k]),
        decreases requests@.len() - i,
    {
        let req = requests[i];
        let region = req.region.to_gt();
        out.push(
            TextureWire {
                stream_ref: req.stream_ref,
                size: region.size,
                region,
                plane: req.plane,
                depth: 1,
                slice: req.slice,
                level: req.level,
            },
        );
        i = i + 1;
    }
    Ok(out)
}

/// The stream references a buffer, heap, acceleration-structure or
/// pipeline batch sets, one fetch object each in order; an empty batch is
/// refused.
pub fn streamref_batch_plan(stream_refs: &[u64]) -> (r: Result<Vec<u64>, FetchError>)
    ensures
        stream_refs@.len() == 0 ==> r matches Err(FetchError::EmptyBatch),
        stream_refs@.len() > 0 ==> (r matches Ok(v) && v@ == stream_refs@),
{
    if stream_refs.len() == 0 {
        return Err(FetchError::EmptyBatch);
    }
    Ok(vstd::slice::slice_to_vec(stream_refs))
}

/// The dispatch uid and solidity each wireframe fetch object is set to, in
/// order; an empty batch is refused.
pub fn wireframe_batch_plan(requests: &[WireframeRequest]) -> (r: Result<Vec<(DispatchUid, bool)>, FetchError>)
    ensures
        requests@.len() == 0 ==> r matches Err(FetchError::EmptyBatch),
        requests@.len() > 0 ==> (r matches Ok(v) && v@.len() == requests@.len() && forall|i: int|
            0 <= i < requests@.len() ==> v@[i] == (
                #[trigger] requests@[i].dispatch_uid,
                requests@[i].solid,
            )),
{
    if requests.len() == 0 {
        return Err(FetchError::EmptyBatch);
    }
    let mut out: Vec<(DispatchUid, bool)> = Vec::new();
    let mut i: usize = 0;
    while i < requests.len()
        invariant
            i <= requests@.len(),
            out@.len() == i,
            forall|k: int|
                0 <= k < i ==> out@[k] == (#[trigger] requests@[k].dispatch_uid, requests@[k].solid),
        decreases requests@.len() - i,
    {
        let req = requests[i];
        out.push((req.dispatch_uid, req.solid));
        i = i + 1;
    }
    Ok(out)
}

/// The error for a request class that could not be had: not registered
/// with the runtime, or registered but not constructible.
pub fn setup_error(class_name: &str, registered: bool) -> (e: FetchError)
    ensures
        !registered ==> (e matches FetchError::Setup(s) && s@ == "the "@ + class_name@
            + " class is not registered; GPUToolsReplay did not load"@),
        registered ==> (e matches FetchError::Setup(s) && s@ == class_name@
            + " could not be constructed"@),
{
    if !registered {
        FetchError::Setup(
            String::from_str("the ").concat(class_name).concat(
                " class is not registered; GPUToolsReplay did not load",
            ),
        )
    } else {
        FetchError::Setup(String::from_str(class_name).concat(" could not be constructed"))
    }
}

/// A response as the completion handler receives it.
pub enum Response {
    /// No response object, or one that does not answer `data` and `error`.
    Missing,
    /// A response: its error's description, if it carries one, and its
    /// data, if it carries any.
    Delivered {
        /// The error's localized description.
        error: Option<String>,
        /// The reply bytes.
        data: Option<Vec<u8>>,
    },
}

/// What a response means: a missing response, a reported error (its
/// description trimmed), missing data, or the data's parsed envelope.
pub fn response_outcome(response: Response) -> (r: Result<RawReply, FetchError>)
    ensures
        match response {
            Response::Missing => r matches Err(FetchError::NoResponse),
            Response::Delivered { error: Some(d), data: _ } => (r matches Err(
                FetchError::Replayer { message },
            ) && message@ == truncated(d@)),
            Response::Delivered { error: None, data: None } => r matches Err(FetchError::NoData),
            Response::Delivered { error: None, data: Some(bytes) } => match spec_raw_reply(bytes@) {
                Ok((u, info, data)) => r matches Ok(raw) && raw.unknown_len == u && raw.info@ == info
                    && raw.data@ == data,
                Err(m) => r matches Err(FetchError::Parse(s)) && s@ == m,
            },
        },
{
    match response {
        Response::Missing => Err(FetchError::NoResponse),
        Response::Delivered { error, data } => {
            if let Some(d) = error {
                return Err(FetchError::Replayer { message: truncate(d.as_str()) });
            }
            match data {
                Some(bytes) => RawReply::parse(bytes.as_slice()),
                None => Err(FetchError::NoData),
            }
        },
    }
}

/// What the completion handler delivers: a parsed reply is overruled by an
/// error the observer recorded since the fetch began.
pub fn completion_result(result: Result<RawReply, FetchError>, observed: Option<String>) -> (r: Result<
    RawReply,
    FetchError,
>)
    ensures
        match result {
            Ok(reply) => match observed {
                Some(m) => (r matches Err(FetchError::Replayer { message }) && message@ == m@),
                None => r == Ok::<RawReply, FetchError>(reply),
            },
            Err(e) => r == Err::<RawReply, FetchError>(e),
        },
{
    match result {
        Ok(reply) => match observed {
            Some(message) => Err(FetchError::Replayer { message }),
            None => Ok(reply),
        },
        Err(e) => Err(e),
    }
}

/// The single outcome of one fetch: the first result delivered is kept,
/// later ones are dropped.
pub struct OutcomeSlot {
    slot: Option<Result<RawReply, FetchError>>,
}

impl OutcomeSlot {
    /// The result held, if any.
    pub closed spec fn spec_slot(&self) -> Option<Result<RawReply, FetchError>> {
        self.slot
    }

    /// An empty slot.
    pub fn new() -> (s: OutcomeSlot)
        ensures
            s.spec_slot() is None,
    {
        OutcomeSlot { slot: None }
    }

    /// Deliver a result: kept only if none was delivered before.
    pub fn offer(&mut self, result: Result<RawReply, FetchError>)
        ensures
            final(self).spec_slot() == if old(self).spec_slot() is None {
                Some(result)
            } else {
                old(self).spec_slot()
            },
    {
        if self.slot.is_none() {
            self.slot = Some(result);
        }
    }

    /// Take the result held, leaving the slot empty.
    pub fn take(&mut self) -> (r: Option<Result<RawReply, FetchError>>)
        ensures
            r == old(self).spec_slot(),
            final(self).spec_slot() is None,
    {
        self.slot.take()
    }
}

/// One step of waiting for a fetch: a result taken from the slot ends the
/// wait with it; with none, a passed deadline ends it with a timeout, and
/// otherwise the wait goes on (`None`).
pub fn pump_decision(taken: Option<Result<RawReply, FetchError>>, expired: bool) -> (r: Option<
    Result<RawReply, FetchError>,
>)
    ensures
        match taken {
            Some(x) => r == Some(x),
            None => if expired {
                r matches Some(Err(FetchError::Timeout))
            } else {
                r is None
            },
        },
{
    match taken {
        Some(x) => Some(x),
        None => if expired {
            Some(Err(FetchError::Timeout))
        } else {
            None
        },
    }
}

/// What a fetch finally returns: an error the observer recorded since the
/// fetch began comes first, then the wait's own error, then the reply's
/// decoding into typed records.
pub fn finish_fetch<T: Record>(result: Result<RawReply, FetchError>, observed: Option<String>) -> (r: Result<
    Reply<T>,
    FetchError,
>)
    ensures
        match observed {
            Some(m) => (r matches Err(FetchError::Replayer { message }) && message@ == m@),
            None => match result {
                Err(e) => (r matches Err(x) && x == e),
                Ok(raw) => decoded_as(raw, r),
            },
        },
{
    if let Some(message) = observed {
        return Err(FetchError::Replayer { message });
    }
    match result {
        Err(e) => Err(e),
        Ok(raw) => Reply::decode(raw),
    }
}

/// Offering results keeps the first: whatever is offered after it, taking
/// gives back the first result offered to an empty slot.
pub proof fn lemma_first_offer_wins(first: Result<RawReply, FetchError>, later: Seq<Result<RawReply, FetchError>>)
    ensures
        later.fold_left(
            Some(first),
            |s: Option<Result<RawReply, FetchError>>, x: Result<RawReply, FetchError>|
                if s is None {
                    Some(x)
                } else {
                    s
                },
        ) == Some(first),
    decreases later.len(),
{
    if later.len() > 0 {
        lemma_first_offer_wins(first, later.drop_last());
    }
}

} // verus!
