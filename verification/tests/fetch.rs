use gputools_replay::replay::error::FetchError;
use gputools_replay::replay::fetch::{
    completion_result, finish_fetch, pump_decision, response_outcome, setup_error,
    streamref_batch_plan, texture_batch_plan, wireframe_batch_plan, OutcomeSlot, Response,
};
use gputools_replay::replay::reply::{BufferRecord, RawReply};
use gputools_replay::replay::request::{
    DispatchUid, Point3D, Region, Size, TextureRequest, WireframeRequest,
};

fn raw(n: usize) -> RawReply {
    RawReply { unknown_len: n, info: vec![], data: vec![] }
}

#[test]
fn an_empty_batch_is_refused() {
    assert!(matches!(texture_batch_plan(&[]), Err(FetchError::EmptyBatch)));
    assert!(matches!(streamref_batch_plan(&[]), Err(FetchError::EmptyBatch)));
    assert!(matches!(wireframe_batch_plan(&[]), Err(FetchError::EmptyBatch)));
}

#[test]
fn texture_requests_set_size_region_and_depth_one() {
    let region = Region {
        origin: Point3D { x: 1, y: 2, z: 3 },
        size: Size { width: 8, height: 4 },
    };
    let plan = texture_batch_plan(&[TextureRequest::new(5, region, 1).with_slice_level(2, 3)]).unwrap();
    assert_eq!(plan.len(), 1);
    let w = plan[0];
    assert_eq!(w.stream_ref, 5);
    assert_eq!((w.size.width, w.size.height, w.size.depth), (8, 4, 1));
    assert_eq!((w.region.origin.x, w.region.origin.y, w.region.origin.z), (1, 2, 3));
    assert_eq!((w.plane, w.depth, w.slice, w.level), (1, 1, 2, 3));
    assert_eq!(streamref_batch_plan(&[3, 1, 2]).unwrap(), vec![3, 1, 2]);
    let wf = wireframe_batch_plan(&[WireframeRequest { dispatch_uid: DispatchUid(9), solid: true }]).unwrap();
    assert_eq!(wf, vec![(DispatchUid(9), true)]);
}

#[test]
fn setup_errors_name_the_class() {
    match setup_error("GTReplayFetchHeap", false) {
        FetchError::Setup(m) => assert_eq!(
            m,
            "the GTReplayFetchHeap class is not registered; GPUToolsReplay did not load"
        ),
        _ => panic!(),
    }
    match setup_error("GTReplayFetchHeap", true) {
        FetchError::Setup(m) => assert_eq!(m, "GTReplayFetchHeap could not be constructed"),
        _ => panic!(),
    }
}

#[test]
fn a_response_means_what_it_carries() {
    assert!(matches!(response_outcome(Response::Missing), Err(FetchError::NoResponse)));
    match response_outcome(Response::Delivered { error: Some("bad".to_string()), data: Some(vec![1]) }) {
        Err(FetchError::Replayer { message }) => assert_eq!(message, "bad"),
        _ => panic!(),
    }
    assert!(matches!(
        response_outcome(Response::Delivered { error: None, data: None }),
        Err(FetchError::NoData)
    ));
    assert!(matches!(
        response_outcome(Response::Delivered { error: None, data: Some(b"junk".to_vec()) }),
        Err(FetchError::Parse(_))
    ));
}

#[test]
fn an_observed_error_overrules_a_parsed_reply() {
    match completion_result(Ok(raw(0)), Some("observed".to_string())) {
        Err(FetchError::Replayer { message }) => assert_eq!(message, "observed"),
        _ => panic!(),
    }
    assert_eq!(completion_result(Ok(raw(4)), None).unwrap().unknown_len, 4);
    assert!(matches!(
        completion_result(Err(FetchError::NoData), Some("observed".to_string())),
        Err(FetchError::NoData)
    ));
}

#[test]
fn the_first_offered_outcome_wins() {
    let mut slot = OutcomeSlot::new();
    slot.offer(Ok(raw(1)));
    slot.offer(Ok(raw(2)));
    slot.offer(Err(FetchError::Timeout));
    assert_eq!(slot.take().unwrap().unwrap().unknown_len, 1);
    assert!(slot.take().is_none());
}

#[test]
fn waiting_ends_with_a_result_or_a_timeout() {
    assert!(pump_decision(None, false).is_none());
    assert!(matches!(pump_decision(None, true), Some(Err(FetchError::Timeout))));
    assert_eq!(pump_decision(Some(Ok(raw(3))), true).unwrap().unwrap().unknown_len, 3);
}

#[test]
fn finishing_a_fetch_puts_the_observer_first() {
    match finish_fetch::<BufferRecord>(Ok(raw(0)), Some("late".to_string())) {
        Err(FetchError::Replayer { message }) => assert_eq!(message, "late"),
        _ => panic!(),
    }
    assert!(matches!(
        finish_fetch::<BufferRecord>(Err(FetchError::Timeout), None),
        Err(FetchError::Timeout)
    ));
    let reply = finish_fetch::<BufferRecord>(Ok(raw(0)), None).unwrap();
    assert!(reply.records().is_empty());
}
