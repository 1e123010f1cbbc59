use gputools_replay::hl::bytes::Payload;
use gputools_replay::hl::error::Error;
use gputools_replay::hl::pipeline::{Pipeline, StageKind};
use plist::{Dictionary, Uid, Value};
use std::sync::Arc;

/// A minimal keyed-archive bplist of a pipeline payload: a root dictionary
/// whose `compute` key holds an array of one `{data, uniqueId}` dictionary,
/// and optionally a `PerformanceStatistics` array of one metrics dictionary.
fn build_pipeline_bplist(mach_o: &[u8], unique_id: u64, perf: Option<(&str, i64)>) -> Vec<u8> {
    let mut objects = vec![Value::String("$null".to_string())];
    let push = |v: Value, objects: &mut Vec<Value>| -> Uid {
        objects.push(v);
        Uid::new((objects.len() - 1) as u64)
    };

    let data_key = push(Value::String("data".to_string()), &mut objects);
    let unique_id_key = push(Value::String("uniqueId".to_string()), &mut objects);
    let data_val = push(Value::Data(mach_o.to_vec()), &mut objects);
    let unique_id_val = push(Value::Integer(unique_id.into()), &mut objects);
    let mut stage_dict = Dictionary::new();
    stage_dict.insert(
        "NS.keys".to_string(),
        Value::Array(vec![Value::Uid(data_key), Value::Uid(unique_id_key)]),
    );
    stage_dict.insert(
        "NS.objects".to_string(),
        Value::Array(vec![Value::Uid(data_val), Value::Uid(unique_id_val)]),
    );
    let stage_dict_ref = push(Value::Dictionary(stage_dict), &mut objects);

    let mut compute_arr = Dictionary::new();
    compute_arr.insert(
        "NS.objects".to_string(),
        Value::Array(vec![Value::Uid(stage_dict_ref)]),
    );
    let compute_arr_ref = push(Value::Dictionary(compute_arr), &mut objects);

    let mut root_keys = vec![Value::Uid(push(
        Value::String("compute".to_string()),
        &mut objects,
    ))];
    let mut root_vals = vec![Value::Uid(compute_arr_ref)];

    if let Some((metric_key, metric_val)) = perf {
        let mkey = push(Value::String(metric_key.to_string()), &mut objects);
        let mval = push(Value::Integer(metric_val.into()), &mut objects);
        let mut metrics_dict = Dictionary::new();
        metrics_dict.insert("NS.keys".to_string(), Value::Array(vec![Value::Uid(mkey)]));
        metrics_dict.insert("NS.objects".to_string(), Value::Array(vec![Value::Uid(mval)]));
        let metrics_dict_ref = push(Value::Dictionary(metrics_dict), &mut objects);

        let mut perf_arr = Dictionary::new();
        perf_arr.insert(
            "NS.objects".to_string(),
            Value::Array(vec![Value::Uid(metrics_dict_ref)]),
        );
        let perf_arr_ref = push(Value::Dictionary(perf_arr), &mut objects);

        root_keys.push(Value::Uid(push(
            Value::String("PerformanceStatistics".to_string()),
            &mut objects,
        )));
        root_vals.push(Value::Uid(perf_arr_ref));
    }

    let mut root_dict = Dictionary::new();
    root_dict.insert("NS.keys".to_string(), Value::Array(root_keys));
    root_dict.insert("NS.objects".to_string(), Value::Array(root_vals));
    let root_ref = push(Value::Dictionary(root_dict), &mut objects);
    archive(objects, root_ref)
}

fn archive(objects: Vec<Value>, root: Uid) -> Vec<u8> {
    let mut top = Dictionary::new();
    top.insert("root".to_string(), Value::Uid(root));
    let mut envelope = Dictionary::new();
    envelope.insert("$version".to_string(), Value::Integer(100_000.into()));
    envelope.insert(
        "$archiver".to_string(),
        Value::String("NSKeyedArchiver".to_string()),
    );
    envelope.insert("$top".to_string(), Value::Dictionary(top));
    envelope.insert("$objects".to_string(), Value::Array(objects));
    let mut bytes = Vec::new();
    Value::Dictionary(envelope)
        .to_writer_binary(&mut bytes)
        .expect("serialize test fixture bplist");
    bytes
}

fn pipeline(bytes: &[u8]) -> Pipeline {
    Pipeline::from_parts(10, 0x100bb4450, Payload::new(Arc::new(bytes.to_vec()), 0, bytes.len()))
}

#[test]
fn stages_reads_the_compute_stage_mach_o_and_unique_id() {
    let mach_o: Vec<u8> = [0xcf, 0xfa, 0xed, 0xfe].into_iter().chain(0..64).collect();
    let bytes = build_pipeline_bplist(&mach_o, 12, None);
    let p = pipeline(&bytes);
    assert_eq!(p.pipeline_id(), 10);
    assert_eq!(p.handle(), 0x100bb4450);
    assert_eq!(p.raw_bytes(), bytes.as_slice());

    let stages = p.stages().unwrap();
    assert_eq!(stages.len(), 1);
    assert_eq!(stages[0].kind, StageKind::Compute);
    assert_eq!(stages[0].unique_id, 12);
    assert_eq!(stages[0].mach_o, mach_o);
    assert!(stages[0].mach_o.starts_with(&[0xcf, 0xfa, 0xed, 0xfe]));
}

#[test]
fn performance_stats_reads_the_single_stage_dict() {
    let bytes = build_pipeline_bplist(&[0xcf, 0xfa, 0xed, 0xfe], 12, Some(("ALU instruction count", 9)));
    let p = pipeline(&bytes);
    let stats = p.performance_stats().unwrap();
    assert_eq!(
        stats
            .raw()
            .get("ALU instruction count")
            .and_then(|v| v.as_signed_integer()),
        Some(9)
    );
}

#[test]
fn performance_stats_errors_without_a_performance_statistics_key() {
    let bytes = build_pipeline_bplist(&[0xcf, 0xfa, 0xed, 0xfe], 12, None);
    let p = pipeline(&bytes);
    assert!(matches!(p.performance_stats(), Err(Error::BadPipeline(_))));
}

#[test]
fn performance_stats_errors_on_more_than_one_entry() {
    // The resolved graph, re-archived as a one-object graph, with a second
    // metrics dictionary appended: the unverified multi-stage shape must
    // error rather than pick or merge one.
    let mut stage = Dictionary::new();
    stage.insert("data".to_string(), Value::Data(vec![0xcf, 0xfa, 0xed, 0xfe]));
    stage.insert("uniqueId".to_string(), Value::Integer(1.into()));
    let mut first = Dictionary::new();
    first.insert("Instruction count".to_string(), Value::Integer(5.into()));
    let mut second = Dictionary::new();
    second.insert("Instruction count".to_string(), Value::Integer(9.into()));
    let mut resolved = Dictionary::new();
    resolved.insert("compute".to_string(), Value::Array(vec![Value::Dictionary(stage)]));
    resolved.insert(
        "PerformanceStatistics".to_string(),
        Value::Array(vec![Value::Dictionary(first), Value::Dictionary(second)]),
    );
    let objects = vec![Value::String("$null".to_string()), Value::Dictionary(resolved)];
    let bytes = archive(objects, Uid::new(1));

    let p = pipeline(&bytes);
    match p.performance_stats() {
        Err(Error::BadPipeline(m)) => assert_eq!(
            m,
            "PerformanceStatistics has 2 entries; only the ground-truthed single-stage shape is supported"
        ),
        _ => panic!("two statistics entries must be refused"),
    }
    assert_eq!(p.stages().unwrap().len(), 1);
}

#[test]
fn a_cyclic_graph_is_refused_not_followed_forever() {
    // Object 1 refers to itself.
    let objects = vec![Value::String("$null".to_string()), Value::Uid(Uid::new(1))];
    let p = pipeline(&archive(objects, Uid::new(1)));
    match p.stages() {
        Err(Error::BadPipeline(m)) => {
            assert_eq!(m, "archived object graph too deep (possible cycle)")
        }
        _ => panic!("a cycle must be refused"),
    }
}

#[test]
fn a_dangling_uid_is_named() {
    let objects = vec![Value::String("$null".to_string())];
    let p = pipeline(&archive(objects, Uid::new(7)));
    match p.performance_stats() {
        Err(Error::BadPipeline(m)) => assert_eq!(m, "UID 7 out of bounds"),
        _ => panic!("a dangling reference must be refused"),
    }
}

#[test]
fn a_stage_entry_without_data_is_named() {
    let mut stage = Dictionary::new();
    stage.insert("uniqueId".to_string(), Value::Integer(3.into()));
    let mut resolved = Dictionary::new();
    resolved.insert("vertex".to_string(), Value::Array(vec![Value::Dictionary(stage)]));
    let objects = vec![Value::String("$null".to_string()), Value::Dictionary(resolved)];
    let p = pipeline(&archive(objects, Uid::new(1)));
    match p.stages() {
        Err(Error::BadPipeline(m)) => assert_eq!(m, "vertex.data missing"),
        _ => panic!("a stage without data must be refused"),
    }
}
