use gputools_replay::replay::error::FetchError;
use gputools_replay::replay::reply::{
    offset_name, AccelRecord, BufferRecord, HeapRecord, PipelineRecord, RawReply, Record, Reply,
    TextureRecord, WireframeRecord, BYTES_PER_IMAGE_OFF, BYTES_PER_ROW_OFF, DATA_OFFSET_OFF,
    HEIGHT_OFF, PIPELINE_HANDLE_OFF, PIPELINE_ID_OFF, PIXEL_FORMAT_OFF, PLANE_LEVEL_OFF,
    REQUEST_ORDINAL_OFF, SIZE_OFF, SLICE_OFF, STREAM_REF_OFF, WIDTH_OFF,
    WIREFRAME_DISPATCH_UID_OFF,
};
use plist::{Dictionary, Uid, Value};
use std::time::{Duration, SystemTime, UNIX_EPOCH};

fn chunk(fields: &[(usize, u32)]) -> [u8; 80] {
    let mut c = [0u8; 80];
    for &(o, v) in fields {
        c[o..o + 4].copy_from_slice(&v.to_le_bytes());
    }
    c
}

#[test]
fn decodes_a_texture_record() {
    let c = chunk(&[
        (REQUEST_ORDINAL_OFF, 25),
        (STREAM_REF_OFF, 24),
        (DATA_OFFSET_OFF, 4096),
        (SIZE_OFF, 16384),
        (WIDTH_OFF, 64),
        (HEIGHT_OFF, 64 | (1 << 16)),
        (PIXEL_FORMAT_OFF, 80),
        (BYTES_PER_ROW_OFF, 256),
        (BYTES_PER_IMAGE_OFF, 16384),
    ]);
    let r = TextureRecord::decode(&c);
    assert_eq!(r.request_ordinal, 25);
    assert_eq!(r.stream_ref, 24);
    assert_eq!(r.data_offset, 4096);
    assert_eq!(r.size, 16384);
    assert_eq!(r.width, 64);
    assert_eq!(r.height, 64);
    assert_eq!(r.depth, 1);
    assert_eq!(r.pixel_format, 80);
    assert_eq!(r.bytes_per_row, 256);
    assert_eq!(r.bytes_per_image, 16384);
    assert_eq!(r.slice, 0);
    assert_eq!(r.plane, 0);
    assert_eq!(r.level, 0);
    assert_eq!(r.data_range(), (4096, 16384));
}

#[test]
fn decodes_the_self_describing_plane_slice_level() {
    let c = chunk(&[(SLICE_OFF, 1 << 16), (PLANE_LEVEL_OFF, (1 << 8) | 2)]);
    let r = TextureRecord::decode(&c);
    assert_eq!(r.slice, 1);
    assert_eq!(r.plane, 1);
    assert_eq!(r.level, 2);
}

#[test]
fn decodes_identity_layout_records() {
    let c = chunk(&[(STREAM_REF_OFF, 42), (DATA_OFFSET_OFF, 1000), (SIZE_OFF, 2000)]);

    let b = BufferRecord::decode(&c);
    assert_eq!(b.stream_ref, 42);
    assert_eq!(b.data_range(), (1000, 2000));

    let h = HeapRecord::decode(&c);
    assert_eq!(h.stream_ref, 42);
    assert_eq!(h.data_range(), (1000, 2000));

    let a = AccelRecord::decode(&c);
    assert_eq!(a.stream_ref, 42);
    assert_eq!(a.data_range(), (1000, 2000));
}

#[test]
fn decodes_a_pipeline_record() {
    let mut c = [0u8; 80];
    c[PIPELINE_ID_OFF..PIPELINE_ID_OFF + 4].copy_from_slice(&1184u32.to_le_bytes());
    c[PIPELINE_HANDLE_OFF..PIPELINE_HANDLE_OFF + 8]
        .copy_from_slice(&0x78f59d3000u64.to_le_bytes());
    c[DATA_OFFSET_OFF..DATA_OFFSET_OFF + 4].copy_from_slice(&36758u32.to_le_bytes());
    c[SIZE_OFF..SIZE_OFF + 4].copy_from_slice(&567625u32.to_le_bytes());

    let r = PipelineRecord::decode(&c);
    assert_eq!(r.pipeline_id, 1184);
    assert_eq!(r.handle, 0x78f59d3000);
    assert_eq!(r.data_offset, 36758);
    assert_eq!(r.size, 567625);
    assert_eq!(r.data_range(), (36758, 567625));
}

#[test]
fn decodes_a_wireframe_record() {
    let c = chunk(&[
        (STREAM_REF_OFF, u32::MAX),
        (WIREFRAME_DISPATCH_UID_OFF, 325),
        (DATA_OFFSET_OFF, 8192),
        (SIZE_OFF, 320 * 288),
        (WIDTH_OFF, 320),
        (HEIGHT_OFF, 288),
        (PIXEL_FORMAT_OFF, 10),
    ]);
    let r = WireframeRecord::decode(&c);
    assert_eq!(r.dispatch_uid, 325);
    assert_eq!(r.width, 320);
    assert_eq!(r.height, 288);
    assert_eq!(r.pixel_format, 10);
    assert_eq!(r.data_range(), (8192, 320 * 288));
    assert_eq!(r.unmapped[&STREAM_REF_OFF], u32::MAX);
    assert_eq!(offset_name(STREAM_REF_OFF), "0x08");
}

#[test]
fn decode_rejects_a_record_whose_payload_exceeds_the_data_blob() {
    let raw = RawReply {
        unknown_len: 0,
        info: chunk(&[(DATA_OFFSET_OFF, 100), (SIZE_OFF, 50)]).to_vec(),
        data: vec![0u8; 10],
    };
    let res = Reply::<TextureRecord>::decode(raw);
    assert!(matches!(res, Err(FetchError::Parse(_))));
}

#[test]
fn decode_accepts_a_record_whose_payload_exactly_fills_the_data_blob() {
    let raw = RawReply {
        unknown_len: 0,
        info: chunk(&[(DATA_OFFSET_OFF, 0), (SIZE_OFF, 10)]).to_vec(),
        data: vec![7u8; 10],
    };
    let reply = Reply::<TextureRecord>::decode(raw).unwrap();
    assert_eq!(reply.payload(&reply.records()[0]), &[7u8; 10]);
}

#[test]
fn decode_rejects_a_table_that_is_not_whole_records() {
    let raw = RawReply {
        unknown_len: 0,
        info: vec![0u8; 81],
        data: vec![],
    };
    match Reply::<BufferRecord>::decode(raw) {
        Err(FetchError::Parse(m)) => assert!(m.contains("81"), "{m}"),
        _ => panic!("a ragged table must not decode"),
    }
}

/// A keyed-archive envelope whose root payload dictionary maps the given
/// keys to the given values (each value stored in `$objects` and referenced
/// by UID).
fn envelope(pairs: Vec<(&str, Value)>) -> Vec<u8> {
    let mut objects = vec![Value::String("$null".to_string())];
    let mut keys = Vec::new();
    let mut vals = Vec::new();
    for (k, v) in pairs {
        objects.push(Value::String(k.to_string()));
        keys.push(Value::Uid(Uid::new((objects.len() - 1) as u64)));
        objects.push(v);
        vals.push(Value::Uid(Uid::new((objects.len() - 1) as u64)));
    }
    let mut payload = Dictionary::new();
    payload.insert("NS.keys".to_string(), Value::Array(keys));
    payload.insert("NS.objects".to_string(), Value::Array(vals));
    objects.push(Value::Dictionary(payload));
    let root = Uid::new((objects.len() - 1) as u64);
    let mut top = Dictionary::new();
    top.insert("root".to_string(), Value::Uid(root));
    let mut env = Dictionary::new();
    env.insert("$archiver".to_string(), Value::String("NSKeyedArchiver".to_string()));
    env.insert("$top".to_string(), Value::Dictionary(top));
    env.insert("$objects".to_string(), Value::Array(objects));
    let mut bytes = Vec::new();
    Value::Dictionary(env).to_writer_binary(&mut bytes).unwrap();
    bytes
}

fn ns_array(n: usize) -> Value {
    let mut d = Dictionary::new();
    d.insert("NS.objects".to_string(), Value::Array(vec![Value::Integer(0.into()); n]));
    Value::Dictionary(d)
}

#[test]
fn parses_a_keyed_archive_envelope() {
    let bytes = envelope(vec![
        ("unknown", ns_array(0)),
        ("info", Value::Data(vec![1; 80])),
        ("data", Value::Data(vec![2, 3, 4])),
        ("ignored", Value::Boolean(true)),
    ]);
    let raw = RawReply::parse(&bytes).unwrap();
    assert_eq!(raw.unknown_len, 0);
    assert_eq!(raw.info, vec![1; 80]);
    assert_eq!(raw.data, vec![2, 3, 4]);
}

#[test]
fn a_missing_envelope_key_is_named() {
    let bytes = envelope(vec![("unknown", ns_array(2)), ("info", Value::Data(vec![]))]);
    match RawReply::parse(&bytes) {
        Err(FetchError::Parse(m)) => assert_eq!(m, "missing key `data`"),
        _ => panic!("an envelope without data must not parse"),
    }
    let bytes = envelope(vec![
        ("unknown", ns_array(2)),
        ("info", Value::Boolean(false)),
        ("data", Value::Data(vec![])),
    ]);
    match RawReply::parse(&bytes) {
        Err(FetchError::Parse(m)) => assert_eq!(m, "`info` is not data"),
        _ => panic!("non-data info must not parse"),
    }
}

#[test]
fn bytes_that_are_no_property_list_do_not_parse() {
    assert!(matches!(
        RawReply::parse(b"not a plist at all"),
        Err(FetchError::Parse(_))
    ));
}

#[test]
fn a_longer_chunk_decodes_from_its_first_record() {
    let c = chunk(&[(STREAM_REF_OFF, 7), (WIDTH_OFF, 3), (PLANE_LEVEL_OFF, 5)]);
    let mut longer = c.to_vec();
    longer.extend_from_slice(&[0xff; 24]);
    let a = TextureRecord::decode(&c);
    let b = TextureRecord::decode(&longer);
    assert_eq!(b.stream_ref, 7);
    assert_eq!(b.width, 3);
    assert_eq!(b.level, 5);
    assert_eq!(a.unmapped, b.unmapped);
}

#[test]
fn a_date_before_year_zero_parses_without_formatting_it() {
    // Around the year -2000: a date no RFC 3339 text can show.
    let early = UNIX_EPOCH - Duration::from_secs(125_000_000_000);
    let bytes = envelope(vec![
        ("unknown", ns_array(1)),
        ("info", Value::Data(vec![])),
        ("data", Value::Data(vec![5])),
        ("when", Value::Date(SystemTime::from(early).into())),
    ]);
    let raw = RawReply::parse(&bytes).unwrap();
    assert_eq!(raw.unknown_len, 1);
    assert_eq!(raw.data, vec![5]);
}

#[test]
fn a_property_list_nested_too_deep_is_refused_not_overflowed() {
    let mut v = Value::Boolean(true);
    for _ in 0..300 {
        v = Value::Array(vec![v]);
    }
    let bytes = envelope(vec![
        ("unknown", ns_array(0)),
        ("info", Value::Data(vec![])),
        ("data", Value::Data(vec![])),
        ("deep", v),
    ]);
    match RawReply::parse(&bytes) {
        Err(FetchError::Parse(m)) => assert_eq!(m, "property list nested too deep"),
        _ => panic!("a 300-deep property list must be refused"),
    }
}
