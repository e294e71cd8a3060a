use rust_interface::host::ArtifactId;
use rust_interface::host::ArtifactProtobufSpec;
use rust_interface::host::CallInfo;
use rust_interface::host::Caller;
use rust_interface::host::ExecutionContext;
use rust_interface::host::InstanceDescriptor;
use rust_interface::host::InstanceSpec;
use rust_interface::host::PublicKey;
use rust_interface::host::StateHashAggregator;
use rust_interface::merkledb_interface::common::parse_string;
use rust_interface::types::contains_nul;
use rust_interface::types::convert_string;
use rust_interface::types::into_ptr_and_len;
use rust_interface::types::PythonResult;
use rust_interface::types::RawArtifactId;
use rust_interface::types::RawArtifactProtobufSpec;
use rust_interface::types::RawCallInfo;
use rust_interface::types::RawCaller;
use rust_interface::types::RawExecutionContext;
use rust_interface::types::RawHash;
use rust_interface::types::RawIndexAccess;
use rust_interface::types::RawInstanceDescriptor;
use rust_interface::types::RawInstanceSpec;
use rust_interface::types::RawProtoSourceFile;
use rust_interface::types::RawStateHashAggregator;
use rust_interface::types::RawString;
use rust_interface::types::ReadAccess;

fn sample() -> ArtifactId {
    ArtifactId::new(2, "sample")
}

#[test]
fn strings_are_marshaled_with_a_terminating_nul() {
    let s = convert_string("sample");
    assert_eq!(s.as_bytes_with_nul(), &b"sample\0"[..]);
    assert_eq!(s.to_bytes(), b"sample".to_vec());
    let empty = convert_string("");
    assert_eq!(empty.as_bytes_with_nul(), &[0u8][..]);
}

#[test]
fn strings_round_trip_through_the_boundary() {
    for text in ["", "a", "sample", "ünïcödé ✓", "with space", "\u{10FFFF}"] {
        let raw = convert_string(text);
        assert_eq!(raw.to_string_lossy(), text);
        assert_eq!(parse_string(raw.as_bytes_with_nul()), text);
    }
}

#[test]
fn nul_is_detected() {
    assert!(!contains_nul("sample"));
    assert!(!contains_nul(""));
    assert!(contains_nul("sam\0ple"));
    assert!(contains_nul("\0"));
}

#[test]
fn parsing_stops_at_the_first_nul() {
    assert_eq!(parse_string(b"sample\0junk\0"), "sample");
    assert_eq!(parse_string(b"\0"), "");
    assert_eq!(parse_string(b""), "");
    assert_eq!(parse_string(b"no terminator"), "no terminator");
    let raw = RawString::from_bytes(b"abc\0def");
    assert_eq!(raw.to_bytes(), b"abc".to_vec());
    assert_eq!(raw.clone(), raw);
}

#[test]
fn malformed_utf8_is_read_lossily() {
    assert_eq!(parse_string(&[0xff, b'a', 0]), "\u{FFFD}a");
    assert_eq!(parse_string(&[b'o', b'k', 0xc3, 0]), "ok\u{FFFD}");
}

#[test]
fn artifact_identity_round_trips() {
    let artifact = sample();
    assert!(artifact.is_marshalable());
    let raw = RawArtifactId::from_artifact_id(&artifact);
    assert_eq!(raw.runtime_id, 2);
    assert_eq!(raw.name.as_bytes_with_nul(), &b"sample\0"[..]);
    let back = ArtifactId::from_raw(&raw);
    assert_eq!(back, artifact);
    assert!(back.same_as(&artifact));
    assert!(!back.same_as(&ArtifactId::new(3, "sample")));
    assert!(!back.same_as(&ArtifactId::new(2, "other")));
    assert!(!ArtifactId::new(2, "sam\0ple").is_marshalable());
    assert_eq!(artifact.clone(), artifact);
}

#[test]
fn instance_spec_round_trips() {
    let spec = InstanceSpec { id: 7, name: "instance".to_string(), artifact: sample() };
    assert!(spec.is_marshalable());
    let raw = RawInstanceSpec::from_instance_spec(&spec);
    assert_eq!(raw.id, 7);
    assert_eq!(raw.name.to_bytes(), b"instance".to_vec());
    assert_eq!(raw.artifact.runtime_id, 2);
    assert_eq!(InstanceSpec::from_raw(&raw), spec);
    let bad = InstanceSpec { id: 7, name: "in\0stance".to_string(), artifact: sample() };
    assert!(!bad.is_marshalable());
}

#[test]
fn instance_descriptor_is_marshaled() {
    let descriptor = InstanceDescriptor { id: 9, name: "token".to_string() };
    assert!(descriptor.is_marshalable());
    let raw = RawInstanceDescriptor::from_instance_descriptor(&descriptor);
    assert_eq!(raw.id, 9);
    assert_eq!(raw.name.as_bytes_with_nul(), &b"token\0"[..]);
}

#[test]
fn transaction_caller_is_marshaled() {
    let hash = rust_interface::host::Hash::from_slice(&[7u8; 32]).unwrap();
    let author = PublicKey::from_slice(&[9u8; 32]).unwrap();
    let raw = RawCaller::from_caller(&Caller::Transaction { hash, author });
    assert_eq!(raw.tx_type, 0);
    assert_eq!(raw.hash, Some(vec![7u8; 32]));
    assert_eq!(raw.author, Some(vec![9u8; 32]));
    assert_eq!(raw.instance_id, 0);
}

#[test]
fn service_caller_is_marshaled() {
    let raw = RawCaller::from_caller(&Caller::Service { instance_id: 12 });
    assert_eq!(raw.tx_type, 1);
    assert_eq!(raw.hash, None);
    assert_eq!(raw.author, None);
    assert_eq!(raw.instance_id, 12);
}

#[test]
fn call_info_round_trips() {
    let info = CallInfo { instance_id: 3, method_id: 4 };
    let raw = RawCallInfo::from_call_info(&info);
    assert_eq!(raw, RawCallInfo { instance_id: 3, method_id: 4 });
    assert_eq!(CallInfo::from_raw(raw), info);
}

#[test]
fn execution_context_is_marshaled() {
    let context = ExecutionContext {
        fork: 5u8,
        caller: Caller::Service { instance_id: 1 },
        interface_name: "iface".to_string(),
    };
    let raw: RawExecutionContext<u8, u16> = RawExecutionContext::from_execution_context(context);
    assert!(matches!(raw.access, RawIndexAccess::Fork(5)));
    assert_eq!(raw.caller.tx_type, 1);
    assert_eq!(raw.interface_name.to_bytes(), b"iface".to_vec());
}

#[test]
fn hashes_need_32_bytes() {
    assert!(rust_interface::host::Hash::from_slice(&[1u8; 31]).is_none());
    assert!(rust_interface::host::Hash::from_slice(&[1u8; 33]).is_none());
    let h = rust_interface::host::Hash::from_slice(&[1u8; 32]).unwrap();
    assert_eq!(h.to_vec(), vec![1u8; 32]);
    assert!(PublicKey::from_slice(&[1u8; 5]).is_none());
    assert_eq!(PublicKey::from_slice(&[2u8; 32]).unwrap().to_vec(), vec![2u8; 32]);
    assert!(rust_interface::host::Hash::from_raw(&RawHash { data: vec![0u8; 31] }).is_none());
    let mut data = vec![3u8; 32];
    data.push(99);
    assert_eq!(rust_interface::host::Hash::from_raw(&RawHash { data }).unwrap().to_vec(), vec![3u8; 32]);
}

fn raw_hash(byte: u8) -> RawHash {
    RawHash { data: vec![byte; 32] }
}

fn hash(byte: u8) -> rust_interface::host::Hash {
    rust_interface::host::Hash::from_slice(&[byte; 32]).unwrap()
}

#[test]
fn state_hashes_are_read() {
    let raw = RawStateHashAggregator {
        hashes: vec![
            vec![raw_hash(1), raw_hash(2)],
            vec![raw_hash(3)],
            vec![raw_hash(4), raw_hash(5), raw_hash(6)],
        ],
        hashes_length: vec![2, 1, 2],
        instance_ids: vec![10, 20],
        length: 3,
    };
    let aggregator = StateHashAggregator::from_raw(&raw).unwrap();
    assert_eq!(aggregator.runtime, vec![hash(1), hash(2)]);
    assert_eq!(
        aggregator.instances,
        vec![(10, vec![hash(3)]), (20, vec![hash(4), hash(5)])]
    );
}

#[test]
fn state_hashes_of_the_runtime_alone() {
    let raw = RawStateHashAggregator {
        hashes: vec![vec![]],
        hashes_length: vec![0],
        instance_ids: vec![],
        length: 1,
    };
    let aggregator = StateHashAggregator::from_raw(&raw).unwrap();
    assert!(aggregator.runtime.is_empty());
    assert!(aggregator.instances.is_empty());
    let empty = StateHashAggregator::empty();
    assert_eq!(aggregator, empty);
}

#[test]
fn unreadable_state_hashes_are_refused() {
    let good = RawStateHashAggregator {
        hashes: vec![vec![raw_hash(1)], vec![raw_hash(2)]],
        hashes_length: vec![1, 1],
        instance_ids: vec![10],
        length: 2,
    };
    assert!(StateHashAggregator::from_raw(&good).is_some());
    let mut zero = good.clone();
    zero.length = 0;
    assert!(StateHashAggregator::from_raw(&zero).is_none());
    let mut long = good.clone();
    long.length = 3;
    assert!(StateHashAggregator::from_raw(&long).is_none());
    let mut no_ids = good.clone();
    no_ids.instance_ids = vec![];
    assert!(StateHashAggregator::from_raw(&no_ids).is_none());
    let mut short_list = good.clone();
    short_list.hashes_length = vec![1, 2];
    assert!(StateHashAggregator::from_raw(&short_list).is_none());
    let mut short_hash = good.clone();
    short_hash.hashes[1][0] = RawHash { data: vec![0u8; 8] };
    assert!(StateHashAggregator::from_raw(&short_hash).is_none());
    let mut no_lengths = good.clone();
    no_lengths.hashes_length = vec![1];
    assert!(StateHashAggregator::from_raw(&no_lengths).is_none());
}

#[test]
fn protobuf_sources_are_read() {
    let raw = RawArtifactProtobufSpec {
        files: vec![
            RawProtoSourceFile {
                name: convert_string("service.proto"),
                content: convert_string("syntax = \"proto3\";"),
            },
            RawProtoSourceFile { name: convert_string("b.proto"), content: convert_string("") },
            RawProtoSourceFile { name: convert_string("unused"), content: convert_string("x") },
        ],
        files_amount: 2,
    };
    let spec = ArtifactProtobufSpec::from_raw(&raw).unwrap();
    assert_eq!(spec.sources.len(), 2);
    assert_eq!(spec.sources[0].name, "service.proto");
    assert_eq!(spec.sources[0].content, "syntax = \"proto3\";");
    assert_eq!(spec.sources[1].name, "b.proto");
    assert_eq!(spec.sources[1].content, "");
    let too_many = RawArtifactProtobufSpec { files: vec![], files_amount: 1 };
    assert!(ArtifactProtobufSpec::from_raw(&too_many).is_none());
    let none = RawArtifactProtobufSpec { files: vec![], files_amount: 0 };
    assert!(ArtifactProtobufSpec::from_raw(&none).unwrap().sources.is_empty());
}

#[test]
fn access_tokens_tell_reads_from_writes() {
    let fork: RawIndexAccess<u8, u16> = RawIndexAccess::Fork(1);
    let snapshot: RawIndexAccess<u8, u16> = RawIndexAccess::Snapshot(2);
    let token: RawIndexAccess<u8, u16> = RawIndexAccess::SnapshotToken;
    assert!(fork.is_mutable());
    assert!(!snapshot.is_mutable());
    assert!(!token.is_mutable());
    assert_eq!(fork.writable().ok(), Some(&1));
    assert_eq!(*fork.fork(), 1);
    assert!(snapshot.writable().is_err());
    assert!(token.writable().is_err());
    assert!(matches!(fork.readable(), ReadAccess::Fork(&1)));
    assert!(matches!(snapshot.readable(), ReadAccess::Snapshot(&2)));
    assert!(matches!(token.readable(), ReadAccess::CurrentSnapshot));
}

#[test]
fn two_field_results_compare_by_both_fields() {
    let ok = PythonResult { success: true, error_code: 0 };
    let failed = PythonResult { success: false, error_code: 17 };
    assert_eq!(ok, ok.clone());
    assert_ne!(ok, failed);
    assert_ne!(failed, PythonResult { success: false, error_code: 16 });
}

#[test]
fn views_of_slices() {
    let data = [1u8, 2, 3];
    let (bytes, len) = into_ptr_and_len(&data);
    assert_eq!(bytes, &[1u8, 2, 3][..]);
    assert_eq!(len, 3);
}
