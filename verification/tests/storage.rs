use rust_interface::errors::ProtocolViolation;
use rust_interface::merkledb_interface::binary_data::copy_into;
use rust_interface::merkledb_interface::binary_data::BinaryData;
use rust_interface::merkledb_interface::common::IndexKind;
use rust_interface::merkledb_interface::list_index::ListQuery;
use rust_interface::merkledb_interface::list_index::ListUpdate;
use rust_interface::merkledb_interface::map_index::MapQuery;
use rust_interface::merkledb_interface::map_index::MapUpdate;
use rust_interface::merkledb_interface::proof_list_index::ProofListQuery;
use rust_interface::merkledb_interface::proof_list_index::ProofListUpdate;
use rust_interface::merkledb_interface::proof_map_index::ProofMapQuery;
use rust_interface::merkledb_interface::proof_map_index::ProofMapUpdate;
use rust_interface::merkledb_list_index;
use rust_interface::merkledb_map_index;
use rust_interface::merkledb_proof_list_index;
use rust_interface::merkledb_proof_map_index;
use rust_interface::types::convert_string;
use rust_interface::types::RawIndexAccess;
use rust_interface::types::ReadAccess;

type Access = RawIndexAccess<u8, u16>;

fn tokens() -> Vec<Access> {
    vec![RawIndexAccess::Fork(1), RawIndexAccess::Snapshot(2), RawIndexAccess::SnapshotToken]
}

fn read_only_tokens() -> Vec<Access> {
    vec![RawIndexAccess::Snapshot(2), RawIndexAccess::SnapshotToken]
}

fn bytes(data: &[u8]) -> BinaryData {
    BinaryData::from_slice(data)
}

#[test]
fn the_null_view_carries_no_value() {
    let null = BinaryData::null();
    assert_eq!(null.data, None);
    assert_eq!(null.data_len, 0);
    assert!(null.is_absent());
    assert_eq!(null.to_vec(), Vec::<u8>::new());
    assert_eq!(null.to_value(), None);
    let empty = bytes(&[]);
    assert!(empty.is_absent());
    assert_eq!(empty.to_value(), None);
    let null_with_length = BinaryData { data: None, data_len: 5 };
    assert!(null_with_length.is_absent());
    let one = bytes(&[7]);
    assert!(!one.is_absent());
    assert_eq!(one.to_value(), Some(vec![7]));
}

#[test]
fn a_view_means_its_first_bytes() {
    let view = BinaryData { data: Some(vec![1, 2, 3, 4]), data_len: 2 };
    assert_eq!(view.to_vec(), vec![1, 2]);
    assert_eq!(bytes(&[1, 2, 3]).data_len, 3);
}

#[test]
fn payloads_round_trip_through_an_allocated_buffer() {
    for n in 0..64usize {
        let payload: Vec<u8> = (0..n).map(|i| (i * 7 + 3) as u8).collect();
        let value = Some(payload.clone());
        let requested = BinaryData::requested_len(&value).unwrap();
        assert_eq!(requested, n as u64);
        let buffer = vec![0xAAu8; requested as usize];
        let view = BinaryData::write(buffer, &payload);
        assert_eq!(view.data_len, n as u64);
        assert_eq!(view.to_vec(), payload);
        let buffer = vec![0u8; requested as usize];
        let view = BinaryData::write_value(&value, Some(buffer));
        assert_eq!(view.to_vec(), payload);
    }
}

#[test]
fn an_absent_value_travels_as_the_null_view() {
    assert_eq!(BinaryData::requested_len(&None), None);
    let view = BinaryData::write_value(&None, None);
    assert_eq!(view, BinaryData::null());
    let view = BinaryData::write_value(&None, Some(vec![1, 2]));
    assert_eq!(view, BinaryData::null());
}

#[test]
fn buffers_are_overwritten() {
    let mut buffer = vec![9u8; 4];
    copy_into(&mut buffer, &[1, 2, 3, 4]);
    assert_eq!(buffer, vec![1, 2, 3, 4]);
}

#[test]
fn list_reads_pass_through_every_token() {
    for access in tokens() {
        let kind = match access {
            RawIndexAccess::Fork(_) => 0,
            RawIndexAccess::Snapshot(_) => 1,
            RawIndexAccess::SnapshotToken => 2,
        };
        let index = merkledb_list_index(access, convert_string("wallets"));
        let read = index.get(5);
        assert_eq!(read.kind, IndexKind::ListIndex);
        assert_eq!(read.index_name, "wallets");
        assert_eq!(read.query, ListQuery::Get { index: 5 });
        match read.access {
            ReadAccess::Fork(fork) => assert_eq!((kind, *fork), (0, 1)),
            ReadAccess::Snapshot(snapshot) => assert_eq!((kind, *snapshot), (1, 2)),
            ReadAccess::CurrentSnapshot => assert_eq!(kind, 2),
        }
        assert_eq!(index.len().query, ListQuery::Len);
    }
}

#[test]
fn list_writes_need_mutable_access() {
    let index = merkledb_list_index::<u8, u16>(RawIndexAccess::Fork(1), convert_string("wallets"));
    let write = index.push(&bytes(&[1, 2]));
    assert_eq!(*write.fork, 1);
    assert_eq!(write.kind, IndexKind::ListIndex);
    assert_eq!(write.index_name, "wallets");
    assert_eq!(write.update, ListUpdate::Push { value: vec![1, 2] });
    assert_eq!(index.pop().update, ListUpdate::Pop);
    assert_eq!(
        index.set(3, &bytes(&[9])).update,
        ListUpdate::SetAt { index: 3, value: vec![9] }
    );
    assert_eq!(index.clear().update, ListUpdate::Clear);
    for access in read_only_tokens() {
        let index = merkledb_list_index(access, convert_string("wallets"));
        assert_eq!(index.access.writable().err(), Some(ProtocolViolation::ReadOnlyAccess));
        assert!(!index.access.is_mutable());
    }
}

#[test]
fn map_operations() {
    let index = merkledb_map_index::<u8, u16>(RawIndexAccess::Fork(1), convert_string("names"));
    let read = index.get(&bytes(b"key"));
    assert_eq!(read.kind, IndexKind::MapIndex);
    assert_eq!(read.index_name, "names");
    assert_eq!(read.query, MapQuery::Get { key: b"key".to_vec() });
    assert_eq!(
        index.put(&bytes(b"key"), &bytes(b"value")).update,
        MapUpdate::Put { key: b"key".to_vec(), value: b"value".to_vec() }
    );
    assert_eq!(
        index.remove(&bytes(b"key")).update,
        MapUpdate::Remove { key: b"key".to_vec() }
    );
    assert_eq!(index.clear().update, MapUpdate::Clear);
    for access in read_only_tokens() {
        let index = merkledb_map_index(access, convert_string("names"));
        assert!(matches!(index.get(&bytes(b"key")).query, MapQuery::Get { .. }));
        assert_eq!(index.access.writable().err(), Some(ProtocolViolation::ReadOnlyAccess));
        assert!(!index.access.is_mutable());
    }
}

#[test]
fn proof_list_operations() {
    let index =
        merkledb_proof_list_index::<u8, u16>(RawIndexAccess::Fork(1), convert_string("txs"));
    assert_eq!(index.get(0).kind, IndexKind::ProofListIndex);
    assert_eq!(index.get(0).query, ProofListQuery::Get { index: 0 });
    assert_eq!(index.len().query, ProofListQuery::Len);
    assert_eq!(index.object_hash().query, ProofListQuery::ObjectHash);
    assert_eq!(
        index.push(&bytes(&[4])).update,
        ProofListUpdate::Push { value: vec![4] }
    );
    assert_eq!(
        index.set(1, &bytes(&[5])).update,
        ProofListUpdate::SetAt { index: 1, value: vec![5] }
    );
    assert_eq!(index.clear().update, ProofListUpdate::Clear);
    for access in read_only_tokens() {
        let index = merkledb_proof_list_index(access, convert_string("txs"));
        assert_eq!(index.object_hash().query, ProofListQuery::ObjectHash);
        assert_eq!(index.access.writable().err(), Some(ProtocolViolation::ReadOnlyAccess));
        assert!(!index.access.is_mutable());
    }
}

#[test]
fn proof_map_operations() {
    let index =
        merkledb_proof_map_index::<u8, u16>(RawIndexAccess::Fork(1), convert_string("state"));
    assert_eq!(index.get(&bytes(b"k")).kind, IndexKind::ProofMapIndex);
    assert_eq!(index.object_hash().query, ProofMapQuery::ObjectHash);
    assert_eq!(
        index.put(&bytes(b"k"), &bytes(b"v")).update,
        ProofMapUpdate::Put { key: b"k".to_vec(), value: b"v".to_vec() }
    );
    assert_eq!(
        index.remove(&bytes(b"k")).update,
        ProofMapUpdate::Remove { key: b"k".to_vec() }
    );
    assert_eq!(index.clear().update, ProofMapUpdate::Clear);
    for access in read_only_tokens() {
        let index = merkledb_proof_map_index(access, convert_string("state"));
        assert_eq!(index.access.writable().err(), Some(ProtocolViolation::ReadOnlyAccess));
        assert!(!index.access.is_mutable());
    }
}

#[test]
fn a_missing_key_yields_the_null_view_and_only_reads() {
    let index =
        merkledb_proof_map_index::<u8, u16>(RawIndexAccess::Snapshot(2), convert_string("empty"));
    let read = index.get(&bytes(b"missing"));
    assert_eq!(read.query, ProofMapQuery::Get { key: b"missing".to_vec() });
    assert!(matches!(read.access, ReadAccess::Snapshot(&2)));
    let found: Option<Vec<u8>> = None;
    assert_eq!(BinaryData::requested_len(&found), None);
    let reply = BinaryData::write_value(&found, None);
    assert_eq!(reply.data, None);
    assert_eq!(reply.data_len, 0);
    let digest = index.object_hash();
    assert_eq!(digest.query, ProofMapQuery::ObjectHash);
    assert!(matches!(digest.access, ReadAccess::Snapshot(&2)));
}

#[test]
fn indexes_of_different_kinds_with_one_name_are_told_apart() {
    let list = merkledb_list_index::<u8, u16>(RawIndexAccess::Fork(1), convert_string("x"));
    let map = merkledb_map_index::<u8, u16>(RawIndexAccess::Fork(1), convert_string("x"));
    let proof_list =
        merkledb_proof_list_index::<u8, u16>(RawIndexAccess::Fork(1), convert_string("x"));
    let proof_map =
        merkledb_proof_map_index::<u8, u16>(RawIndexAccess::Fork(1), convert_string("x"));
    let kinds = [
        list.clear().kind,
        map.clear().kind,
        proof_list.clear().kind,
        proof_map.clear().kind,
    ];
    for i in 0..4 {
        for j in 0..4 {
            assert_eq!(kinds[i] == kinds[j], i == j);
        }
    }
}
