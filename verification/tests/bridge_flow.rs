use std::cell::RefCell;
use std::collections::BTreeMap;

use rust_interface::errors::ProtocolViolation;
use rust_interface::merkledb_interface::binary_data::copy_into;
use rust_interface::merkledb_interface::binary_data::BinaryData;
use rust_interface::merkledb_interface::common::IndexKind;
use rust_interface::merkledb_interface::common::IndexRead;
use rust_interface::merkledb_interface::common::IndexWrite;
use rust_interface::merkledb_interface::list_index::ListQuery;
use rust_interface::merkledb_interface::list_index::ListUpdate;
use rust_interface::merkledb_interface::proof_map_index::ProofMapQuery;
use rust_interface::merkledb_interface::proof_map_index::ProofMapUpdate;
use rust_interface::merkledb_list_index;
use rust_interface::merkledb_proof_map_index;
use rust_interface::types::convert_string;
use rust_interface::types::RawIndexAccess;
use rust_interface::types::ReadAccess;

/// A store in memory that stands for the host's database in these tests.
#[derive(Debug, Default)]
struct Store {
    lists: RefCell<BTreeMap<String, Vec<Vec<u8>>>>,
    maps: RefCell<BTreeMap<String, BTreeMap<Vec<u8>, Vec<u8>>>>,
}

impl Store {
    fn digest(&self, name: &str) -> Vec<u8> {
        let maps = self.maps.borrow();
        let mut sum = [0u8; 32];
        if let Some(map) = maps.get(name) {
            for (key, value) in map {
                for (i, byte) in key.iter().chain(value.iter()).enumerate() {
                    sum[i % 32] = sum[i % 32].wrapping_mul(31).wrapping_add(*byte).wrapping_add(1);
                }
            }
        }
        sum.to_vec()
    }
}

type Access<'a> = RawIndexAccess<&'a Store, &'a Store>;

fn reader<'a>(access: ReadAccess<'a, &'a Store, &'a Store>, current: &'a Store) -> &'a Store {
    match access {
        ReadAccess::Fork(fork) => *fork,
        ReadAccess::Snapshot(snapshot) => *snapshot,
        ReadAccess::CurrentSnapshot => current,
    }
}

fn read_list<'a>(read: IndexRead<'a, &'a Store, &'a Store, ListQuery>, current: &'a Store) -> (Option<Vec<u8>>, u64) {
    assert_eq!(read.kind, IndexKind::ListIndex);
    let store = reader(read.access, current);
    let lists = store.lists.borrow();
    let list = lists.get(&read.index_name).cloned().unwrap_or_default();
    match read.query {
        ListQuery::Get { index } => (list.get(index as usize).cloned(), 0),
        ListQuery::Len => (None, list.len() as u64),
    }
}

fn write_list(write: IndexWrite<'_, &Store, ListUpdate>) -> Option<Vec<u8>> {
    let mut lists = write.fork.lists.borrow_mut();
    let list = lists.entry(write.index_name).or_default();
    match write.update {
        ListUpdate::Push { value } => {
            list.push(value);
            None
        }
        ListUpdate::Pop => list.pop(),
        ListUpdate::SetAt { index, value } => {
            list[index as usize] = value;
            None
        }
        ListUpdate::Clear => {
            list.clear();
            None
        }
    }
}

fn read_map<'a>(read: IndexRead<'a, &'a Store, &'a Store, ProofMapQuery>, current: &'a Store) -> Option<Vec<u8>> {
    assert_eq!(read.kind, IndexKind::ProofMapIndex);
    let store = reader(read.access, current);
    match read.query {
        ProofMapQuery::Get { key } => {
            store.maps.borrow().get(&read.index_name).and_then(|map| map.get(&key).cloned())
        }
        ProofMapQuery::ObjectHash => Some(store.digest(&read.index_name)),
    }
}

fn write_map(write: IndexWrite<'_, &Store, ProofMapUpdate>) {
    let mut maps = write.fork.maps.borrow_mut();
    let map = maps.entry(write.index_name).or_default();
    match write.update {
        ProofMapUpdate::Put { key, value } => {
            map.insert(key, value);
        }
        ProofMapUpdate::Remove { key } => {
            map.remove(&key);
        }
        ProofMapUpdate::Clear => map.clear(),
    }
}

/// Hands a value out the way the other side receives it: through a buffer
/// of exactly the requested length.
fn hand_out(value: Option<Vec<u8>>) -> BinaryData {
    match BinaryData::requested_len(&value) {
        Some(len) => {
            let mut buffer = vec![0u8; len as usize];
            copy_into(&mut buffer, value.as_ref().unwrap());
            BinaryData { data: Some(buffer), data_len: len }
        }
        None => BinaryData::null(),
    }
}

#[test]
fn a_list_is_filled_through_a_fork_and_read_through_a_snapshot() {
    let store = Store::default();
    let fork: Access = RawIndexAccess::Fork(&store);
    let index = merkledb_list_index(fork, convert_string("log"));
    for payload in [&b"first"[..], &b""[..], &b"third"[..]] {
        write_list(index.push(&BinaryData::from_slice(payload)));
    }
    write_list(index.set(1, &BinaryData::from_slice(b"second")));
    assert_eq!(read_list(index.len(), &store).1, 3);

    let snapshot: Access = RawIndexAccess::Snapshot(&store);
    let index = merkledb_list_index(snapshot, convert_string("log"));
    assert_eq!(hand_out(read_list(index.get(0), &store).0).to_vec(), b"first".to_vec());
    assert_eq!(hand_out(read_list(index.get(1), &store).0).to_vec(), b"second".to_vec());
    assert_eq!(hand_out(read_list(index.get(2), &store).0).to_value(), Some(b"third".to_vec()));
    assert!(hand_out(read_list(index.get(3), &store).0).is_absent());
    assert_eq!(read_list(index.len(), &store).1, 3);
    assert_eq!(index.access.writable().err(), Some(ProtocolViolation::ReadOnlyAccess));
    assert_eq!(read_list(index.len(), &store).1, 3);

    let token: Access = RawIndexAccess::SnapshotToken;
    let index = merkledb_list_index(token, convert_string("log"));
    assert_eq!(read_list(index.len(), &store).1, 3);
    assert_eq!(index.access.writable().err(), Some(ProtocolViolation::ReadOnlyAccess));

    let fork: Access = RawIndexAccess::Fork(&store);
    let index = merkledb_list_index(fork, convert_string("log"));
    assert_eq!(hand_out(write_list(index.pop())).to_vec(), b"third".to_vec());
    write_list(index.clear());
    assert_eq!(read_list(index.len(), &store).1, 0);
    assert!(hand_out(write_list(index.pop())).is_absent());
}

#[test]
fn a_missing_key_of_an_empty_map_leaves_the_digest_as_it_was() {
    let store = Store::default();
    let snapshot: Access = RawIndexAccess::Snapshot(&store);
    let index = merkledb_proof_map_index(snapshot, convert_string("balances"));
    let baseline = read_map(index.object_hash(), &store).unwrap();
    let reply = hand_out(read_map(index.get(&BinaryData::from_slice(b"missing")), &store));
    assert_eq!(reply, BinaryData::null());
    assert!(reply.is_absent());
    assert_eq!(read_map(index.object_hash(), &store).unwrap(), baseline);
    assert_eq!(index.access.writable().err(), Some(ProtocolViolation::ReadOnlyAccess));
    assert_eq!(read_map(index.object_hash(), &store).unwrap(), baseline);

    let fork: Access = RawIndexAccess::Fork(&store);
    let index = merkledb_proof_map_index(fork, convert_string("balances"));
    write_map(index.put(&BinaryData::from_slice(b"key"), &BinaryData::from_slice(b"1")));
    assert_ne!(read_map(index.object_hash(), &store).unwrap(), baseline);
    let found = hand_out(read_map(index.get(&BinaryData::from_slice(b"key")), &store));
    assert_eq!(found.to_vec(), b"1".to_vec());
    write_map(index.remove(&BinaryData::from_slice(b"key")));
    assert_eq!(read_map(index.object_hash(), &store).unwrap(), baseline);
    write_map(index.clear());
    assert_eq!(read_map(index.object_hash(), &store).unwrap(), baseline);
}
