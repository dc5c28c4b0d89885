use std::collections::HashMap;

use sp_core::crypto::{AccountId32, Ss58AddressFormat, Ss58Codec};

use lfs_http_server::path::{owner_segment_of, root_path_of, user_path_of};
use lfs_http_server::server::{not_found, Action, LfsServer, MakeSvc, Response};
use lfs_http_server::step::NextResolveStep;
use lfs_http_server::user_data::{
    decode_entry, key_for_stage, StorageKey, UserDataResolveIterator, UserDataResolver,
};

const OWNER: &str = "5G9VdMwXvzza9pS8qE8ZHJk3CheHW9uucBn9ngW4C1gmmzpv";

fn owner_bytes() -> Vec<u8> {
    vec![
        180, 151, 254, 47, 7, 155, 59, 117, 254, 11, 148, 191, 168, 221, 40, 185, 64, 181, 231,
        76, 196, 111, 200, 110, 95, 206, 116, 9, 172, 200, 130, 121,
    ]
}

fn root() -> Vec<u8> {
    vec![0u8; 32]
}

fn server() -> LfsServer {
    LfsServer::new(UserDataResolver::new(root()))
}

type Store = HashMap<(Vec<u8>, String), Vec<u8>>;
type Cache = HashMap<Vec<u8>, Vec<u8>>;

/// A stored reference: SCALE's compact length (single-byte mode) and the bytes.
fn reference(bytes: &[u8]) -> Vec<u8> {
    let mut v = vec![(bytes.len() as u8) << 2];
    v.extend_from_slice(bytes);
    v
}

fn run(server: &LfsServer, path: &str, store: &Store, cache: &Cache) -> (Vec<StorageKey>, Response) {
    let mut reads = Vec::new();
    let mut handler = server.call(path);
    let mut action = handler.action();
    loop {
        action = match action {
            Action::Read(k) => {
                let entry = store.get(&(k.owner.clone(), k.path.clone())).cloned();
                reads.push(k);
                handler.on_answer(entry)
            }
            Action::Fetch(id) => handler.on_answer(cache.get(&id.reference).cloned()),
            Action::Respond(r) => return (reads, r),
        };
    }
}

fn key_pairs(reads: &[StorageKey]) -> Vec<(Vec<u8>, String)> {
    reads.iter().map(|k| (k.owner.clone(), k.path.clone())).collect()
}

#[test]
fn steps_follow_fixed_order() {
    let mut s = NextResolveStep::UserData;
    let mut seen = vec![s];
    for _ in 0..6 {
        s = s.next();
        seen.push(s);
    }
    assert_eq!(
        seen,
        vec![
            NextResolveStep::UserData,
            NextResolveStep::RootData,
            NextResolveStep::Glob,
            NextResolveStep::NotFound,
            NextResolveStep::End,
            NextResolveStep::End,
            NextResolveStep::End,
        ]
    );
}

#[test]
fn path_parts() {
    assert_eq!(owner_segment_of("/alice/docs/readme"), Some("alice"));
    assert_eq!(user_path_of("/alice/docs/readme"), "docs/readme");
    assert_eq!(owner_segment_of("/alice"), Some("alice"));
    assert_eq!(user_path_of("/alice"), "/");
    assert_eq!(user_path_of("/alice/"), "/");
    assert_eq!(owner_segment_of("alice"), None);
    assert_eq!(root_path_of("/alice/docs"), "alice/docs");
    assert_eq!(root_path_of("/"), "");
}

#[test]
fn first_key_uses_owner_and_remainder() {
    let path = format!("/{}/docs/readme", OWNER);
    let (reads, _) = run(&server(), &path, &Store::new(), &Cache::new());
    assert_eq!(reads[0].owner, owner_bytes());
    assert_eq!(reads[0].path, "docs/readme");
}

#[test]
fn first_key_without_remainder_uses_slash() {
    let path = format!("/{}", OWNER);
    let (reads, _) = run(&server(), &path, &Store::new(), &Cache::new());
    assert_eq!(reads[0].owner, owner_bytes());
    assert_eq!(reads[0].path, "/");
}

#[test]
fn unparsable_owner_goes_to_root_data() {
    let (reads, resp) = run(&server(), "/%%%/x", &Store::new(), &Cache::new());
    assert_eq!(
        key_pairs(&reads),
        vec![
            (root(), "%%%/x".to_string()),
            (root(), ".*".to_string()),
            (root(), "_404".to_string()),
        ]
    );
    assert_eq!(resp.status, 404);
}

#[test]
fn nothing_cached_is_not_found() {
    let path = format!("/{}/docs", OWNER);
    let mut store = Store::new();
    store.insert((owner_bytes(), "docs".to_string()), reference(&[1, 2, 3]));
    store.insert((root(), ".*".to_string()), reference(&[4]));
    let (reads, resp) = run(&server(), &path, &store, &Cache::new());
    assert_eq!(reads.len(), 4);
    assert_eq!(resp.status, 404);
    assert_eq!(resp.body, b"404 - Not found".to_vec());
}

#[test]
fn user_hit_reads_one_key() {
    let path = format!("/{}/docs", OWNER);
    let mut store = Store::new();
    store.insert((owner_bytes(), "docs".to_string()), reference(&[1, 2, 3]));
    store.insert((root(), ".*".to_string()), reference(&[4]));
    let mut cache = Cache::new();
    cache.insert(vec![1, 2, 3], b"user page".to_vec());
    cache.insert(vec![4], b"glob page".to_vec());
    let (reads, resp) = run(&server(), &path, &store, &cache);
    assert_eq!(key_pairs(&reads), vec![(owner_bytes(), "docs".to_string())]);
    assert_eq!(resp.status, 200);
    assert_eq!(resp.body, b"user page".to_vec());
}

#[test]
fn cache_miss_moves_to_next_stage() {
    let path = format!("/{}/docs", OWNER);
    let mut store = Store::new();
    store.insert((owner_bytes(), "docs".to_string()), reference(&[1, 2, 3]));
    store.insert((root(), ".*".to_string()), reference(&[4]));
    let mut cache = Cache::new();
    cache.insert(vec![4], b"glob page".to_vec());
    let (reads, resp) = run(&server(), &path, &store, &cache);
    assert_eq!(reads.len(), 3);
    assert_eq!(resp.status, 200);
    assert_eq!(resp.body, b"glob page".to_vec());
}

#[test]
fn malformed_user_entry_is_like_none() {
    let path = format!("/{}/docs", OWNER);
    let mut cache = Cache::new();
    cache.insert(vec![9], b"root page".to_vec());
    let mut without = Store::new();
    without.insert((root(), format!("{}/docs", OWNER)), reference(&[9]));
    let mut malformed = without.clone();
    malformed.insert((owner_bytes(), "docs".to_string()), vec![0xff]);
    let (reads_a, resp_a) = run(&server(), &path, &without, &cache);
    let (reads_b, resp_b) = run(&server(), &path, &malformed, &cache);
    assert_eq!(key_pairs(&reads_a), key_pairs(&reads_b));
    assert_eq!(reads_a.len(), 2);
    assert_eq!(resp_a.status, 200);
    assert_eq!(resp_a.body, b"root page".to_vec());
    assert_eq!(resp_b.status, resp_a.status);
    assert_eq!(resp_b.body, resp_a.body);
}

#[test]
fn same_path_twice_same_outcome() {
    let path = format!("/{}/docs", OWNER);
    let mut store = Store::new();
    store.insert((root(), "_404".to_string()), reference(&[7, 7]));
    let mut cache = Cache::new();
    cache.insert(vec![7, 7], b"missing".to_vec());
    let srv = server();
    let (reads_a, resp_a) = run(&srv, &path, &store, &cache);
    let (reads_b, resp_b) = run(&srv, &path, &store, &cache);
    assert_eq!(key_pairs(&reads_a), key_pairs(&reads_b));
    assert_eq!(resp_a.status, 200);
    assert_eq!(resp_a.body, b"missing".to_vec());
    assert_eq!(resp_b.body, resp_a.body);
}

#[test]
fn iterator_yields_identifiers_in_order() {
    let resolver = UserDataResolver::new(root());
    let mut it = resolver.resolve("/%%%").unwrap();
    let k = it.pending_key().unwrap();
    assert_eq!(it.stage(), NextResolveStep::RootData);
    assert_eq!(k.path, "%%%");
    assert!(it.feed(None).is_none());
    let k = it.pending_key().unwrap();
    assert_eq!(k.path, ".*");
    let id = it.feed(Some(reference(&[5, 6]))).unwrap();
    assert_eq!(id.reference, vec![5, 6]);
    assert_eq!(it.stage(), NextResolveStep::NotFound);
    let k = it.pending_key().unwrap();
    assert_eq!(k.path, "_404");
    assert!(it.feed(Some(vec![])).is_none());
    assert!(it.pending_key().is_none());
    assert_eq!(it.stage(), NextResolveStep::End);
    assert!(it.pending_key().is_none());
}

#[test]
fn fresh_iterator_starts_at_user_data() {
    let it = UserDataResolveIterator::new(root(), "/x".to_string());
    assert_eq!(it.stage(), NextResolveStep::UserData);
}

#[test]
fn decode_entry_values() {
    assert_eq!(decode_entry(Some(vec![8, 1, 2])).unwrap().reference, vec![1, 2]);
    assert_eq!(decode_entry(Some(vec![0])).unwrap().reference, Vec::<u8>::new());
    assert!(decode_entry(Some(vec![])).is_none());
    assert!(decode_entry(Some(vec![12, 1])).is_none());
    assert!(decode_entry(None).is_none());
}

#[test]
fn stage_keys() {
    let r = root();
    let path = format!("/{}/a/b", OWNER);
    let k = key_for_stage(&r, &path, NextResolveStep::UserData).unwrap();
    assert_eq!(k.owner, owner_bytes());
    assert_eq!(k.path, "a/b");
    let k = key_for_stage(&r, &path, NextResolveStep::RootData).unwrap();
    assert_eq!(k.owner, r);
    assert_eq!(k.path, format!("{}/a/b", OWNER));
    assert_eq!(key_for_stage(&r, &path, NextResolveStep::Glob).unwrap().path, ".*");
    assert_eq!(key_for_stage(&r, &path, NextResolveStep::NotFound).unwrap().path, "_404");
    assert!(key_for_stage(&r, &path, NextResolveStep::End).is_none());
    assert!(key_for_stage(&r, "/bob/a", NextResolveStep::UserData).is_none());
    // one character off: the checksum fails
    let bad = "/5G9VdMwXvzza9pS8qE8ZHJk3CheHW9uucBn9ngW4C1gmmzpw/a";
    assert!(key_for_stage(&r, bad, NextResolveStep::UserData).is_none());
}

#[test]
fn read_data_treats_errors_as_miss() {
    let srv = server();
    assert_eq!(srv.read_data::<()>(Ok(vec![1, 2])), Some(vec![1, 2]));
    assert_eq!(srv.read_data::<()>(Err(())), None);
}

#[test]
fn not_found_answer() {
    let r = not_found();
    assert_eq!(r.status, 404);
    assert_eq!(String::from_utf8(r.body).unwrap(), "404 - Not found");
}

#[test]
fn make_svc_serves_with_shared_resolver() {
    let make = MakeSvc::new(UserDataResolver::new(root()));
    let mut store = Store::new();
    store.insert((root(), "page".to_string()), reference(&[3]));
    let mut cache = Cache::new();
    cache.insert(vec![3], b"hello".to_vec());
    let a = make.call();
    let b = make.call();
    let (_, ra) = run(&a, "/page", &store, &cache);
    let (_, rb) = run(&b, "/page", &store, &cache);
    assert_eq!(ra.body, b"hello".to_vec());
    assert_eq!(rb.body, b"hello".to_vec());
}

#[test]
fn answered_handler_stays_answered() {
    let srv = server();
    let mut h = srv.call("/");
    let mut action = h.action();
    while let Action::Read(_) = action {
        action = h.on_answer(None);
    }
    match h.on_answer(Some(vec![1])) {
        Action::Respond(r) => assert_eq!(r.status, 404),
        _ => panic!("expected an answer"),
    }
}

#[test]
fn unregistered_address_format_is_no_owner() {
    let account = AccountId32::new([7u8; 32]);
    let r = root();
    let known = format!("/{}/p", account.to_ss58check_with_version(Ss58AddressFormat::custom(42)));
    let k = key_for_stage(&r, &known, NextResolveStep::UserData).unwrap();
    assert_eq!(k.owner, vec![7u8; 32]);
    assert_eq!(k.path, "p");
    let custom = format!("/{}/p", account.to_ss58check_with_version(Ss58AddressFormat::custom(16000)));
    assert!(key_for_stage(&r, &custom, NextResolveStep::UserData).is_none());
}
