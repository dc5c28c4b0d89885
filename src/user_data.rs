//! Resolving a request path through user data: four stages, each a key to
//! read from the store, tried in order until one holds a content identifier.
use vstd::prelude::*;

use crate::external::{
    decode_reference, decode_ss58, is_custom_format, scale_bytes_of, ss58_custom_of,
    ss58_decoded_of,
};
use crate::path::{
    owner_segment, owner_segment_of, root_path, root_path_of, user_path, user_path_of,
};
use crate::step::NextResolveStep;

verus! {

/// A composite key of the store: an owner identity and a path under it.
#[derive(Clone, Debug)]
pub struct StorageKey {
    pub owner: Vec<u8>,
    pub path: String,
}

impl View for StorageKey {
    type V = (Seq<u8>, Seq<char>);

    open spec fn view(&self) -> (Seq<u8>, Seq<char>) {
        (self.owner@, self.path@)
    }
}

/// A content identifier: the reference decoded from a stored entry, under
/// which the cache holds a payload.
#[derive(Clone, Debug)]
pub struct ContentId {
    pub reference: Vec<u8>,
}

impl View for ContentId {
    type V = Seq<u8>;

    open spec fn view(&self) -> Seq<u8> {
        self.reference@
    }
}

pub open spec fn key_view(k: Option<StorageKey>) -> Option<(Seq<u8>, Seq<char>)> {
    match k {
        Some(k) => Some(k@),
        None => None,
    }
}

pub open spec fn id_view(i: Option<ContentId>) -> Option<Seq<u8>> {
    match i {
        Some(i) => Some(i@),
        None => None,
    }
}

pub open spec fn bytes_view(b: Option<Vec<u8>>) -> Option<Seq<u8>> {
    match b {
        Some(b) => Some(b@),
        None => None,
    }
}

/// The account that an owner segment names: an SS58 address of a format that
/// the registry names.
pub open spec fn account_of(s: Seq<char>) -> Option<Seq<u8>> {
    match ss58_decoded_of(s) {
        Some((account, prefix)) => if ss58_custom_of(prefix) {
            None
        } else {
            Some(account)
        },
        None => None,
    }
}

/// The wildcard path read at the `Glob` stage.
pub open spec fn glob_path() -> Seq<char> {
    seq!['.', '*']
}

/// The path read at the `NotFound` stage.
pub open spec fn not_found_path() -> Seq<char> {
    seq!['_', '4', '0', '4']
}

/// The key read at stage `s` for request path `path`, with `root` the owner of
/// every stage but the first. None at `End`, and at `UserData` when the path
/// names no account.
pub open spec fn stage_key(root: Seq<u8>, path: Seq<char>, s: NextResolveStep) -> Option<(Seq<u8>, Seq<char>)> {
    match s {
        NextResolveStep::UserData => match owner_segment(path) {
            Some(seg) => match account_of(seg) {
                Some(owner) => Some((owner, user_path(path))),
                None => None,
            },
            None => None,
        },
        NextResolveStep::RootData => Some((root, root_path(path))),
        NextResolveStep::Glob => Some((root, glob_path())),
        NextResolveStep::NotFound => Some((root, not_found_path())),
        NextResolveStep::End => None,
    }
}

/// The content identifier that a stored entry holds: its bytes decoded as a
/// reference.
pub open spec fn entry_id(entry: Option<Seq<u8>>) -> Option<Seq<u8>> {
    match entry {
        Some(b) => scale_bytes_of(b),
        None => None,
    }
}

/// The account named by an owner segment.
fn parse_owner(s: &str) -> (r: Option<Vec<u8>>)
    ensures
        bytes_view(r) == account_of(s@),
{
    match decode_ss58(s) {
        Some((account, prefix)) => {
            if is_custom_format(prefix) {
                None
            } else {
                Some(account)
            }
        },
        None => None,
    }
}

/// The content identifier held by a stored entry, if it decodes.
pub fn decode_entry(entry: Option<Vec<u8>>) -> (r: Option<ContentId>)
    ensures
        id_view(r) == entry_id(bytes_view(entry)),
{
    match entry {
        Some(bytes) => match decode_reference(bytes.as_slice()) {
            Some(reference) => Some(ContentId { reference }),
            None => None,
        },
        None => None,
    }
}

/// The key read at stage `s`, see [`stage_key`].
pub fn key_for_stage(root: &Vec<u8>, path: &str, s: NextResolveStep) -> (r: Option<StorageKey>)
    ensures
        key_view(r) == stage_key(root@, path@, s),
{
    match s {
        NextResolveStep::UserData => match owner_segment_of(path) {
            Some(seg) => match parse_owner(seg) {
                Some(owner) => Some(StorageKey { owner, path: user_path_of(path) }),
                None => None,
            },
            None => None,
        },
        NextResolveStep::RootData => Some(StorageKey { owner: root.clone(), path: root_path_of(path) }),
        NextResolveStep::Glob => {
            let p = ".*".to_owned();
            proof {
                reveal_strlit(".*");
            }
            assert(p@ =~= glob_path());
            Some(StorageKey { owner: root.clone(), path: p })
        },
        NextResolveStep::NotFound => {
            let p = "_404".to_owned();
            proof {
                reveal_strlit("_404");
            }
            assert(p@ =~= not_found_path());
            Some(StorageKey { owner: root.clone(), path: p })
        },
        NextResolveStep::End => None,
    }
}

/// Where one resolution stands: the root owner, the request path and the
/// stage to try next.
pub struct ResolveModel {
    pub root: Seq<u8>,
    pub path: Seq<char>,
    pub next: NextResolveStep,
}

/// The same resolution one stage further on.
pub open spec fn advance(m: ResolveModel) -> ResolveModel {
    ResolveModel { next: m.next.spec_next(), ..m }
}

/// The resolution moved past the stages that have no key to read: it stands
/// at a stage with a key, or at `End`.
pub open spec fn settle(m: ResolveModel) -> ResolveModel
    decreases 4 - m.next.rank(),
{
    if m.next == NextResolveStep::End || stage_key(m.root, m.path, m.next) is Some {
        m
    } else {
        settle(advance(m))
    }
}

/// The key that a resolution reads at the stage where it stands.
pub open spec fn pending(m: ResolveModel) -> Option<(Seq<u8>, Seq<char>)> {
    stage_key(m.root, m.path, m.next)
}

/// One resolution of a request path. Each stage is tried once, in order: the
/// caller reads from the store the key that [`Self::pending_key`] names and
/// hands the entry to [`Self::feed`], which yields the content identifier
/// that it holds, if any.
pub struct UserDataResolveIterator {
    root_key: Vec<u8>,
    path: String,
    next: NextResolveStep,
}

impl View for UserDataResolveIterator {
    type V = ResolveModel;

    closed spec fn view(&self) -> ResolveModel {
        ResolveModel { root: self.root_key@, path: self.path@, next: self.next }
    }
}

impl UserDataResolveIterator {
    /// A resolution of `path` that starts at `UserData`.
    pub fn new(root_key: Vec<u8>, path: String) -> (r: Self)
        ensures
            r@ == (ResolveModel { root: root_key@, path: path@, next: NextResolveStep::UserData }),
    {
        UserDataResolveIterator { root_key, path, next: NextResolveStep::UserData }
    }

    /// The key to read next: the stages that have none are passed over; None
    /// once every stage has been tried.
    pub fn pending_key(&mut self) -> (r: Option<StorageKey>)
        ensures
            final(self)@ == settle(old(self)@),
            key_view(r) == pending(final(self)@),
            r is None <==> final(self)@.next == NextResolveStep::End,
    {
        loop
            invariant
                settle(self@) == settle(old(self)@),
            decreases 4 - self.next.rank(),
        {
            if self.next == NextResolveStep::End {
                return None;
            }
            let key = key_for_stage(&self.root_key, self.path.as_str(), self.next);
            if key.is_some() {
                return key;
            }
            self.next = self.next.next();
        }
    }

    /// Takes the entry read at the current stage, moves to the next stage and
    /// yields the content identifier that the entry holds, if any.
    pub fn feed(&mut self, entry: Option<Vec<u8>>) -> (r: Option<ContentId>)
        ensures
            final(self)@ == advance(old(self)@),
            id_view(r) == entry_id(bytes_view(entry)),
    {
        self.next = self.next.next();
        decode_entry(entry)
    }

    /// The stage that is tried next.
    pub fn stage(&self) -> (r: NextResolveStep)
        ensures
            r == self@.next,
    {
        self.next
    }
}

/// Resolves request paths through user data, with `root_key` the owner of
/// every stage but the first.
pub struct UserDataResolver {
    root_key: Vec<u8>,
}

impl UserDataResolver {
    pub closed spec fn root(&self) -> Seq<u8> {
        self.root_key@
    }

    pub fn new(root_key: Vec<u8>) -> (r: Self)
        ensures
            r.root() == root_key@,
    {
        UserDataResolver { root_key }
    }

    /// A fresh resolution of `path`; every path gets one.
    pub fn resolve(&self, path: &str) -> (r: Option<UserDataResolveIterator>)
        ensures
            r matches Some(it) && it@ == (ResolveModel {
                root: self.root(),
                path: path@,
                next: NextResolveStep::UserData,
            }),
    {
        Some(UserDataResolveIterator::new(self.root_key.clone(), path.to_owned()))
    }
}

impl Clone for UserDataResolver {
    fn clone(&self) -> (r: Self)
        ensures
            r.root() == self.root(),
    {
        UserDataResolver { root_key: self.root_key.clone() }
    }
}

} // verus!
