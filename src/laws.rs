//! What holds of every handling of a request, over the models of
//! [`crate::server`] and [`crate::user_data`].
use vstd::prelude::*;

use crate::external::scale_bytes_of;
use crate::server::{
    begin, drive, fresh, handle, not_found_model, run_bound, step, HandlerModel, PhaseModel,
    RequestHandler, LfsServer, STATUS_OK,
};
use crate::step::NextResolveStep;
use crate::user_data::{advance, entry_id, pending, settle, stage_key, ResolveModel};

verus! {

/// Stage `s` of resolving `path` gives nothing that the cache holds: it has no
/// key, or no identifier under its key, or the cache misses that identifier.
pub open spec fn stage_misses(
    root: Seq<u8>,
    path: Seq<char>,
    s: NextResolveStep,
    store: spec_fn((Seq<u8>, Seq<char>)) -> Option<Seq<u8>>,
    cache: spec_fn(Seq<u8>) -> Option<Seq<u8>>,
) -> bool {
    match stage_key(root, path, s) {
        Some(k) => match entry_id(store(k)) {
            Some(id) => cache(id) is None,
            None => true,
        },
        None => true,
    }
}

spec fn misses_from(
    m: ResolveModel,
    store: spec_fn((Seq<u8>, Seq<char>)) -> Option<Seq<u8>>,
    cache: spec_fn(Seq<u8>) -> Option<Seq<u8>>,
) -> bool {
    forall|s: NextResolveStep|
        s.rank() >= m.next.rank() ==> #[trigger] stage_misses(m.root, m.path, s, store, cache)
}

/// Answers that a handler in state `h` still needs at most.
spec fn measure(h: HandlerModel) -> nat {
    match h.phase {
        PhaseModel::Done(_) => 0,
        PhaseModel::Reading(_) => (2 * (4 - h.it.next.rank()) + 1) as nat,
        PhaseModel::Fetching(_) => (2 * (4 - h.it.next.rank()) + 2) as nat,
    }
}

spec fn reading_pending(h: HandlerModel) -> bool {
    h.phase matches PhaseModel::Reading(k) ==> pending(h.it) == Some(k)
}

proof fn lemma_settle(m: ResolveModel)
    ensures
        settle(m).root == m.root,
        settle(m).path == m.path,
        settle(m).next.rank() >= m.next.rank(),
        settle(m).next == NextResolveStep::End || pending(settle(m)) is Some,
    decreases 4 - m.next.rank(),
{
    if !(m.next == NextResolveStep::End || stage_key(m.root, m.path, m.next) is Some) {
        lemma_settle(advance(m));
    }
}

proof fn lemma_begin(m: ResolveModel)
    ensures
        reading_pending(begin(m)),
        begin(m).it.root == m.root,
        begin(m).it.path == m.path,
        begin(m).it.next.rank() >= m.next.rank(),
        begin(m).phase matches PhaseModel::Done(r) ==> r == not_found_model(),
        measure(begin(m)) <= 2 * (4 - m.next.rank()) + 1,
{
    lemma_settle(m);
    if pending(settle(m)) is None {
        assert(settle(m).next == NextResolveStep::End);
    }
}

proof fn lemma_miss_run(
    h: HandlerModel,
    store: spec_fn((Seq<u8>, Seq<char>)) -> Option<Seq<u8>>,
    cache: spec_fn(Seq<u8>) -> Option<Seq<u8>>,
    fuel: nat,
)
    requires
        reading_pending(h),
        misses_from(h.it, store, cache),
        h.phase matches PhaseModel::Fetching(id) ==> cache(id) is None,
        h.phase matches PhaseModel::Done(r) ==> r == not_found_model(),
        fuel >= measure(h),
    ensures
        drive(h, store, cache, fuel).1 == Some(not_found_model()),
    decreases fuel,
{
    match h.phase {
        PhaseModel::Done(_) => {},
        PhaseModel::Reading(k) => {
            assert(stage_misses(h.it.root, h.it.path, h.it.next, store, cache));
            let h2 = step(h, store(k));
            lemma_begin(advance(h.it));
            assert(misses_from(advance(h.it), store, cache));
            lemma_miss_run(h2, store, cache, (fuel - 1) as nat);
        },
        PhaseModel::Fetching(id) => {
            let h2 = step(h, cache(id));
            lemma_begin(h.it);
            lemma_miss_run(h2, store, cache, (fuel - 1) as nat);
        },
    }
}

/// When no stage of resolving `path` yields an identifier that the cache
/// holds, the request is answered with status 404 and the not-found body.
pub proof fn lemma_no_hit_is_not_found(
    root: Seq<u8>,
    path: Seq<char>,
    store: spec_fn((Seq<u8>, Seq<char>)) -> Option<Seq<u8>>,
    cache: spec_fn(Seq<u8>) -> Option<Seq<u8>>,
)
    requires
        forall|s: NextResolveStep| #[trigger] stage_misses(root, path, s, store, cache),
    ensures
        handle(root, path, store, cache).1 == Some(not_found_model()),
{
    lemma_begin(fresh(root, path));
    assert(misses_from(begin(fresh(root, path)).it, store, cache));
    lemma_miss_run(begin(fresh(root, path)), store, cache, run_bound());
}

/// When the `UserData` stage's key holds an identifier that the cache holds,
/// the request is answered with status 200 and that payload, and that key is
/// the only one read from the store.
pub proof fn lemma_user_hit_is_served(
    root: Seq<u8>,
    path: Seq<char>,
    store: spec_fn((Seq<u8>, Seq<char>)) -> Option<Seq<u8>>,
    cache: spec_fn(Seq<u8>) -> Option<Seq<u8>>,
    key: (Seq<u8>, Seq<char>),
    id: Seq<u8>,
    payload: Seq<u8>,
)
    requires
        stage_key(root, path, NextResolveStep::UserData) == Some(key),
        entry_id(store(key)) == Some(id),
        cache(id) == Some(payload),
    ensures
        handle(root, path, store, cache) == (seq![key], Some((STATUS_OK, payload))),
{
    let h0 = begin(fresh(root, path));
    assert(settle(fresh(root, path)) == fresh(root, path));
    let h1 = step(h0, store(key));
    let h2 = step(h1, cache(id));
    assert(h2.phase == PhaseModel::Done((STATUS_OK, payload)));
    assert(drive(h2, store, cache, 7) == (Seq::<(Seq<u8>, Seq<char>)>::empty(), Some((STATUS_OK, payload))));
    assert(drive(h1, store, cache, 8) == drive(h2, store, cache, 7));
    assert(seq![key] + Seq::<(Seq<u8>, Seq<char>)>::empty() =~= seq![key]);
}

proof fn lemma_drive_by_entries(
    h: HandlerModel,
    s1: spec_fn((Seq<u8>, Seq<char>)) -> Option<Seq<u8>>,
    s2: spec_fn((Seq<u8>, Seq<char>)) -> Option<Seq<u8>>,
    cache: spec_fn(Seq<u8>) -> Option<Seq<u8>>,
    fuel: nat,
)
    requires
        forall|k: (Seq<u8>, Seq<char>)| #[trigger] entry_id(s1(k)) == entry_id(s2(k)),
    ensures
        drive(h, s1, cache, fuel) == drive(h, s2, cache, fuel),
    decreases fuel,
{
    if fuel > 0 {
        match h.phase {
            PhaseModel::Done(_) => {},
            PhaseModel::Reading(k) => {
                assert(entry_id(s1(k)) == entry_id(s2(k)));
                assert(step(h, s1(k)) == step(h, s2(k)));
                lemma_drive_by_entries(step(h, s1(k)), s1, s2, cache, (fuel - 1) as nat);
            },
            PhaseModel::Fetching(id) => {
                lemma_drive_by_entries(step(h, cache(id)), s1, s2, cache, (fuel - 1) as nat);
            },
        }
    }
}

/// An entry at the `UserData` stage's key whose bytes do not decode is
/// handled as no entry at all: the store without it gives the same keys read
/// and the same answer.
pub proof fn lemma_malformed_user_entry_is_absent(
    root: Seq<u8>,
    path: Seq<char>,
    store: spec_fn((Seq<u8>, Seq<char>)) -> Option<Seq<u8>>,
    cache: spec_fn(Seq<u8>) -> Option<Seq<u8>>,
    key: (Seq<u8>, Seq<char>),
    bytes: Seq<u8>,
)
    requires
        stage_key(root, path, NextResolveStep::UserData) == Some(key),
        store(key) == Some(bytes),
        scale_bytes_of(bytes) is None,
    ensures
        handle(root, path, store, cache) == handle(
            root,
            path,
            |k: (Seq<u8>, Seq<char>)|
                if k == key {
                    None
                } else {
                    store(k)
                },
            cache,
        ),
{
    let without = |k: (Seq<u8>, Seq<char>)|
        if k == key {
            None
        } else {
            store(k)
        };
    assert forall|k: (Seq<u8>, Seq<char>)| #[trigger] entry_id(store(k)) == entry_id(without(k)) by {}
    lemma_drive_by_entries(begin(fresh(root, path)), store, without, cache, run_bound());
}

/// Two requests for the same path, on one server, against an unchanged store
/// and cache, read the same keys in the same order and get the same answer.
pub proof fn lemma_same_path_same_handling(
    server: LfsServer,
    path: Seq<char>,
    first: RequestHandler,
    second: RequestHandler,
    store: spec_fn((Seq<u8>, Seq<char>)) -> Option<Seq<u8>>,
    cache: spec_fn(Seq<u8>) -> Option<Seq<u8>>,
)
    requires
        first@ == begin(fresh(server.root(), path)),
        second@ == begin(fresh(server.root(), path)),
    ensures
        drive(first@, store, cache, run_bound()) == drive(second@, store, cache, run_bound()),
        drive(first@, store, cache, run_bound()) == handle(server.root(), path, store, cache),
{
}

} // verus!
