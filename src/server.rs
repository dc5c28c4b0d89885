//! Answering a request: resolve its path, read each candidate from the cache,
//! and serve the first payload found, or a fixed not-found answer.
//!
//! The store and the cache are read by the caller: a [`RequestHandler`] names
//! what to read next as an [`Action`] and takes the answer in
//! [`RequestHandler::on_answer`], until the action is to respond.
use vstd::prelude::*;

use crate::step::NextResolveStep;
use crate::user_data::{
    advance, bytes_view, entry_id, pending, settle, ContentId, ResolveModel, StorageKey,
    UserDataResolveIterator, UserDataResolver,
};

verus! {

/// Status of a served payload.
pub const STATUS_OK: u16 = 200;

/// Status of the not-found answer.
pub const STATUS_NOT_FOUND: u16 = 404;

/// The body of the not-found answer: the text `404 - Not found`.
pub open spec fn not_found_body() -> Seq<u8> {
    seq![52u8, 48, 52, 32, 45, 32, 78, 111, 116, 32, 102, 111, 117, 110, 100]
}

pub open spec fn not_found_model() -> (u16, Seq<u8>) {
    (STATUS_NOT_FOUND, not_found_body())
}

/// An answer to a request: a status and a body.
#[derive(Clone, Debug)]
pub struct Response {
    pub status: u16,
    pub body: Vec<u8>,
}

impl View for Response {
    type V = (u16, Seq<u8>);

    open spec fn view(&self) -> (u16, Seq<u8>) {
        (self.status, self.body@)
    }
}

/// The not-found answer.
pub fn not_found() -> (r: Response)
    ensures
        r@ == not_found_model(),
{
    let body: Vec<u8> = vec![52u8, 48, 52, 32, 45, 32, 78, 111, 116, 32, 102, 111, 117, 110, 100];
    assert(body@ =~= not_found_body());
    Response { status: STATUS_NOT_FOUND, body }
}

/// What a request handler asks of its caller.
#[derive(Debug)]
pub enum Action {
    /// Read this key from the store and hand back the entry.
    Read(StorageKey),
    /// Read this identifier from the cache and hand back the payload.
    Fetch(ContentId),
    /// Send this answer; the request is done.
    Respond(Response),
}

pub enum ActionModel {
    Read((Seq<u8>, Seq<char>)),
    Fetch(Seq<u8>),
    Respond((u16, Seq<u8>)),
}

impl View for Action {
    type V = ActionModel;

    open spec fn view(&self) -> ActionModel {
        match self {
            Action::Read(k) => ActionModel::Read(k@),
            Action::Fetch(i) => ActionModel::Fetch(i@),
            Action::Respond(r) => ActionModel::Respond(r@),
        }
    }
}

enum Phase {
    Reading(StorageKey),
    Fetching(ContentId),
    Done(Response),
}

pub enum PhaseModel {
    /// Waiting for the store's entry under this key.
    Reading((Seq<u8>, Seq<char>)),
    /// Waiting for the cache's payload under this identifier.
    Fetching(Seq<u8>),
    /// Answered.
    Done((u16, Seq<u8>)),
}

/// Where the handling of one request stands.
pub struct HandlerModel {
    pub it: ResolveModel,
    pub phase: PhaseModel,
}

/// The resolution to start for `path`.
pub open spec fn fresh(root: Seq<u8>, path: Seq<char>) -> ResolveModel {
    ResolveModel { root, path, next: NextResolveStep::UserData }
}

/// Handling that goes on with resolution `m`: read its next key, or answer
/// not found when no stage is left.
pub open spec fn begin(m: ResolveModel) -> HandlerModel {
    let s = settle(m);
    match pending(s) {
        Some(k) => HandlerModel { it: s, phase: PhaseModel::Reading(k) },
        None => HandlerModel { it: s, phase: PhaseModel::Done(not_found_model()) },
    }
}

/// Handling after `answer` came back for what `h` asked: an entry that holds
/// an identifier leads to the cache, a payload is served, and a miss of
/// either goes on with the next stage.
pub open spec fn step(h: HandlerModel, answer: Option<Seq<u8>>) -> HandlerModel {
    match h.phase {
        PhaseModel::Reading(_) => match entry_id(answer) {
            Some(id) => HandlerModel { it: advance(h.it), phase: PhaseModel::Fetching(id) },
            None => begin(advance(h.it)),
        },
        PhaseModel::Fetching(_) => match answer {
            Some(payload) => HandlerModel { it: h.it, phase: PhaseModel::Done((STATUS_OK, payload)) },
            None => begin(h.it),
        },
        PhaseModel::Done(_) => h,
    }
}

/// What the handler asks for in state `h`.
pub open spec fn action_of(h: HandlerModel) -> ActionModel {
    match h.phase {
        PhaseModel::Reading(k) => ActionModel::Read(k),
        PhaseModel::Fetching(id) => ActionModel::Fetch(id),
        PhaseModel::Done(r) => ActionModel::Respond(r),
    }
}

/// A run of the handler from `h` against a store and a cache, for at most
/// `fuel` answers: the keys read from the store, in order, and the answer
/// sent, if the run got that far.
pub open spec fn drive(
    h: HandlerModel,
    store: spec_fn((Seq<u8>, Seq<char>)) -> Option<Seq<u8>>,
    cache: spec_fn(Seq<u8>) -> Option<Seq<u8>>,
    fuel: nat,
) -> (Seq<(Seq<u8>, Seq<char>)>, Option<(u16, Seq<u8>)>)
    decreases fuel,
{
    match h.phase {
        PhaseModel::Done(r) => (seq![], Some(r)),
        PhaseModel::Reading(k) => if fuel == 0 {
            (seq![], None)
        } else {
            let rest = drive(step(h, store(k)), store, cache, (fuel - 1) as nat);
            (seq![k] + rest.0, rest.1)
        },
        PhaseModel::Fetching(id) => if fuel == 0 {
            (seq![], None)
        } else {
            drive(step(h, cache(id)), store, cache, (fuel - 1) as nat)
        },
    }
}

/// Answers enough for any request: two per stage, and one to spare.
pub open spec fn run_bound() -> nat {
    9
}

/// The handling of a request for `path`, against a store and a cache.
pub open spec fn handle(
    root: Seq<u8>,
    path: Seq<char>,
    store: spec_fn((Seq<u8>, Seq<char>)) -> Option<Seq<u8>>,
    cache: spec_fn(Seq<u8>) -> Option<Seq<u8>>,
) -> (Seq<(Seq<u8>, Seq<char>)>, Option<(u16, Seq<u8>)>) {
    drive(begin(fresh(root, path)), store, cache, run_bound())
}

/// The handling of one request.
pub struct RequestHandler {
    it: UserDataResolveIterator,
    phase: Phase,
}

impl View for RequestHandler {
    type V = HandlerModel;

    closed spec fn view(&self) -> HandlerModel {
        HandlerModel {
            it: self.it@,
            phase: match self.phase {
                Phase::Reading(k) => PhaseModel::Reading(k@),
                Phase::Fetching(i) => PhaseModel::Fetching(i@),
                Phase::Done(r) => PhaseModel::Done(r@),
            },
        }
    }
}

fn copy_key(k: &StorageKey) -> (r: StorageKey)
    ensures
        r@ == k@,
{
    StorageKey { owner: k.owner.clone(), path: k.path.clone() }
}

fn copy_response(r: &Response) -> (c: Response)
    ensures
        c@ == r@,
{
    Response { status: r.status, body: r.body.clone() }
}

impl RequestHandler {
    /// Handling that goes on with resolution `it`.
    fn begin(it: UserDataResolveIterator) -> (r: RequestHandler)
        ensures
            r@ == begin(it@),
    {
        let mut it = it;
        match it.pending_key() {
            Some(k) => RequestHandler { it, phase: Phase::Reading(k) },
            None => RequestHandler { it, phase: Phase::Done(not_found()) },
        }
    }

    /// Goes on with the next stage that has a key, or answers not found.
    fn go_on(&mut self)
        ensures
            final(self)@ == begin(old(self)@.it),
    {
        match self.it.pending_key() {
            Some(k) => {
                self.phase = Phase::Reading(k);
            },
            None => {
                self.phase = Phase::Done(not_found());
            },
        }
    }

    /// What the caller is to do next.
    pub fn action(&self) -> (r: Action)
        ensures
            r@ == action_of(self@),
    {
        match &self.phase {
            Phase::Reading(k) => Action::Read(copy_key(k)),
            Phase::Fetching(i) => Action::Fetch(ContentId { reference: i.reference.clone() }),
            Phase::Done(r) => Action::Respond(copy_response(r)),
        }
    }

    /// Takes what came back for the last action (the store's entry for a
    /// read, the cache's payload for a fetch) and says what to do next. Once
    /// the action is to respond, it stays so.
    pub fn on_answer(&mut self, answer: Option<Vec<u8>>) -> (r: Action)
        ensures
            final(self)@ == step(old(self)@, bytes_view(answer)),
            r@ == action_of(final(self)@),
    {
        match &self.phase {
            Phase::Reading(_) => {
                match self.it.feed(answer) {
                    Some(id) => {
                        self.phase = Phase::Fetching(id);
                    },
                    None => {
                        self.go_on();
                    },
                }
            },
            Phase::Fetching(_) => {
                match answer {
                    Some(payload) => {
                        self.phase = Phase::Done(Response { status: STATUS_OK, body: payload });
                    },
                    None => {
                        self.go_on();
                    },
                }
            },
            Phase::Done(_) => {},
        }
        self.action()
    }
}

/// Serves requests with one resolver; the cache is read by the caller.
pub struct LfsServer {
    resolver: UserDataResolver,
}

impl LfsServer {
    pub closed spec fn root(&self) -> Seq<u8> {
        self.resolver.root()
    }

    pub fn new(resolver: UserDataResolver) -> (r: Self)
        ensures
            r.root() == resolver.root(),
    {
        LfsServer { resolver }
    }

    /// The payload of a cache read; a failed read counts as a miss.
    pub fn read_data<E>(&self, cached: Result<Vec<u8>, E>) -> (r: Option<Vec<u8>>)
        ensures
            r == match cached {
                Ok(p) => Some(p),
                Err(_) => None,
            },
    {
        match cached {
            Ok(p) => Some(p),
            Err(_) => None,
        }
    }

    /// Starts handling a request for `path`.
    pub fn call(&self, path: &str) -> (h: RequestHandler)
        ensures
            h@ == begin(fresh(self.root(), path@)),
    {
        match self.resolver.resolve(path) {
            Some(it) => RequestHandler::begin(it),
            None => RequestHandler {
                it: UserDataResolveIterator::new(Vec::new(), path.to_owned()),
                phase: Phase::Done(not_found()),
            },
        }
    }
}

/// Makes one server per connection, each with its own copy of the resolver.
pub struct MakeSvc {
    resolver: UserDataResolver,
}

impl MakeSvc {
    pub closed spec fn root(&self) -> Seq<u8> {
        self.resolver.root()
    }

    pub fn new(resolver: UserDataResolver) -> (r: Self)
        ensures
            r.root() == resolver.root(),
    {
        MakeSvc { resolver }
    }

    /// A server for a new connection.
    pub fn call(&self) -> (r: LfsServer)
        ensures
            r.root() == self.root(),
    {
        LfsServer::new(self.resolver.clone())
    }
}

} // verus!
