//! A request-dispatch core: named processors are registered under one of
//! three execution disciplines and invoked by name with a byte payload.
use std::time::Instant;
use vstd::prelude::*;

use crate::action::cache_unary::{reply_is, Mapper, MemoView};
use crate::action::{atomic_stream, multi_stream, CuteProcType, CuteStream};
use crate::clock::{clock_start, micros_since};
use crate::table::NameTable;

pub mod action;
pub mod bytes;
mod clock;
pub mod table;

verus! {

/// Errors surfaced by the dispatcher and its managers.
#[derive(Debug, PartialEq, Eq)]
pub enum CuteError {
    /// The name is unknown, or is registered under a kind other than the one requested.
    NotFound,
    /// A stream was requested with an exclusive flag that disagrees with the registration.
    KindMismatch,
    /// A processor's `open`, `valid_check` or `call` failed with this message.
    Processor(String),
}

/// A unit of work driven through `open`, `valid_check` and `call`.
///
/// Implementations hold their own state; each instance is driven by one
/// caller at a time.
pub trait CuteProc {
    /// Accepts a request payload and prepares internal state.
    fn open(&mut self, bytes: &[u8]) -> Result<(), String>;

    /// Readiness gate run after `open`; the default is always ready.
    fn valid_check(&self) -> Result<(), String> {
        Ok(())
    }

    /// Produces one unit of output from the current state.
    fn call(&mut self) -> Result<Vec<u8>, String>;
}

/// Runs `open` then `valid_check`, stopping at the first failure.
pub(crate) fn prepare<P: CuteProc>(proc: &mut P, data: &[u8]) -> Result<(), String> {
    match proc.open(data) {
        Ok(()) => proc.valid_check(),
        Err(e) => Err(e),
    }
}

/// Runs `open` then `valid_check`; a failure of either is a processor error.
pub fn open_checked<P: CuteProc>(proc: &mut P, data: &[u8]) -> (r: Result<(), CuteError>)
    ensures
        r is Err ==> r->Err_0 is Processor,
{
    match prepare(proc, data) {
        Ok(()) => Ok(()),
        Err(e) => Err(CuteError::Processor(e)),
    }
}

/// A service that answers a named request with bytes.
pub trait CuteMapper {
    /// Runs the work registered as `name` on `buffer` and returns its result.
    fn execute(&mut self, name: String, buffer: Box<Vec<u8>>) -> Result<Vec<u8>, CuteError>;
}

/// Builds a fresh processor for each session of a registered name.
pub trait CuteCreator<P> {
    fn create(&self) -> P;
}

/// The registry after registering `t` under `name`: the first registration
/// of a name wins.
pub open spec fn registered<F>(reg: Map<Seq<char>, CuteProcType<F>>, name: Seq<char>, t: CuteProcType<F>) -> Map<Seq<char>, CuteProcType<F>> {
    if reg.contains_key(name) {
        reg
    } else {
        reg.insert(name, t)
    }
}

/// Registering a name again, under any kind and factory, leaves the first
/// registration in place.
pub proof fn lemma_register_first_wins<F>(reg: Map<Seq<char>, CuteProcType<F>>, name: Seq<char>, t1: CuteProcType<F>, t2: CuteProcType<F>)
    ensures
        registered(registered(reg, name, t1), name, t2) == registered(reg, name, t1),
        !reg.contains_key(name) ==> registered(registered(reg, name, t1), name, t2)[name] == t1,
{
}

/// The registry and dispatcher: binds names to kinds and factories and
/// routes each invocation to the manager of its kind.
pub struct CuteMap<P, F> {
    name_map: NameTable<CuteProcType<F>>,
    unary_map: Mapper<P>,
    atomic_stream: atomic_stream::NoneMapper,
    multi_stream: multi_stream::NoneMapper,
    started: Instant,
}

impl<P: CuteProc, F: CuteCreator<P>> CuteMap<P, F> {
    /// What each registered name is bound to.
    pub closed spec fn registry(&self) -> Map<Seq<char>, CuteProcType<F>> {
        self.name_map.view()
    }

    /// The cache of each cached-unary name invoked so far.
    pub closed spec fn caches(&self) -> Map<Seq<char>, MemoView> {
        self.unary_map@
    }

    /// The exclusive-stream tokens.
    pub closed spec fn atomic(&self) -> atomic_stream::NoneMapper {
        self.atomic_stream
    }

    pub closed spec fn wf(&self) -> bool {
        &&& self.name_map.wf()
        &&& self.unary_map.wf()
        &&& self.atomic_stream.wf()
    }

    /// The cache that a cached-unary call of `name` starts from.
    pub open spec fn cache_before(&self, name: Seq<char>, update_time: Option<u64>) -> MemoView {
        if self.caches().contains_key(name) {
            self.caches()[name]
        } else {
            MemoView::empty(update_time)
        }
    }

    /// `after` and `r` are the state and reply of a unary invocation of
    /// `name` with `data` at clock reading `now` from `before`.
    pub open spec fn unary_called(before: Self, after: Self, name: Seq<char>, data: Seq<u8>, now: u64, r: Result<Vec<u8>, CuteError>) -> bool {
        &&& after.registry() == before.registry()
        &&& after.atomic() == before.atomic()
        &&& if before.registry().contains_key(name) && before.registry()[name] is CacheUnary {
            let m = before.cache_before(name, before.registry()[name]->CacheUnary_2);
            exists|o: Result<Seq<u8>, String>|
                after.caches() == before.caches().insert(name, m.next(data, now, o))
                && #[trigger] reply_is(r, m.reply(data, now, o))
        } else {
            &&& after.caches() == before.caches()
            &&& r == Err::<Vec<u8>, CuteError>(CuteError::NotFound)
        }
    }

    /// Whether stream `s` may still produce elements: a concurrent stream
    /// always may; an exclusive one while its token is the open one.
    pub open spec fn stream_live(&self, s: CuteStream<P>) -> bool {
        match s.token_spec() {
            Some((n, id)) => self.atomic().is_open(n, id),
            None => true,
        }
    }

    /// Concurrent streams are never closed by the dispatcher, whatever state
    /// it reaches: two of them for the same name both stay live.
    pub proof fn lemma_concurrent_streams_independent(map: Self, s1: CuteStream<P>, s2: CuteStream<P>)
        requires
            s1.token_spec() is None,
            s2.token_spec() is None,
        ensures
            map.stream_live(s1),
            map.stream_live(s2),
    {
    }

    /// Starting a second exclusive stream for a name ends the first stream at
    /// its next poll, while the second stays live.
    pub proof fn lemma_exclusive_restart(m0: Self, m1: Self, m2: Self, name: Seq<char>, first: CuteStream<P>, second: CuteStream<P>)
        requires
            m0.wf(),
            atomic_stream::NoneMapper::rotated(m0.atomic(), m1.atomic(), name),
            atomic_stream::NoneMapper::rotated(m1.atomic(), m2.atomic(), name),
            first.token_spec() == Some((name, m0.atomic().issued())),
            second.token_spec() == Some((name, m1.atomic().issued())),
        ensures
            m1.stream_live(first),
            !m2.stream_live(first),
            m2.stream_live(second),
    {
        atomic_stream::lemma_new_stream_closes_previous(m0.atomic(), m1.atomic(), m2.atomic(), name);
    }

    /// An empty registry.
    pub fn new() -> (r: Self)
        ensures
            r.wf(),
            r.registry() == Map::<Seq<char>, CuteProcType<F>>::empty(),
            r.caches() == Map::<Seq<char>, MemoView>::empty(),
            r.atomic().current() == Map::<Seq<char>, u64>::empty(),
            r.atomic().issued() == 0,
    {
        CuteMap {
            name_map: NameTable::new(),
            unary_map: Mapper::new(),
            atomic_stream: atomic_stream::NoneMapper::new(),
            multi_stream: multi_stream::NoneMapper::new(),
            started: clock_start(),
        }
    }

    /// Binds `name` to `cute_type` unless the name is already bound.
    pub fn register(&mut self, name: String, cute_type: CuteProcType<F>) -> (r: Result<(), CuteError>)
        requires
            old(self).wf(),
        ensures
            final(self).wf(),
            r is Ok,
            final(self).registry() == registered(old(self).registry(), name@, cute_type),
            final(self).caches() == old(self).caches(),
            final(self).atomic() == old(self).atomic(),
    {
        let _ = self.name_map.insert_absent(name, cute_type);
        Ok(())
    }

    /// Unary invocation at clock reading `now`: `NotFound` unless `name` is
    /// registered as cached-unary; else a fresh processor is bound to the
    /// name if none is yet, and the call goes through the name's cache.
    pub fn open_unary_at(&mut self, name: String, data: &[u8], now: u64) -> (r: Result<Vec<u8>, CuteError>)
        requires
            old(self).wf(),
        ensures
            final(self).wf(),
            CuteMap::unary_called(*old(self), *final(self), name@, data@, now, r),
    {
        match self.name_map.get(&name) {
            Some(CuteProcType::CacheUnary(_, creator, update_time)) => {
                let proc = creator.create();
                let w = *update_time;
                self.unary_map.register(name.clone(), proc, w);
                let ghost mid = self.unary_map@;
                let ghost m = old(self).cache_before(name@, w);
                assert(mid.contains_key(name@) && mid[name@] == m);
                let r = self.unary_map.call(&name, data, now);
                proof {
                    let o = choose|o: Result<Seq<u8>, String>|
                        self.unary_map@ == mid.insert(name@, mid[name@].next(data@, now, o))
                        && #[trigger] reply_is(r, mid[name@].reply(data@, now, o));
                    assert(self.caches() =~= old(self).caches().insert(name@, m.next(data@, now, o)));
                }
                r
            },
            _ => Err(CuteError::NotFound),
        }
    }

    /// Unary invocation at the current clock reading.
    pub fn open_unary(&mut self, name: String, data: &[u8]) -> (r: Result<Vec<u8>, CuteError>)
        requires
            old(self).wf(),
        ensures
            final(self).wf(),
            exists|now: u64| #[trigger] CuteMap::unary_called(*old(self), *final(self), name@, data@, now, r),
    {
        let now = micros_since(&self.started);
        self.open_unary_at(name, data, now)
    }

    /// Stream invocation. `NotFound` unless `name` is registered as a stream
    /// kind; `KindMismatch` if `is_atomic` disagrees with that kind. Else a
    /// fresh processor is opened and checked, an exclusive stream first
    /// closing the previous stream of the name, and the stream is returned.
    pub fn open_stream(&mut self, name: String, is_atomic: bool, data: &[u8]) -> (r: Result<CuteStream<P>, CuteError>)
        requires
            old(self).wf(),
            old(self).atomic().issued() < u64::MAX,
        ensures
            final(self).wf(),
            final(self).registry() == old(self).registry(),
            final(self).caches() == old(self).caches(),
            r matches Err(e) ==> (e is NotFound || e is KindMismatch || e is Processor),
            !old(self).registry().contains_key(name@) || old(self).registry()[name@] is CacheUnary
                ==> (r matches Err(CuteError::NotFound)) && final(self).atomic() == old(self).atomic(),
            old(self).registry().contains_key(name@) && (
                old(self).registry()[name@] is AtomicStream && !is_atomic
                || old(self).registry()[name@] is MultiStream && is_atomic)
                ==> (r matches Err(CuteError::KindMismatch)) && final(self).atomic() == old(self).atomic(),
            old(self).registry().contains_key(name@) && old(self).registry()[name@] is AtomicStream && is_atomic ==> {
                &&& atomic_stream::NoneMapper::rotated(old(self).atomic(), final(self).atomic(), name@)
                &&& r matches Ok(s) ==> (s.token_spec() == Some((name@, old(self).atomic().issued())) && !s.ended_spec())
                &&& r matches Err(e) ==> e is Processor
            },
            old(self).registry().contains_key(name@) && old(self).registry()[name@] is MultiStream && !is_atomic ==> {
                &&& final(self).atomic() == old(self).atomic()
                &&& r matches Ok(s) ==> (s.token_spec() is None && !s.ended_spec())
                &&& r matches Err(e) ==> e is Processor
            },
    {
        match self.name_map.get(&name) {
            Some(CuteProcType::AtomicStream(_, creator)) => {
                if is_atomic {
                    let mut proc = creator.create();
                    match self.atomic_stream.register(&name, &mut proc, data) {
                        Ok(()) => Ok(self.atomic_stream.call(&name, proc)),
                        Err(e) => Err(e),
                    }
                } else {
                    Err(CuteError::KindMismatch)
                }
            },
            Some(CuteProcType::MultiStream(_, creator)) => {
                if !is_atomic {
                    let mut proc = creator.create();
                    match self.multi_stream.register(&mut proc, data) {
                        Ok(()) => Ok(self.multi_stream.call(proc)),
                        Err(e) => Err(e),
                    }
                } else {
                    Err(CuteError::KindMismatch)
                }
            },
            _ => Err(CuteError::NotFound),
        }
    }

    /// How many exclusive streams have been started; starting another needs
    /// this below `u64::MAX`.
    pub fn streams_issued(&self) -> (r: u64)
        ensures
            r == self.atomic().issued(),
    {
        self.atomic_stream.issued_count()
    }

    /// Whether `s` may still produce elements: a concurrent stream always
    /// may; an exclusive one while its token is the open one of its name.
    pub fn stream_is_live(&self, s: &CuteStream<P>) -> (r: bool)
        requires
            self.wf(),
        ensures
            r == self.stream_live(*s),
    {
        match s.token() {
            Some(t) => self.atomic_stream.is_live(t),
            None => true,
        }
    }
}

} // verus!
