//! Cached unary execution: one processor per name, with the last good result
//! memoised and reused while the payload is unchanged or the freshness
//! window has not run out.
use vstd::prelude::*;

use crate::bytes::{copy_bytes, same_bytes};
use crate::table::NameTable;
use crate::{prepare, CuteError, CuteProc};

verus! {

/// The cache state of one name, as plain values.
pub ghost struct MemoView {
    /// Freshness window in microseconds; `None` means the cache is
    /// invalidated only by a change of payload.
    pub window: Option<u64>,
    /// Payload of the last successful run.
    pub param: Option<Seq<u8>>,
    /// Result of the last successful run.
    pub result: Option<Seq<u8>>,
    /// Clock reading (microseconds) at the last successful run.
    pub since: Option<u64>,
}

pub open spec fn bytes_of(o: Option<Vec<u8>>) -> Option<Seq<u8>> {
    match o {
        Some(v) => Some(v@),
        None => None,
    }
}

/// The outcome of one `open`/`valid_check`/`call` run, as plain values.
pub open spec fn outcome_of(o: Result<Vec<u8>, String>) -> Result<Seq<u8>, String> {
    match o {
        Ok(v) => Ok(v@),
        Err(e) => Err(e),
    }
}

/// `r` is the reply `expect`, with its bytes compared by value.
pub open spec fn reply_is(r: Result<Vec<u8>, CuteError>, expect: Result<Seq<u8>, CuteError>) -> bool {
    match (r, expect) {
        (Ok(v), Ok(s)) => v@ == s,
        (Err(a), Err(b)) => a == b,
        _ => false,
    }
}

impl MemoView {
    /// Parameter, result and clock are set together, by a successful run.
    pub open spec fn wf(self) -> bool {
        &&& self.param.is_some() == self.result.is_some()
        &&& self.result.is_some() == self.since.is_some()
    }

    /// A cache that has never seen a successful run.
    pub open spec fn empty(window: Option<u64>) -> MemoView {
        MemoView { window, param: None, result: None, since: None }
    }

    /// The window is configured and has not elapsed since the last success.
    pub open spec fn is_fresh(self, now: u64) -> bool {
        match (self.window, self.since) {
            (Some(w), Some(s)) => now <= s + w,
            _ => false,
        }
    }

    /// A call with `payload` at `now` is answered from the cache.
    pub open spec fn hits(self, payload: Seq<u8>, now: u64) -> bool {
        self.is_fresh(now) || self.param == Some(payload)
    }

    /// The cache after the processor was run on `payload` with `outcome`.
    pub open spec fn after_run(self, payload: Seq<u8>, now: u64, outcome: Result<Seq<u8>, String>) -> MemoView {
        match outcome {
            Ok(out) => MemoView { param: Some(payload), result: Some(out), since: Some(now), ..self },
            Err(_) => self,
        }
    }

    /// The reply after the processor was run with `outcome`: its result, else
    /// the cached result, else its error.
    pub open spec fn run_reply(self, outcome: Result<Seq<u8>, String>) -> Result<Seq<u8>, CuteError> {
        match outcome {
            Ok(out) => Ok(out),
            Err(e) => match self.result {
                Some(c) => Ok(c),
                None => Err(CuteError::Processor(e)),
            },
        }
    }

    /// The cache after a call; `outcome` is what the processor would give if run.
    pub open spec fn next(self, payload: Seq<u8>, now: u64, outcome: Result<Seq<u8>, String>) -> MemoView {
        if self.hits(payload, now) {
            self
        } else {
            self.after_run(payload, now, outcome)
        }
    }

    /// The reply to a call; `outcome` is what the processor would give if run.
    pub open spec fn reply(self, payload: Seq<u8>, now: u64, outcome: Result<Seq<u8>, String>) -> Result<Seq<u8>, CuteError> {
        if self.hits(payload, now) {
            Ok(self.result.unwrap())
        } else {
            self.run_reply(outcome)
        }
    }
}

/// Without a freshness window: after a call with `payload` whose run
/// succeeded, a repeat of `payload` is answered from the cache with the same
/// bytes, and a different payload runs the processor and answers with what
/// that run gives.
pub proof fn lemma_same_payload_is_cached(
    m: MemoView,
    payload: Seq<u8>,
    other: Seq<u8>,
    now1: u64,
    now2: u64,
    o1: Result<Seq<u8>, String>,
    o2: Result<Seq<u8>, String>,
)
    requires
        m.wf(),
        m.window is None,
        o1 is Ok,
        other != payload,
    ensures
        m.next(payload, now1, o1).hits(payload, now2),
        m.next(payload, now1, o1).next(payload, now2, o2) == m.next(payload, now1, o1),
        m.next(payload, now1, o1).reply(payload, now2, o2) == m.reply(payload, now1, o1),
        !m.next(payload, now1, o1).hits(other, now2),
        o2 is Ok ==> m.next(payload, now1, o1).reply(other, now2, o2) == Ok::<Seq<u8>, CuteError>(o2->Ok_0),
{
}

/// With a freshness window and a cached result: a call within the window of
/// the last success is answered from the cache whatever its payload; after
/// the window, a call with a payload other than the last one runs the
/// processor.
pub proof fn lemma_freshness_window(m: MemoView, payload: Seq<u8>, now: u64, o: Result<Seq<u8>, String>)
    requires
        m.wf(),
        m.window is Some,
        m.result is Some,
    ensures
        now <= m.since->Some_0 + m.window->Some_0 ==> m.next(payload, now, o) == m
            && m.reply(payload, now, o) == Ok::<Seq<u8>, CuteError>(m.result->Some_0),
        now > m.since->Some_0 + m.window->Some_0 && m.param != Some(payload) ==> m.next(payload, now, o)
            == m.after_run(payload, now, o) && m.reply(payload, now, o) == m.run_reply(o),
{
}

/// Once a result is cached, a call whose run fails answers with the cached
/// result and leaves the cache as it was.
pub proof fn lemma_failure_falls_back(m: MemoView, payload: Seq<u8>, now: u64, e: String)
    requires
        m.wf(),
        m.result is Some,
    ensures
        m.reply(payload, now, Err(e)) == Ok::<Seq<u8>, CuteError>(m.result->Some_0),
        m.next(payload, now, Err(e)) == m,
{
}

/// Runs `open`, `valid_check` and `call` on `proc`, stopping at the first failure.
fn run_proc<P: CuteProc>(proc: &mut P, data: &[u8]) -> Result<Vec<u8>, String> {
    match prepare(proc, data) {
        Ok(()) => proc.call(),
        Err(e) => Err(e),
    }
}

/// One processor bound to a name, with its cache.
pub struct MapperObject<P> {
    proc: P,
    duration: Option<u64>,
    time_check: Option<u64>,
    last_param: Option<Vec<u8>>,
    cache_value: Option<Vec<u8>>,
}

impl<P: CuteProc> MapperObject<P> {
    pub closed spec fn view(&self) -> MemoView {
        MemoView {
            window: self.duration,
            param: bytes_of(self.last_param),
            result: bytes_of(self.cache_value),
            since: self.time_check,
        }
    }

    /// Binds `proc` with an empty cache and the given freshness window.
    pub fn new(proc: P, duration: Option<u64>) -> (r: Self)
        ensures
            r@ == MemoView::empty(duration),
    {
        MapperObject { proc, duration, time_check: None, last_param: None, cache_value: None }
    }

    /// Whether a call with `data` at `now` is answered from the cache.
    pub fn check(&self, data: &[u8], now: u64) -> (r: bool)
        ensures
            r == self@.hits(data@, now),
    {
        let fresh = match (self.duration, self.time_check) {
            (Some(w), Some(s)) => now <= s || now - s <= w,
            _ => false,
        };
        if fresh {
            return true;
        }
        match &self.last_param {
            Some(p) => same_bytes(p.as_slice(), data),
            None => false,
        }
    }

    /// The cached result, if any.
    pub fn get_cache(&self) -> (r: Option<Vec<u8>>)
        ensures
            bytes_of(r) == self@.result,
    {
        match &self.cache_value {
            Some(v) => Some(copy_bytes(v.as_slice())),
            None => None,
        }
    }

    /// Records the outcome of running the processor on `data` at `now`, and
    /// gives the reply: the new result, else the cached one, else the error.
    pub fn settle(&mut self, data: &[u8], now: u64, outcome: Result<Vec<u8>, String>) -> (r: Result<Vec<u8>, CuteError>)
        requires
            old(self)@.wf(),
        ensures
            final(self)@.wf(),
            final(self)@ == old(self)@.after_run(data@, now, outcome_of(outcome)),
            reply_is(r, old(self)@.run_reply(outcome_of(outcome))),
    {
        match outcome {
            Ok(result) => {
                self.last_param = Some(copy_bytes(data));
                self.cache_value = Some(copy_bytes(result.as_slice()));
                self.time_check = Some(now);
                Ok(result)
            },
            Err(e) => match self.get_cache() {
                Some(c) => Ok(c),
                None => Err(CuteError::Processor(e)),
            },
        }
    }

    /// Answers a call with `data` at clock reading `now`: from the cache when
    /// it hits, else by running the processor and settling its outcome.
    pub fn call(&mut self, data: &[u8], now: u64) -> (r: Result<Vec<u8>, CuteError>)
        requires
            old(self)@.wf(),
        ensures
            final(self)@.wf(),
            exists|o: Result<Seq<u8>, String>|
                final(self)@ == old(self)@.next(data@, now, o)
                && #[trigger] reply_is(r, old(self)@.reply(data@, now, o)),
    {
        if self.check(data, now) {
            let c = self.get_cache().unwrap();
            let ghost o: Result<Seq<u8>, String> = Ok(Seq::empty());
            assert(reply_is(Ok(c), old(self)@.reply(data@, now, o)));
            Ok(c)
        } else {
            let outcome = run_proc(&mut self.proc, data);
            let ghost o = outcome_of(outcome);
            let r = self.settle(data, now, outcome);
            assert(reply_is(r, old(self)@.reply(data@, now, o)));
            r
        }
    }
}

/// The cached-unary manager: one processor and cache per name.
pub struct Mapper<P> {
    proc_map: NameTable<MapperObject<P>>,
}

impl<P: CuteProc> Mapper<P> {
    pub closed spec fn view(&self) -> Map<Seq<char>, MemoView> {
        self.proc_map.view().map_values(|o: MapperObject<P>| o@)
    }

    pub closed spec fn wf(&self) -> bool {
        &&& self.proc_map.wf()
        &&& forall|k: Seq<char>| #[trigger] self@.contains_key(k) ==> self@[k].wf()
    }

    /// A manager with no names bound.
    pub fn new() -> (r: Self)
        ensures
            r.wf(),
            r@ == Map::<Seq<char>, MemoView>::empty(),
    {
        let r = Mapper { proc_map: NameTable::new() };
        assert(r@ =~= Map::<Seq<char>, MemoView>::empty());
        r
    }

    /// Binds `proc` to `name` with the given freshness window, unless the name
    /// is already bound: then the existing processor and cache are kept.
    pub fn register(&mut self, name: String, proc: P, update_time: Option<u64>)
        requires
            old(self).wf(),
        ensures
            final(self).wf(),
            final(self)@ == if old(self)@.contains_key(name@) {
                old(self)@
            } else {
                old(self)@.insert(name@, MemoView::empty(update_time))
            },
    {
        let ghost k = name@;
        let obj = MapperObject::new(proc, update_time);
        let ghost ov = obj@;
        let added = self.proc_map.insert_absent(name, obj);
        proof {
            if added {
                assert(self@ =~= old(self)@.insert(k, ov));
            } else {
                assert(self@ =~= old(self)@);
            }
        }
    }

    /// Calls the processor bound to `name` with `data` at clock reading `now`,
    /// through its cache; `NotFound` if the name is not bound.
    pub fn call(&mut self, name: &String, data: &[u8], now: u64) -> (r: Result<Vec<u8>, CuteError>)
        requires
            old(self).wf(),
        ensures
            final(self).wf(),
            !old(self)@.contains_key(name@) ==> r == Err::<Vec<u8>, CuteError>(CuteError::NotFound)
                && final(self)@ == old(self)@,
            old(self)@.contains_key(name@) ==> exists|o: Result<Seq<u8>, String>|
                final(self)@ == old(self)@.insert(name@, old(self)@[name@].next(data@, now, o))
                && #[trigger] reply_is(r, old(self)@[name@].reply(data@, now, o)),
    {
        match self.proc_map.find(name) {
            None => Err(CuteError::NotFound),
            Some(i) => {
                let (key, mut obj) = self.proc_map.remove_at(i);
                let ghost k = key@;
                assert(old(self)@.contains_key(k));
                let r = obj.call(data, now);
                let ghost ov = obj@;
                let _ = self.proc_map.insert_absent(key, obj);
                proof {
                    assert(self@ =~= old(self)@.insert(k, ov));
                    assert forall|q: Seq<char>| #[trigger] self@.contains_key(q) implies self@[q].wf() by {
                        if q != k {
                            assert(old(self)@.contains_key(q));
                        }
                    }
                }
                r
            },
        }
    }
}

impl<P: CuteProc> Default for Mapper<P> {
    fn default() -> (r: Self)
        ensures
            r.wf(),
            r@ == Map::<Seq<char>, MemoView>::empty(),
    {
        Mapper::new()
    }
}

} // verus!
