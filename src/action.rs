//! The execution-strategy managers, the registration kinds and the stream
//! sessions that the streaming managers hand out.
use vstd::prelude::*;

use crate::{CuteError, CuteProc};

pub mod atomic_stream;
pub mod cache_unary;
pub mod multi_stream;

verus! {

/// How a name is executed, with the processor's label and its factory.
pub enum CuteProcType<F> {
    /// Unary calls answered through a cache of the last good result; the
    /// optional window (microseconds) also expires the cache by age.
    CacheUnary(String, F, Option<u64>),
    /// Streams of which only the most recently started one runs.
    AtomicStream(String, F),
    /// Streams that run side by side without limit.
    MultiStream(String, F),
}

impl<F> CuteProcType<F> {
    pub fn new_cache_unary(name: String, creator: F, update_time: Option<u64>) -> (r: Self)
        ensures
            r == CuteProcType::CacheUnary(name, creator, update_time),
    {
        CuteProcType::CacheUnary(name, creator, update_time)
    }

    pub fn new_atomic_stream(name: String, creator: F) -> (r: Self)
        ensures
            r == CuteProcType::AtomicStream(name, creator),
    {
        CuteProcType::AtomicStream(name, creator)
    }

    pub fn new_multi_stream(name: String, creator: F) -> (r: Self)
        ensures
            r == CuteProcType::MultiStream(name, creator),
    {
        CuteProcType::MultiStream(name, creator)
    }
}

/// The ticket of one exclusive stream: the name it streams and the
/// generation it was started under.
pub struct StreamToken {
    pub name: String,
    pub id: u64,
}

/// A running stream: a processor polled once per element. An exclusive
/// stream carries its token; a concurrent one carries none.
pub struct CuteStream<P> {
    proc: P,
    token: Option<StreamToken>,
    ended: bool,
}

impl<P: CuteProc> CuteStream<P> {
    /// The token as plain values: name and generation.
    pub closed spec fn token_spec(&self) -> Option<(Seq<char>, u64)> {
        match self.token {
            Some(t) => Some((t.name@, t.id)),
            None => None,
        }
    }

    /// The stream has terminated and yields nothing more.
    pub closed spec fn ended_spec(&self) -> bool {
        self.ended
    }

    pub fn new(proc: P, token: Option<StreamToken>) -> (r: Self)
        ensures
            r.token_spec() == match token {
                Some(t) => Some((t.name@, t.id)),
                None => None::<(Seq<char>, u64)>,
            },
            !r.ended_spec(),
    {
        CuteStream { proc, token, ended: false }
    }

    /// The exclusive-stream token, if any.
    pub fn token(&self) -> (r: Option<&StreamToken>)
        ensures
            match r {
                Some(t) => self.token_spec() == Some((t.name@, t.id)),
                None => self.token_spec() is None,
            },
    {
        match &self.token {
            Some(t) => Some(t),
            None => None,
        }
    }

    /// Whether the stream has terminated.
    pub fn is_ended(&self) -> (r: bool)
        ensures
            r == self.ended_spec(),
    {
        self.ended
    }

    /// The next element. `live` says whether the stream's token is still
    /// open. A stream whose token was seen closed ends for good and yields
    /// `None` from then on; otherwise it yields one `call()` result, with a
    /// failure as an error element.
    pub fn next_item(&mut self, live: bool) -> (r: Option<Result<Vec<u8>, CuteError>>)
        ensures
            final(self).token_spec() == old(self).token_spec(),
            final(self).ended_spec() == (old(self).ended_spec() || !live),
            r is None <==> final(self).ended_spec(),
            r matches Some(Err(e)) ==> e is Processor,
    {
        if self.ended || !live {
            self.ended = true;
            return None;
        }
        match self.proc.call() {
            Ok(v) => Some(Ok(v)),
            Err(e) => Some(Err(CuteError::Processor(e))),
        }
    }
}

} // verus!
