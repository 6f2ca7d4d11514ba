//! Exclusive streaming: starting a stream for a name closes the token of
//! the stream started before it, whose loop then ends at its next poll.
use vstd::prelude::*;

use crate::action::{CuteStream, StreamToken};
use crate::table::NameTable;
use crate::{open_checked, CuteError, CuteProc};

verus! {

/// The exclusive-stream manager: the open generation of each name. Every
/// generation ever issued is below `issued`, so none is issued twice.
pub struct NoneMapper {
    close_token: NameTable<u64>,
    issued: u64,
}

impl NoneMapper {
    /// The open generation of each name.
    pub closed spec fn current(&self) -> Map<Seq<char>, u64> {
        self.close_token.view()
    }

    /// How many generations have been issued.
    pub closed spec fn issued(&self) -> u64 {
        self.issued
    }

    pub closed spec fn wf(&self) -> bool {
        &&& self.close_token.wf()
        &&& forall|k: Seq<char>| #[trigger] self.current().contains_key(k) ==> self.current()[k] < self.issued
    }

    /// The token of generation `id` for `name` is open.
    pub open spec fn is_open(&self, name: Seq<char>, id: u64) -> bool {
        self.current().contains_key(name) && self.current()[name] == id
    }

    /// `after` is `before` with a new generation issued for `name`.
    pub open spec fn rotated(before: NoneMapper, after: NoneMapper, name: Seq<char>) -> bool {
        &&& after.current() == before.current().insert(name, before.issued())
        &&& after.issued() == before.issued() + 1
    }

    /// A manager with no open tokens.
    pub fn new() -> (r: Self)
        ensures
            r.wf(),
            r.current() == Map::<Seq<char>, u64>::empty(),
            r.issued() == 0,
    {
        NoneMapper { close_token: NameTable::new(), issued: 0 }
    }

    /// Closes the open token of `name`, if any, and opens a fresh one.
    fn rotate(&mut self, name: &String)
        requires
            old(self).wf(),
            old(self).issued() < u64::MAX,
        ensures
            final(self).wf(),
            NoneMapper::rotated(*old(self), *final(self), name@),
    {
        let id = self.issued;
        match self.close_token.find(name) {
            Some(i) => {
                let _ = self.close_token.remove_at(i);
            },
            None => {},
        }
        let _ = self.close_token.insert_absent(name.clone(), id);
        self.issued = id + 1;
        assert(self.current() =~= old(self).current().insert(name@, id));
    }

    /// Closes the previous stream of `name` and issues a fresh token, then
    /// prepares `proc` with `open` and `valid_check`, passing on their failure.
    pub fn register<P: CuteProc>(&mut self, name: &String, proc: &mut P, data: &[u8]) -> (r: Result<(), CuteError>)
        requires
            old(self).wf(),
            old(self).issued() < u64::MAX,
        ensures
            final(self).wf(),
            NoneMapper::rotated(*old(self), *final(self), name@),
            r is Err ==> r->Err_0 is Processor,
    {
        self.rotate(name);
        open_checked(proc, data)
    }

    /// How many generations have been issued.
    pub fn issued_count(&self) -> (r: u64)
        ensures
            r == self.issued(),
    {
        self.issued
    }

    /// Whether `token` is still the open token of its name.
    pub fn is_live(&self, token: &StreamToken) -> (r: bool)
        requires
            self.wf(),
        ensures
            r == self.is_open(token.name@, token.id),
    {
        match self.close_token.get(&token.name) {
            Some(id) => *id == token.id,
            None => false,
        }
    }

    /// A stream over `proc` bound to the open token of `name`.
    pub fn call<P: CuteProc>(&self, name: &String, proc: P) -> (s: CuteStream<P>)
        requires
            self.wf(),
            self.current().contains_key(name@),
        ensures
            s.token_spec() == Some((name@, self.current()[name@])),
            self.is_open(name@, self.current()[name@]),
            !s.ended_spec(),
    {
        let id = match self.close_token.get(name) {
            Some(id) => *id,
            None => 0,
        };
        CuteStream::new(proc, Some(StreamToken { name: name.clone(), id }))
    }
}

impl Default for NoneMapper {
    fn default() -> (r: Self)
        ensures
            r.wf(),
            r.current() == Map::<Seq<char>, u64>::empty(),
            r.issued() == 0,
    {
        NoneMapper::new()
    }
}

/// Starting a second exclusive stream for a name closes the token of the
/// first, while the token of the second stays open.
pub proof fn lemma_new_stream_closes_previous(m0: NoneMapper, m1: NoneMapper, m2: NoneMapper, name: Seq<char>)
    requires
        m0.wf(),
        NoneMapper::rotated(m0, m1, name),
        NoneMapper::rotated(m1, m2, name),
    ensures
        m1.is_open(name, m1.current()[name]),
        !m2.is_open(name, m1.current()[name]),
        m2.is_open(name, m2.current()[name]),
{
}

/// A token once closed is never open again, whatever name is started next.
pub proof fn lemma_closed_token_stays_closed(m0: NoneMapper, m1: NoneMapper, started: Seq<char>, name: Seq<char>, id: u64)
    requires
        m0.wf(),
        id < m0.issued(),
        !m0.is_open(name, id),
        NoneMapper::rotated(m0, m1, started),
    ensures
        !m1.is_open(name, id),
{
}

/// Starting a stream for one name leaves the tokens of every other name as they were.
pub proof fn lemma_other_names_untouched(m0: NoneMapper, m1: NoneMapper, started: Seq<char>, name: Seq<char>, id: u64)
    requires
        NoneMapper::rotated(m0, m1, started),
        name != started,
    ensures
        m1.is_open(name, id) == m0.is_open(name, id),
{
}

} // verus!
