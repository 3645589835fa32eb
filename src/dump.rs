//! The dump exchange: the messages that answer a dump request, classified
//! and folded into the records they carry, until the end-of-dump marker or
//! an error ends it.
use crate::codec::{attrs_view, Attribute};
use crate::records::Record;
use vstd::prelude::*;

verus! {

/// The attributes of one message, as a model.
pub type AttrSet = Seq<(u16, Seq<u8>)>;

/// One message of the response stream, by kind.
#[derive(Clone, Debug)]
pub enum Message {
    /// A no-op message; it is skipped.
    Noop,
    /// The kernel reports an error, with its code.
    Error(i32),
    /// The end-of-dump marker.
    Done,
    /// An ordinary message of type `nl_type` with its attributes. Only one
    /// whose type is the resolved family identifier carries a record.
    Payload { nl_type: u16, attrs: Vec<Attribute> },
    /// A message whose payload is not an attribute set at all.
    Malformed,
}

/// Why a dump failed.
#[derive(Clone, Copy, Debug, PartialEq, Eq, Structural)]
pub enum DumpError {
    /// The kernel reported an error; records received before it are dropped.
    Kernel(i32),
    /// A message could not be read as an attribute set.
    Malformed,
    /// The stream ended before the end-of-dump marker.
    Unterminated,
}

/// Where a dump stands.
#[derive(Clone, Copy, Debug, PartialEq, Eq, Structural)]
pub enum Status {
    Receiving,
    Done,
    Failed(DumpError),
}

/// The state after message `m`, for a dump for family `fam` that has
/// collected the attribute sets `sets` and stands at `st`. A finished dump
/// reads nothing more.
pub open spec fn advance(fam: u16, sets: Seq<AttrSet>, st: Status, m: Message) -> (Seq<AttrSet>, Status) {
    if st != Status::Receiving {
        (sets, st)
    } else {
        match m {
            Message::Noop => (sets, st),
            Message::Error(code) => (sets, Status::Failed(DumpError::Kernel(code))),
            Message::Done => (sets, Status::Done),
            Message::Payload { nl_type, attrs } => if nl_type == fam {
                (sets.push(attrs_view(attrs@)), st)
            } else {
                (sets, st)
            },
            Message::Malformed => (sets, Status::Failed(DumpError::Malformed)),
        }
    }
}

/// The state after the messages `msgs`, in order.
pub open spec fn feed(fam: u16, sets: Seq<AttrSet>, st: Status, msgs: Seq<Message>) -> (Seq<AttrSet>, Status)
    decreases msgs.len(),
{
    if msgs.len() == 0 {
        (sets, st)
    } else {
        let next = advance(fam, sets, st, msgs[0]);
        feed(fam, next.0, next.1, msgs.drop_first())
    }
}

/// What a dump state yields: the collected attribute sets once done, the
/// error once failed, and `Unterminated` while still receiving.
pub open spec fn outcome_of(state: (Seq<AttrSet>, Status)) -> Result<Seq<AttrSet>, DumpError> {
    match state.1 {
        Status::Done => Ok(state.0),
        Status::Failed(e) => Err(e),
        Status::Receiving => Err(DumpError::Unterminated),
    }
}

/// What the stream `msgs` yields to a dump for family `fam`.
pub open spec fn outcome(fam: u16, msgs: Seq<Message>) -> Result<Seq<AttrSet>, DumpError> {
    outcome_of(feed(fam, seq![], Status::Receiving, msgs))
}

/// `recs` are the records that the attribute sets `sets` decode into, one
/// for one and in order.
pub open spec fn decoded_all<T: Record>(sets: Seq<AttrSet>, recs: Seq<T>) -> bool {
    recs.len() == sets.len() && forall|j: int| 0 <= j < sets.len() ==> T::decodes_to(sets[j], #[trigger] recs[j])
}

/// A dump in progress for one request.
pub struct Dump<T> {
    family_id: u16,
    records: Vec<T>,
    status: Status,
    sets: Ghost<Seq<AttrSet>>,
}

impl<T: Record> Dump<T> {
    /// The attribute sets collected so far.
    pub closed spec fn sets(&self) -> Seq<AttrSet> {
        self.sets@
    }

    /// Where the dump stands.
    pub closed spec fn spec_status(&self) -> Status {
        self.status
    }

    /// The family identifier whose messages carry records.
    pub closed spec fn spec_family_id(&self) -> u16 {
        self.family_id
    }

    /// The records match the collected attribute sets.
    pub closed spec fn wf(&self) -> bool {
        decoded_all(self.sets@, self.records@)
    }

    /// A dump that has read nothing yet.
    pub fn new(family_id: u16) -> (r: Self)
        ensures
            r.wf(),
            r.sets() == Seq::<AttrSet>::empty(),
            r.spec_status() == Status::Receiving,
            r.spec_family_id() == family_id,
    {
        Dump { family_id, records: Vec::new(), status: Status::Receiving, sets: Ghost(Seq::empty()) }
    }

    /// The family identifier whose messages carry records.
    pub fn family_id(&self) -> (r: u16)
        ensures
            r == self.spec_family_id(),
    {
        self.family_id
    }

    /// Where the dump stands.
    pub fn status(&self) -> (r: Status)
        ensures
            r == self.spec_status(),
    {
        self.status
    }

    /// Whether the dump has ended, so that no further message is read.
    pub fn is_finished(&self) -> (r: bool)
        ensures
            r == (self.spec_status() != Status::Receiving),
    {
        self.status != Status::Receiving
    }

    /// Takes in the next message of the stream.
    pub fn step(&mut self, m: &Message)
        requires
            old(self).wf(),
        ensures
            final(self).wf(),
            final(self).spec_family_id() == old(self).spec_family_id(),
            (final(self).sets(), final(self).spec_status()) == advance(
                old(self).spec_family_id(),
                old(self).sets(),
                old(self).spec_status(),
                *m,
            ),
    {
        if self.status != Status::Receiving {
            return;
        }
        match m {
            Message::Noop => {},
            Message::Error(code) => {
                self.status = Status::Failed(DumpError::Kernel(*code));
            },
            Message::Done => {
                self.status = Status::Done;
            },
            Message::Payload { nl_type, attrs } => {
                if *nl_type == self.family_id {
                    let r = T::decode(attrs);
                    self.records.push(r);
                    self.sets = Ghost(self.sets@.push(attrs_view(attrs@)));
                    assert(forall|j: int| 0 <= j < self.sets@.len() - 1 ==> self.sets@[j] == old(self).sets@[j]);
                    assert(forall|j: int| 0 <= j < self.records@.len() - 1 ==> self.records@[j] == old(self).records@[j]);
                }
            },
            Message::Malformed => {
                self.status = Status::Failed(DumpError::Malformed);
            },
        }
    }

    /// The result of the dump: the records once it is done, the error once
    /// it failed, and `Unterminated` if it is still receiving.
    pub fn finish(self) -> (r: Result<Vec<T>, DumpError>)
        requires
            self.wf(),
        ensures
            match (r, outcome_of((self.sets(), self.spec_status()))) {
                (Ok(v), Ok(sets)) => decoded_all(sets, v@),
                (Err(e), Err(f)) => e == f,
                _ => false,
            },
    {
        match self.status {
            Status::Done => Ok(self.records),
            Status::Failed(e) => Err(e),
            Status::Receiving => Err(DumpError::Unterminated),
        }
    }
}

/// A finished dump stays as it is, whatever follows.
pub proof fn lemma_finished_stays(fam: u16, sets: Seq<AttrSet>, st: Status, msgs: Seq<Message>)
    requires
        st != Status::Receiving,
    ensures
        feed(fam, sets, st, msgs) == (sets, st),
    decreases msgs.len(),
{
    if msgs.len() > 0 {
        lemma_finished_stays(fam, sets, st, msgs.drop_first());
    }
}

/// Runs a dump for family `fam` over a whole response stream, reading up to
/// the message that ends it.
pub fn collect<T: Record>(fam: u16, msgs: &Vec<Message>) -> (r: Result<Vec<T>, DumpError>)
    ensures
        match (r, outcome(fam, msgs@)) {
            (Ok(v), Ok(sets)) => decoded_all(sets, v@),
            (Err(e), Err(f)) => e == f,
            _ => false,
        },
{
    let mut dump: Dump<T> = Dump::new(fam);
    let mut i: usize = 0;
    assert(msgs@.skip(0) =~= msgs@);
    while i < msgs.len() && !dump.is_finished()
        invariant
            i <= msgs.len(),
            dump.wf(),
            dump.spec_family_id() == fam,
            feed(fam, seq![], Status::Receiving, msgs@) == feed(
                fam,
                dump.sets(),
                dump.spec_status(),
                msgs@.skip(i as int),
            ),
        decreases msgs.len() - i,
    {
        assert(msgs@.skip(i as int).drop_first() =~= msgs@.skip(i as int + 1));
        dump.step(&msgs[i]);
        i = i + 1;
    }
    proof {
        if i < msgs.len() {
            lemma_finished_stays(fam, dump.sets(), dump.spec_status(), msgs@.skip(i as int));
        } else {
            assert(msgs@.skip(i as int) =~= Seq::<Message>::empty());
        }
    }
    dump.finish()
}

/// The attribute sets of the ordinary messages `msgs`.
pub open spec fn payload_sets(msgs: Seq<Message>) -> Seq<AttrSet> {
    Seq::new(msgs.len(), |j: int| attrs_view(msgs[j]->attrs@))
}

proof fn lemma_payloads_then_done(fam: u16, sets: Seq<AttrSet>, msgs: Seq<Message>)
    requires
        msgs.len() >= 1,
        msgs.last() is Done,
        forall|j: int| 0 <= j < msgs.len() - 1 ==> (#[trigger] msgs[j] is Payload) && msgs[j]->nl_type == fam,
    ensures
        feed(fam, sets, Status::Receiving, msgs) == (sets + payload_sets(msgs.drop_last()), Status::Done),
    decreases msgs.len(),
{
    if msgs.len() == 1 {
        assert(payload_sets(msgs.drop_last()) =~= seq![]);
        assert(sets + seq![] =~= sets);
        lemma_finished_stays(fam, sets, Status::Done, msgs.drop_first());
    } else {
        let next = sets.push(attrs_view(msgs[0]->attrs@));
        let rest = msgs.drop_first();
        assert forall|j: int| 0 <= j < rest.len() - 1 implies (#[trigger] rest[j] is Payload) && rest[j]->nl_type == fam by {
            assert(rest[j] == msgs[j + 1]);
        }
        lemma_payloads_then_done(fam, next, rest);
        assert(next + payload_sets(rest.drop_last()) =~= sets + payload_sets(msgs.drop_last()));
    }
}

/// A stream of N ordinary messages of the family followed by the
/// end-of-dump marker yields exactly their N attribute sets, in the order
/// they came; N may be zero.
pub proof fn lemma_dump_yields_every_payload(fam: u16, msgs: Seq<Message>)
    requires
        msgs.len() >= 1,
        msgs.last() is Done,
        forall|j: int| 0 <= j < msgs.len() - 1 ==> (#[trigger] msgs[j] is Payload) && msgs[j]->nl_type == fam,
    ensures
        outcome(fam, msgs) == Ok::<Seq<AttrSet>, DumpError>(payload_sets(msgs.drop_last())),
{
    lemma_payloads_then_done(fam, seq![], msgs);
    assert(seq![] + payload_sets(msgs.drop_last()) =~= payload_sets(msgs.drop_last()));
}

proof fn lemma_error_first_fails(fam: u16, sets: Seq<AttrSet>, st: Status, msgs: Seq<Message>, k: int)
    requires
        0 <= k < msgs.len(),
        msgs[k] is Error,
        forall|j: int| 0 <= j < k ==> !(#[trigger] msgs[j] is Done),
        st is Receiving || st is Failed,
    ensures
        feed(fam, sets, st, msgs).1 is Failed,
    decreases msgs.len(),
{
    let next = advance(fam, sets, st, msgs[0]);
    if st is Failed {
        lemma_finished_stays(fam, sets, st, msgs);
    } else if k == 0 {
        lemma_finished_stays(fam, next.0, next.1, msgs.drop_first());
    } else {
        let rest = msgs.drop_first();
        assert forall|j: int| 0 <= j < k - 1 implies !(#[trigger] rest[j] is Done) by {
            assert(rest[j] == msgs[j + 1]);
        }
        assert(!(msgs[0] is Done));
        lemma_error_first_fails(fam, next.0, next.1, rest, k - 1);
    }
}

/// A stream in which a kernel error comes before any end-of-dump marker
/// yields an error, never a list of records.
pub proof fn lemma_kernel_error_fails(fam: u16, msgs: Seq<Message>, k: int)
    requires
        0 <= k < msgs.len(),
        msgs[k] is Error,
        forall|j: int| 0 <= j < k ==> !(#[trigger] msgs[j] is Done),
    ensures
        outcome(fam, msgs) is Err,
{
    lemma_error_first_fails(fam, seq![], Status::Receiving, msgs, k);
}

} // verus!
