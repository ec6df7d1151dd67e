//! The error channel.
//!
//! Boundary calls cannot raise exceptions, so every failing operation stores
//! its cause in a per-thread slot and returns a sentinel; the host then asks
//! for the most recent failure explicitly, which reads and clears the slot.
//! The slot itself lives in thread-local storage on the host-facing side;
//! this module holds the slot's verified behaviour.

use vstd::prelude::*;
use crate::text::boundary_text_ok;
use crate::text::check_boundary_text;
use crate::text::lemma_fallback_text_ok;

verus! {

/// One recorded failure: a human-readable description, plus the chain of
/// underlying causes (outermost first) for diagnostic tracing. A record
/// always carries description text fit to cross the boundary.
pub struct ErrorRecord {
    description: String,
    causes: Vec<String>,
}

impl ErrorRecord {
    #[verifier::type_invariant]
    spec fn inv(self) -> bool {
        boundary_text_ok(self.description@)
    }

    /// The description text.
    pub closed spec fn desc(self) -> Seq<char> {
        self.description@
    }

    /// The chain of underlying causes, outermost first.
    pub closed spec fn chain(self) -> Seq<Seq<char>> {
        self.causes.deep_view()
    }

    /// Build a record from a description and its cause chain. Refuses
    /// description text that cannot cross the boundary (empty, or holding a
    /// NUL terminator).
    pub fn new(description: String, causes: Vec<String>) -> (r: Option<ErrorRecord>)
        ensures
            r is Some <==> boundary_text_ok(description@),
            r is Some ==> r->Some_0.desc() == description@,
            r is Some ==> r->Some_0.chain() == causes.deep_view(),
    {
        if check_boundary_text(description.as_str()) {
            Some(ErrorRecord { description, causes })
        } else {
            None
        }
    }

    /// Build a record from description text already known to cross the
    /// boundary, such as one of the library's own fixed descriptions.
    pub fn from_text(description: String, causes: Vec<String>) -> (r: ErrorRecord)
        requires
            boundary_text_ok(description@),
        ensures
            r.desc() == description@,
            r.chain() == causes.deep_view(),
    {
        ErrorRecord { description, causes }
    }

    /// A record for a failure whose own description cannot cross the
    /// boundary.
    pub fn fallback() -> (r: ErrorRecord)
        ensures
            r.desc() == "boundary failure"@,
            r.chain() == Seq::<Seq<char>>::empty(),
    {
        proof {
            lemma_fallback_text_ok();
        }
        let r = ErrorRecord { description: String::from_str("boundary failure"), causes: Vec::new() };
        proof {
            assert(r.chain() =~= Seq::<Seq<char>>::empty());
        }
        r
    }

    /// The description, for emitting across the boundary.
    pub fn message(&self) -> (m: &String)
        ensures
            m@ == self.desc(),
            boundary_text_ok(m@),
    {
        proof {
            use_type_invariant(self);
        }
        &self.description
    }

    /// The cause chain, for the diagnostic trace the caller emits when the
    /// record is stored.
    pub fn cause_chain(&self) -> (c: &Vec<String>)
        ensures
            c.deep_view() == self.chain(),
    {
        &self.causes
    }
}

/// The most-recent-failure slot of one calling thread.
pub struct ErrorSlot {
    last: Option<ErrorRecord>,
}

impl ErrorSlot {
    /// The recorded failure, if any.
    pub closed spec fn view(&self) -> Option<ErrorRecord> {
        self.last
    }

    /// A slot with nothing recorded.
    pub fn empty() -> (s: Self)
        ensures
            s@ is None,
    {
        ErrorSlot { last: None }
    }
}

/// The message a read of the slot yields: the recorded description, or the
/// empty text when nothing is recorded.
pub open spec fn spec_message(o: Option<ErrorRecord>) -> Seq<char> {
    match o {
        Some(e) => e.desc(),
        None => Seq::empty(),
    }
}

/// Store a failure, replacing any prior unread record.
pub fn update_last_error(slot: &mut ErrorSlot, err: ErrorRecord)
    ensures
        final(slot)@ == Some(err),
{
    slot.last = Some(err);
}

/// Read and clear the most recent failure.
pub fn take_last_error(slot: &mut ErrorSlot) -> (r: Option<ErrorRecord>)
    ensures
        r == old(slot)@,
        final(slot)@ is None,
{
    slot.last.take()
}

/// Read and clear the most recent failure as boundary text: its description,
/// or the empty text when nothing is recorded since the last read.
pub fn tor_last_error_message(slot: &mut ErrorSlot) -> (m: String)
    ensures
        final(slot)@ is None,
        m@ == spec_message(old(slot)@),
        old(slot)@ is Some <==> boundary_text_ok(m@),
        crate::text::nul_free(m@),
{
    match take_last_error(slot) {
        Some(e) => {
            proof {
                use_type_invariant(&e);
            }
            e.description
        },
        None => String::new(),
    }
}

/// Law: reading the error message clears the slot, so a second read without
/// an intervening failure yields the empty message, while the first read of
/// a recorded failure never does.
pub proof fn lemma_error_read_idempotent(o: Option<ErrorRecord>)
    ensures
        spec_message(None::<ErrorRecord>) == Seq::<char>::empty(),
        o is Some && boundary_text_ok(o->Some_0.desc()) ==> spec_message(o).len() > 0,
{
}

} // verus!
