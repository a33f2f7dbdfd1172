//! Termination requests: the append-only log they are posted to, and the
//! reader that the driver polls.
use vstd::prelude::*;

verus! {

/// Why the loop was asked to stop.
#[derive(Clone, Copy, Debug, PartialEq, Eq, Structural)]
pub enum TerminationReason {
    /// The application finished normally.
    Normal,
    /// The application failed, with the given code.
    Failure(u8),
}

/// An append-only log of termination requests, oldest first.
///
/// Any component may [`post`](TerminationLog::post) to it. Nothing is ever
/// removed, so any number of [`ExitSignal`] readers can follow one log
/// independently.
#[derive(Debug)]
pub struct TerminationLog {
    entries: Vec<TerminationReason>,
}

impl View for TerminationLog {
    type V = Seq<TerminationReason>;

    closed spec fn view(&self) -> Seq<TerminationReason> {
        self.entries@
    }
}

impl TerminationLog {
    /// An empty log.
    pub fn new() -> (log: Self)
        ensures
            log@ == Seq::<TerminationReason>::empty(),
    {
        TerminationLog { entries: Vec::new() }
    }

    /// Appends a request. All earlier entries stay where they are.
    pub fn post(&mut self, reason: TerminationReason)
        ensures
            final(self)@ == old(self)@.push(reason),
    {
        self.entries.push(reason);
    }

    /// The number of requests posted so far.
    pub fn len(&self) -> (n: usize)
        ensures
            n == self@.len(),
    {
        self.entries.len()
    }

    /// Whether nothing has been posted yet.
    pub fn is_empty(&self) -> (b: bool)
        ensures
            b == (self@.len() == 0),
    {
        self.entries.len() == 0
    }

    /// The request at position `index`, if there is one.
    pub fn get(&self, index: usize) -> (r: Option<TerminationReason>)
        ensures
            r == (if index < self@.len() { Some(self@[index as int]) } else { None }),
    {
        if index < self.entries.len() {
            Some(self.entries[index])
        } else {
            None
        }
    }
}

/// What a reader that has consumed `consumed` entries observes in `log`: the
/// last entry if any entry is unconsumed, and nothing otherwise.
pub open spec fn pending(consumed: nat, log: Seq<TerminationReason>) -> Option<TerminationReason> {
    if consumed < log.len() {
        Some(log.last())
    } else {
        None
    }
}

/// Where the cursor of such a reader stands after it has observed `log`: past
/// every entry, and never further back than it stood.
pub open spec fn advanced(consumed: nat, log: Seq<TerminationReason>) -> nat {
    if consumed < log.len() {
        log.len()
    } else {
        consumed
    }
}

/// A reader over a [`TerminationLog`]. It remembers how many entries it has
/// consumed, so each entry is observed at most once by a given reader.
#[derive(Debug)]
pub struct ExitSignal {
    cursor: usize,
}

impl View for ExitSignal {
    type V = nat;

    /// The number of entries consumed so far.
    closed spec fn view(&self) -> nat {
        self.cursor as nat
    }
}

impl ExitSignal {
    /// A reader that has consumed nothing.
    pub fn new() -> (reader: Self)
        ensures
            reader@ == 0,
    {
        ExitSignal { cursor: 0 }
    }

    /// The number of entries consumed so far.
    pub fn consumed(&self) -> (n: usize)
        ensures
            n == self@,
    {
        self.cursor
    }

    /// Returns the last unconsumed request of `log`, dropping the unconsumed
    /// ones before it, and moves the cursor past all of them. Where nothing
    /// is unconsumed it returns `None` and changes nothing.
    pub fn observe_new_requests(&mut self, log: &TerminationLog) -> (r: Option<TerminationReason>)
        ensures
            r == pending(old(self)@, log@),
            final(self)@ == advanced(old(self)@, log@),
    {
        let n = log.entries.len();
        if self.cursor < n {
            self.cursor = n;
            Some(log.entries[n - 1])
        } else {
            None
        }
    }
}

/// A reader's cursor never moves backwards.
pub proof fn law_cursor_never_decreases(consumed: nat, log: Seq<TerminationReason>)
    ensures
        advanced(consumed, log) >= consumed,
{
}

/// A second observation with nothing posted in between finds nothing and
/// leaves the cursor where the first one put it.
pub proof fn law_second_observation_is_empty(consumed: nat, log: Seq<TerminationReason>)
    ensures
        pending(advanced(consumed, log), log) is None,
        advanced(advanced(consumed, log), log) == advanced(consumed, log),
{
}

/// Of two requests posted between polls the later one is observed, and the
/// cursor moves past both.
pub proof fn law_later_request_wins(
    consumed: nat,
    log: Seq<TerminationReason>,
    first: TerminationReason,
    second: TerminationReason,
)
    requires
        consumed <= log.len(),
    ensures
        pending(consumed, log.push(first).push(second)) == Some(second),
        advanced(consumed, log.push(first).push(second)) == log.len() + 2,
{
}

/// An entry is observed at most once: after a reader has observed `log`,
/// whatever it observes in a later state of the log, `log + posted`, is one of
/// the entries posted since.
pub proof fn law_observed_at_most_once(
    consumed: nat,
    log: Seq<TerminationReason>,
    posted: Seq<TerminationReason>,
)
    requires
        consumed <= log.len(),
    ensures
        pending(advanced(consumed, log), log + posted) == pending(0, posted),
        advanced(advanced(consumed, log), log + posted) == log.len() + posted.len(),
{
    if posted.len() > 0 {
        assert((log + posted).last() == posted.last());
    }
}

} // verus!
