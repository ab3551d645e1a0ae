//! A bounded log of event messages: the newest `LOG_CAPACITY` entries, oldest first.

use vstd::prelude::*;

verus! {

/// Largest number of entries an event log keeps.
pub const LOG_CAPACITY: usize = 100;

/// The entries left after `message` is appended to `entries`: the message
/// goes to the end, and when that makes more than `LOG_CAPACITY` entries the
/// oldest one leaves.
pub open spec fn appended(entries: Seq<Seq<char>>, message: Seq<char>) -> Seq<Seq<char>> {
    let grown = entries.push(message);
    if grown.len() > LOG_CAPACITY {
        grown.drop_first()
    } else {
        grown
    }
}

/// The entries left after `messages` have been appended one by one, first to last.
pub open spec fn appended_all(entries: Seq<Seq<char>>, messages: Seq<Seq<char>>) -> Seq<
    Seq<char>,
>
    decreases messages.len(),
{
    if messages.len() == 0 {
        entries
    } else {
        appended(appended_all(entries, messages.drop_last()), messages.last())
    }
}

/// The last `limit` items of `history`, in their order, or all of it when it
/// holds no more than `limit`.
pub open spec fn most_recent(history: Seq<Seq<char>>, limit: nat) -> Seq<Seq<char>> {
    if history.len() <= limit {
        history
    } else {
        history.subrange(history.len() - limit, history.len() as int)
    }
}

/// Appending to a log that is within capacity keeps the newest `LOG_CAPACITY`
/// of the old entries followed by the new message.
pub proof fn lemma_appended_is_most_recent(entries: Seq<Seq<char>>, message: Seq<char>)
    requires
        entries.len() <= LOG_CAPACITY,
    ensures
        appended(entries, message) == most_recent(entries.push(message), LOG_CAPACITY as nat),
        appended(entries, message).len() <= LOG_CAPACITY,
        appended(entries, message).len() > 0,
        appended(entries, message).last() == message,
{
    let grown = entries.push(message);
    if grown.len() > LOG_CAPACITY {
        assert(grown.drop_first() =~= grown.subrange(
            grown.len() - LOG_CAPACITY,
            grown.len() as int,
        ));
    }
}

/// Whatever is appended, and however often, a log that starts within capacity
/// never grows past `LOG_CAPACITY` entries and always holds the newest
/// `LOG_CAPACITY` (or fewer) of everything it was given, in insertion order.
pub proof fn lemma_log_keeps_most_recent(entries: Seq<Seq<char>>, messages: Seq<Seq<char>>)
    requires
        entries.len() <= LOG_CAPACITY,
    ensures
        appended_all(entries, messages).len() <= LOG_CAPACITY,
        appended_all(entries, messages) == most_recent(entries + messages, LOG_CAPACITY as nat),
    decreases messages.len(),
{
    if messages.len() == 0 {
        assert(entries + messages =~= entries);
    } else {
        let earlier = messages.drop_last();
        let before = appended_all(entries, earlier);
        lemma_log_keeps_most_recent(entries, earlier);
        lemma_appended_is_most_recent(before, messages.last());
        let whole = entries + messages;
        assert(whole =~= (entries + earlier).push(messages.last()));
        assert(most_recent(before.push(messages.last()), LOG_CAPACITY as nat) =~= most_recent(
            whole,
            LOG_CAPACITY as nat,
        ));
    }
}

/// A log that starts empty holds exactly the newest `LOG_CAPACITY` (or fewer)
/// of the messages inserted into it, in insertion order.
pub proof fn lemma_fresh_log_keeps_most_recent(messages: Seq<Seq<char>>)
    ensures
        appended_all(Seq::empty(), messages).len() <= LOG_CAPACITY,
        appended_all(Seq::empty(), messages) == most_recent(messages, LOG_CAPACITY as nat),
{
    lemma_log_keeps_most_recent(Seq::empty(), messages);
    assert(Seq::<Seq<char>>::empty() + messages =~= messages);
}

/// The event log: human-readable messages in insertion order, never more
/// than `LOG_CAPACITY` of them.
pub struct EventLog {
    entries: Vec<String>,
}

impl View for EventLog {
    type V = Seq<Seq<char>>;

    /// The messages held, oldest first, each as its characters.
    closed spec fn view(&self) -> Seq<Seq<char>> {
        self.entries.deep_view()
    }
}

impl EventLog {
    #[verifier::type_invariant]
    spec fn within_capacity(&self) -> bool {
        self.entries.len() <= LOG_CAPACITY
    }

    /// An empty log.
    pub fn new() -> (log: EventLog)
        ensures
            log@ == Seq::<Seq<char>>::empty(),
    {
        let log = EventLog { entries: Vec::new() };
        assert(log@ =~= Seq::<Seq<char>>::empty());
        log
    }

    /// Number of entries held.
    pub fn len(&self) -> (n: usize)
        ensures
            n == self@.len(),
            n <= LOG_CAPACITY,
    {
        proof {
            use_type_invariant(self);
        }
        self.entries.len()
    }

    /// Whether the log holds no entry.
    pub fn is_empty(&self) -> (empty: bool)
        ensures
            empty == (self@.len() == 0),
    {
        self.entries.len() == 0
    }

    /// Appends `message`; when the log is full the oldest entry leaves first.
    pub fn push(&mut self, message: String)
        ensures
            final(self)@ == appended(old(self)@, message@),
            final(self)@ == most_recent(old(self)@.push(message@), LOG_CAPACITY as nat),
            final(self)@.len() <= LOG_CAPACITY,
    {
        proof {
            use_type_invariant(&*self);
            lemma_appended_is_most_recent(self@, message@);
        }
        let ghost before = self@;
        let mut taken = EventLog { entries: Vec::new() };
        core::mem::swap(self, &mut taken);
        let mut entries = taken.entries;
        entries.push(message);
        if entries.len() > LOG_CAPACITY {
            entries.remove(0);
        }
        *self = EventLog { entries };
        assert(self@ =~= appended(before, message@));
    }

    /// The entry at `index`, counted from the oldest, if there is one.
    pub fn get(&self, index: usize) -> (entry: Option<&String>)
        ensures
            entry is Some <==> index < self@.len(),
            entry matches Some(text) ==> text@ == self@[index as int],
    {
        if index < self.entries.len() {
            Some(&self.entries[index])
        } else {
            None
        }
    }

    /// A copy of all entries, oldest first.
    pub fn poll_log(&self) -> (copy: Vec<String>)
        ensures
            copy.deep_view() == self@,
    {
        let mut copy: Vec<String> = Vec::new();
        let mut i: usize = 0;
        while i < self.entries.len()
            invariant
                i <= self.entries.len(),
                copy.len() == i,
                forall|k: int| 0 <= k < i ==> copy[k]@ == self.entries[k]@,
            decreases self.entries.len() - i,
        {
            copy.push(self.entries[i].clone());
            i += 1;
        }
        assert(copy.deep_view() =~= self@);
        copy
    }
}

} // verus!
