//! The tangent side-branch of a conversation: entering it snapshots the
//! transcript, and leaving it folds the branch back under one of three
//! policies.

use vstd::prelude::*;

verus! {

/// One entry of a conversation transcript.
#[derive(Clone, Debug, PartialEq, Eq)]
pub enum Entry {
    /// A user message and the assistant's answer to it.
    Exchange { user: String, assistant: String },
    /// A condensation that stands for a closed branch.
    Summary { text: String },
}

impl Entry {
    /// An equal, independent copy of the entry.
    pub fn duplicate(&self) -> (r: Entry)
        ensures
            r == *self,
    {
        match self {
            Entry::Exchange { user, assistant } => Entry::Exchange {
                user: user.clone(),
                assistant: assistant.clone(),
            },
            Entry::Summary { text } => Entry::Summary { text: text.clone() },
        }
    }
}

/// An open side-branch: the transcript as it stood when the branch was
/// entered, and when that was.
pub struct Branch {
    checkpoint: Vec<Entry>,
    entered_at: u64,
}

/// The abstract state of a conversation.
pub struct ConversationView {
    /// The live transcript.
    pub history: Seq<Entry>,
    /// `Some((checkpoint, entered_at))` in tangent mode, `None` in the main
    /// conversation.
    pub branch: Option<(Seq<Entry>, u64)>,
}

/// A conversation transcript with its optional side-branch.
pub struct Conversation {
    history: Vec<Entry>,
    branch: Option<Branch>,
}

impl View for Conversation {
    type V = ConversationView;

    closed spec fn view(&self) -> ConversationView {
        ConversationView {
            history: self.history@,
            branch: match self.branch {
                Some(b) => Some((b.checkpoint@, b.entered_at)),
                None => None,
            },
        }
    }
}

/// In tangent mode the checkpoint is a prefix of the live transcript: inside
/// a branch, entries are only added at the end.
pub open spec fn well_formed(v: ConversationView) -> bool {
    match v.branch {
        Some((checkpoint, _)) => checkpoint.len() <= v.history.len()
            && v.history.subrange(0, checkpoint.len() as int) == checkpoint,
        None => true,
    }
}

pub open spec fn in_tangent(v: ConversationView) -> bool {
    v.branch is Some
}

/// The checkpoint of an open branch.
pub open spec fn checkpoint_of(v: ConversationView) -> Seq<Entry> {
    v.branch.unwrap().0
}

/// The entries added since the branch was entered.
pub open spec fn branch_entries(v: ConversationView) -> Seq<Entry> {
    v.history.subrange(checkpoint_of(v).len() as int, v.history.len() as int)
}

/// Seconds spent in the branch at time `now`, clamped at zero; `None` in the
/// main conversation.
pub open spec fn duration_at(v: ConversationView, now: u64) -> Option<u64> {
    match v.branch {
        Some((_, entered_at)) => Some(if now >= entered_at { (now - entered_at) as u64 } else { 0 }),
        None => None,
    }
}

/// The state after entering a branch at time `now`; unchanged when one is
/// already open.
pub open spec fn entered(v: ConversationView, now: u64) -> ConversationView {
    match v.branch {
        Some(_) => v,
        None => ConversationView { history: v.history, branch: Some((v.history, now)) },
    }
}

/// The state after one more exchange.
pub open spec fn recorded(v: ConversationView, e: Entry) -> ConversationView {
    ConversationView { history: v.history.push(e), branch: v.branch }
}

/// The state after the exchanges `es`, in order.
pub open spec fn recorded_all(v: ConversationView, es: Seq<Entry>) -> ConversationView
    decreases es.len(),
{
    if es.len() == 0 {
        v
    } else {
        recorded(recorded_all(v, es.drop_last()), es.last())
    }
}

/// Leaving the branch and dropping all it added.
pub open spec fn discarded(v: ConversationView) -> ConversationView {
    match v.branch {
        Some((checkpoint, _)) => ConversationView { history: checkpoint, branch: None },
        None => v,
    }
}

/// Leaving the branch and keeping only its last entry, if it added any.
pub open spec fn tailed(v: ConversationView) -> ConversationView {
    match v.branch {
        Some((checkpoint, _)) => ConversationView {
            history: if v.history.len() > checkpoint.len() {
                checkpoint.push(v.history.last())
            } else {
                checkpoint
            },
            branch: None,
        },
        None => v,
    }
}

/// Leaving the branch and putting one summary entry in its place.
pub open spec fn compacted(v: ConversationView, summary: String) -> ConversationView {
    match v.branch {
        Some((checkpoint, _)) => ConversationView {
            history: checkpoint.push(Entry::Summary { text: summary }),
            branch: None,
        },
        None => v,
    }
}

/// Recording exchanges changes neither the mode nor the checkpoint, and only
/// extends the transcript.
pub proof fn lemma_recorded_all_keeps_branch(v: ConversationView, es: Seq<Entry>)
    ensures
        recorded_all(v, es).branch == v.branch,
        recorded_all(v, es).history == v.history + es,
    decreases es.len(),
{
    if es.len() > 0 {
        lemma_recorded_all_keeps_branch(v, es.drop_last());
        assert(v.history + es =~= (v.history + es.drop_last()).push(es.last()));
    }
}

/// Tangent mode holds from `enter` until the exit that closes the branch,
/// whatever was exchanged in between and whichever exit policy is used, and
/// not before or after.
pub proof fn lemma_tangent_mode_spans_branch(
    v: ConversationView,
    now: u64,
    es: Seq<Entry>,
    summary: String,
)
    requires
        well_formed(v),
        !in_tangent(v),
    ensures
        in_tangent(entered(v, now)),
        in_tangent(recorded_all(entered(v, now), es)),
        !in_tangent(discarded(recorded_all(entered(v, now), es))),
        !in_tangent(tailed(recorded_all(entered(v, now), es))),
        !in_tangent(compacted(recorded_all(entered(v, now), es), summary)),
{
    lemma_recorded_all_keeps_branch(entered(v, now), es);
}

/// The branch duration is `None` exactly outside tangent mode; within one
/// branch, reads at later times never give less, and exchanges do not change
/// it.
pub proof fn lemma_duration_monotonic(v: ConversationView, es: Seq<Entry>, t1: u64, t2: u64)
    requires
        t1 <= t2,
    ensures
        duration_at(v, t1) is None <==> !in_tangent(v),
        in_tangent(v) ==> duration_at(v, t1).unwrap() <= duration_at(v, t2).unwrap(),
        duration_at(recorded_all(v, es), t1) == duration_at(v, t1),
{
    lemma_recorded_all_keeps_branch(v, es);
}

/// Leaving a branch by the tail policy when nothing was exchanged in it gives
/// back the transcript as it was before the branch.
pub proof fn lemma_tail_of_empty_branch(v: ConversationView, now: u64)
    requires
        well_formed(v),
        !in_tangent(v),
    ensures
        tailed(entered(v, now)).history == v.history,
        !in_tangent(tailed(entered(v, now))),
{
}

/// Leaving a branch by the compact policy gives the transcript from before
/// the branch with exactly one summary entry appended, however many
/// exchanges the branch held.
pub proof fn lemma_compact_adds_one_entry(
    v: ConversationView,
    now: u64,
    es: Seq<Entry>,
    summary: String,
)
    requires
        well_formed(v),
        !in_tangent(v),
    ensures
        compacted(recorded_all(entered(v, now), es), summary).history
            == v.history.push(Entry::Summary { text: summary }),
        compacted(recorded_all(entered(v, now), es), summary).history.len()
            == v.history.len() + 1,
{
    lemma_recorded_all_keeps_branch(entered(v, now), es);
}

fn copy_entries(entries: &Vec<Entry>) -> (r: Vec<Entry>)
    ensures
        r@ == entries@,
{
    let mut r: Vec<Entry> = Vec::new();
    let mut i: usize = 0;
    while i < entries.len()
        invariant
            i <= entries.len(),
            r@ == entries@.subrange(0, i as int),
        decreases entries.len() - i,
    {
        r.push(entries[i].duplicate());
        i = i + 1;
        assert(r@ =~= entries@.subrange(0, i as int));
    }
    assert(r@ =~= entries@);
    r
}

impl Conversation {
    pub open spec fn wf(&self) -> bool {
        well_formed(self@)
    }

    /// A conversation in the main transcript with the given entries.
    pub fn new(history: Vec<Entry>) -> (r: Conversation)
        ensures
            r.wf(),
            r@.history == history@,
            r@.branch is None,
    {
        Conversation { history, branch: None }
    }

    /// The live transcript.
    pub fn history(&self) -> (r: &Vec<Entry>)
        ensures
            r@ == self@.history,
    {
        &self.history
    }

    pub fn is_in_tangent_mode(&self) -> (r: bool)
        ensures
            r == in_tangent(self@),
    {
        self.branch.is_some()
    }

    /// Seconds since the branch was entered, at time `now` in seconds; `None`
    /// outside tangent mode. A clock that went back gives zero.
    pub fn duration_seconds(&self, now: u64) -> (r: Option<u64>)
        ensures
            r == duration_at(self@, now),
    {
        match &self.branch {
            Some(b) => Some(now.saturating_sub(b.entered_at)),
            None => None,
        }
    }

    /// Appends an exchange to the live transcript.
    pub fn record_exchange(&mut self, user: String, assistant: String)
        requires
            old(self).wf(),
        ensures
            final(self).wf(),
            final(self)@ == recorded(old(self)@, Entry::Exchange { user, assistant }),
    {
        self.history.push(Entry::Exchange { user, assistant });
        proof {
            if let Some((checkpoint, _)) = old(self)@.branch {
                assert(self@.history.subrange(0, checkpoint.len() as int)
                    =~= old(self)@.history.subrange(0, checkpoint.len() as int));
            }
        }
    }

    /// Opens a branch at time `now`: the current transcript becomes the
    /// checkpoint. Does nothing when a branch is already open.
    pub fn enter(&mut self, now: u64)
        requires
            old(self).wf(),
        ensures
            final(self).wf(),
            final(self)@ == entered(old(self)@, now),
    {
        if self.branch.is_none() {
            let checkpoint = copy_entries(&self.history);
            self.branch = Some(Branch { checkpoint, entered_at: now });
            assert(self@.history.subrange(0, self@.history.len() as int) =~= self@.history);
        }
    }

    /// Leaves the branch, restoring the checkpoint verbatim. Returns the
    /// seconds spent in the branch, or `None` (and changes nothing) outside
    /// tangent mode.
    pub fn exit_discard(&mut self, now: u64) -> (r: Option<u64>)
        requires
            old(self).wf(),
        ensures
            final(self).wf(),
            final(self)@ == discarded(old(self)@),
            r == duration_at(old(self)@, now),
    {
        let r = self.duration_seconds(now);
        if let Some(b) = self.branch.take() {
            self.history = b.checkpoint;
        }
        r
    }

    /// Leaves the branch, restoring the checkpoint and then appending the last
    /// entry made inside the branch, if there is one. Returns the seconds spent
    /// in the branch, or `None` (and changes nothing) outside tangent mode.
    pub fn exit_tail(&mut self, now: u64) -> (r: Option<u64>)
        requires
            old(self).wf(),
        ensures
            final(self).wf(),
            final(self)@ == tailed(old(self)@),
            r == duration_at(old(self)@, now),
    {
        let r = self.duration_seconds(now);
        if let Some(b) = self.branch.take() {
            let last = if self.history.len() > b.checkpoint.len() {
                self.history.pop()
            } else {
                None
            };
            self.history = b.checkpoint;
            if let Some(e) = last {
                self.history.push(e);
            }
        }
        r
    }

    /// Leaves the branch, restoring the checkpoint and then appending one
    /// summary entry holding `summary`. Returns the seconds spent in the
    /// branch, or `None` (and changes nothing) outside tangent mode.
    pub fn exit_compact(&mut self, summary: String, now: u64) -> (r: Option<u64>)
        requires
            old(self).wf(),
        ensures
            final(self).wf(),
            final(self)@ == compacted(old(self)@, summary),
            r == duration_at(old(self)@, now),
    {
        let r = self.duration_seconds(now);
        if let Some(b) = self.branch.take() {
            self.history = b.checkpoint;
            self.history.push(Entry::Summary { text: summary });
        }
        r
    }
}

} // verus!
