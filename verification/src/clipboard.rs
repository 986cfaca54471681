//! Clipboard history: per user, the most recent copies, newest first,
//! bounded to a fixed number of entries and kept in memory only.
use vstd::prelude::*;
use vstd::string::StringExecFns;
use std::collections::HashMap;

verus! {

broadcast use vstd::std_specs::hash::group_hash_axioms;

/// A single clipboard history entry recording what was copied and when.
pub struct ClipboardEntry {
    pub content: String,
    pub prompt_title: String,
    pub copied_at: String,
}

/// The characters of an entry's content, title and timestamp.
pub type EntryView = (Seq<char>, Seq<char>, Seq<char>);

/// The view of an entry.
pub open spec fn entry_view(e: ClipboardEntry) -> EntryView {
    (e.content@, e.prompt_title@, e.copied_at@)
}

/// The views of a list of entries.
pub open spec fn entries_view(v: Seq<ClipboardEntry>) -> Seq<EntryView> {
    Seq::new(v.len(), |i: int| entry_view(v[i]))
}

impl ClipboardEntry {
    /// A copy of the entry.
    pub fn duplicate(&self) -> (e: ClipboardEntry)
        ensures
            entry_view(e) == entry_view(*self),
    {
        ClipboardEntry {
            content: self.content.clone(),
            prompt_title: self.prompt_title.clone(),
            copied_at: self.copied_at.clone(),
        }
    }
}

/// Maximum number of clipboard history entries retained per user.
pub const CLIPBOARD_HISTORY_CAPACITY: usize = 50;

/// A history after recording `e`: `e` in front, the oldest entries beyond
/// the capacity dropped.
pub open spec fn pushed(h: Seq<EntryView>, e: EntryView) -> Seq<EntryView> {
    let n = seq![e] + h;
    if n.len() > CLIPBOARD_HISTORY_CAPACITY {
        n.take(CLIPBOARD_HISTORY_CAPACITY as int)
    } else {
        n
    }
}

/// One operation on a clipboard: a copy recorded for a user (`Some` entry)
/// or a user's history cleared (`None`).
pub type ClipOp = (i64, Option<EntryView>);

/// The history of `user` that a new clipboard holds after the operations
/// `ops`, oldest operation first: a copy by the user is recorded as `push`
/// records it, a clear by the user empties the history, and operations of
/// other users leave it alone.
pub open spec fn replayed(ops: Seq<ClipOp>, user: i64) -> Seq<EntryView>
    decreases ops.len(),
{
    if ops.len() == 0 {
        Seq::empty()
    } else {
        let prev = replayed(ops.drop_last(), user);
        let (u, op) = ops.last();
        if u != user {
            prev
        } else {
            match op {
                Some(e) => pushed(prev, e),
                None => Seq::empty(),
            }
        }
    }
}

/// The entries copied by `user` since the user's last clear (or since the
/// start), newest first.
pub open spec fn copied_since_clear(ops: Seq<ClipOp>, user: i64) -> Seq<EntryView>
    decreases ops.len(),
{
    if ops.len() == 0 {
        Seq::empty()
    } else {
        let prev = copied_since_clear(ops.drop_last(), user);
        let (u, op) = ops.last();
        if u != user {
            prev
        } else {
            match op {
                Some(e) => seq![e] + prev,
                None => Seq::empty(),
            }
        }
    }
}

/// The newest `CLIPBOARD_HISTORY_CAPACITY` entries of a newest-first list
/// (all of them when there are no more).
pub open spec fn newest(s: Seq<EntryView>) -> Seq<EntryView> {
    if s.len() > CLIPBOARD_HISTORY_CAPACITY {
        s.take(CLIPBOARD_HISTORY_CAPACITY as int)
    } else {
        s
    }
}

/// In-memory ring buffer of recent clipboard operations, keyed by user id
/// for user isolation; each user has their own history, newest first.
pub struct ClipboardState {
    per_user: HashMap<i64, Vec<ClipboardEntry>>,
    ops: Ghost<Seq<ClipOp>>,
}

impl ClipboardState {
    /// The history of every user that has one.
    pub closed spec fn view(&self) -> Map<i64, Seq<EntryView>> {
        Map::new(
            |u: i64| self.per_user@.contains_key(u),
            |u: i64| entries_view(self.per_user@[u]@),
        )
    }

    /// The operations applied since the clipboard was created, oldest first.
    pub closed spec fn log(&self) -> Seq<ClipOp> {
        self.ops@
    }

    /// The history of one user (empty when the user has none).
    pub open spec fn history(&self, user_id: i64) -> Seq<EntryView> {
        if self.view().contains_key(user_id) {
            self.view()[user_id]
        } else {
            Seq::empty()
        }
    }

    /// Every history respects the capacity and is what the logged
    /// operations leave.
    pub open spec fn wf(&self) -> bool {
        &&& forall|u: i64| #[trigger] self.view().contains_key(u) ==> self.view()[u].len()
            <= CLIPBOARD_HISTORY_CAPACITY
        &&& forall|u: i64| #[trigger] self.history(u) == replayed(self.log(), u)
    }

    /// An empty clipboard history for all users.
    pub fn new() -> (s: ClipboardState)
        ensures
            s.view() == Map::<i64, Seq<EntryView>>::empty(),
            s.log() == Seq::<ClipOp>::empty(),
            s.wf(),
    {
        let s = ClipboardState { per_user: HashMap::new(), ops: Ghost(Seq::empty()) };
        assert(s.view() =~= Map::<i64, Seq<EntryView>>::empty());
        s
    }

    /// Pushes a new entry to the front of the user's history, evicting the
    /// oldest entry if the history is at capacity. Other users' histories
    /// are unchanged.
    pub fn push(&mut self, user_id: i64, entry: ClipboardEntry)
        requires
            old(self).wf(),
        ensures
            final(self).wf(),
            final(self).view() == old(self).view().insert(
                user_id,
                pushed(old(self).history(user_id), entry_view(entry)),
            ),
            final(self).history(user_id) == pushed(old(self).history(user_id), entry_view(entry)),
            forall|u: i64| u != user_id ==> #[trigger] final(self).history(u) == old(self).history(u),
            final(self).log() == old(self).log().push((user_id, Some(entry_view(entry)))),
    {
        let ghost ev = entry_view(entry);
        let ghost h = self.history(user_id);
        let mut v = match self.per_user.remove(&user_id) {
            Some(v) => v,
            None => Vec::new(),
        };
        assert(entries_view(v@) =~= h);
        v.insert(0, entry);
        assert(entries_view(v@) =~= seq![ev] + h);
        if v.len() > CLIPBOARD_HISTORY_CAPACITY {
            v.truncate(CLIPBOARD_HISTORY_CAPACITY);
        }
        assert(entries_view(v@) =~= pushed(h, ev));
        let ghost old_view = old(self).view();
        let ghost old_log = old(self).log();
        self.per_user.insert(user_id, v);
        self.ops = Ghost(old_log.push((user_id, Some(ev))));
        assert(self.view() =~= old_view.insert(user_id, pushed(h, ev)));
        assert(self.log().drop_last() =~= old_log);
        assert forall|u: i64| #[trigger] self.history(u) == replayed(self.log(), u) by {
            assert(old(self).history(u) == replayed(old_log, u));
        }
    }

    /// Returns a snapshot of the user's history, newest first.
    pub fn entries(&self, user_id: i64) -> (r: Vec<ClipboardEntry>)
        ensures
            entries_view(r@) == self.history(user_id),
    {
        match self.per_user.get(&user_id) {
            Some(v) => {
                let mut out: Vec<ClipboardEntry> = Vec::new();
                let mut i: usize = 0;
                while i < v.len()
                    invariant
                        i <= v@.len(),
                        entries_view(out@) == entries_view(v@).take(i as int),
                    decreases v@.len() - i,
                {
                    let ghost old_out = out@;
                    let e = v[i].duplicate();
                    out.push(e);
                    assert(entries_view(out@) =~= entries_view(old_out).push(entry_view(v@[i as int])));
                    i = i + 1;
                    assert(entries_view(out@) =~= entries_view(v@).take(i as int));
                }
                assert(entries_view(v@).take(v@.len() as int) =~= entries_view(v@));
                out
            },
            None => {
                let out: Vec<ClipboardEntry> = Vec::new();
                assert(entries_view(out@) =~= Seq::<EntryView>::empty());
                out
            },
        }
    }

    /// Removes all entries from the user's history; other users' histories
    /// are unchanged.
    pub fn clear(&mut self, user_id: i64)
        requires
            old(self).wf(),
        ensures
            final(self).wf(),
            final(self).history(user_id) == Seq::<EntryView>::empty(),
            forall|u: i64| u != user_id ==> #[trigger] final(self).history(u) == old(self).history(u),
            final(self).view() == (if old(self).view().contains_key(user_id) {
                old(self).view().insert(user_id, Seq::empty())
            } else {
                old(self).view()
            }),
            final(self).log() == old(self).log().push((user_id, None)),
    {
        let ghost old_view = self.view();
        let ghost old_log = self.log();
        if self.per_user.contains_key(&user_id) {
            let empty: Vec<ClipboardEntry> = Vec::new();
            assert(entries_view(empty@) =~= Seq::<EntryView>::empty());
            self.per_user.insert(user_id, empty);
            assert(self.view() =~= old_view.insert(user_id, Seq::empty()));
        }
        self.ops = Ghost(old_log.push((user_id, None)));
        assert(self.log().drop_last() =~= old_log);
        assert forall|u: i64| #[trigger] self.history(u) == replayed(self.log(), u) by {
            assert(old(self).history(u) == replayed(old_log, u));
        }
    }
}

/// Law: after a push the user's newest entry is the pushed one, followed by
/// the previous entries in order, and the history never exceeds the
/// capacity.
pub proof fn lemma_push_front_bounded(h: Seq<EntryView>, e: EntryView)
    ensures
        pushed(h, e)[0] == e,
        pushed(h, e).len() <= CLIPBOARD_HISTORY_CAPACITY,
        h.len() < CLIPBOARD_HISTORY_CAPACITY ==> pushed(h, e).len() == h.len() + 1,
        forall|i: int| 1 <= i < pushed(h, e).len() ==> #[trigger] pushed(h, e)[i] == h[i - 1],
{
}

/// Replaying operations gives the newest entries copied since the last
/// clear.
pub proof fn lemma_replayed_is_newest(ops: Seq<ClipOp>, user: i64)
    ensures
        replayed(ops, user) == newest(copied_since_clear(ops, user)),
    decreases ops.len(),
{
    if ops.len() > 0 {
        lemma_replayed_is_newest(ops.drop_last(), user);
        let s = copied_since_clear(ops.drop_last(), user);
        let (u, op) = ops.last();
        if u == user {
            if let Some(e) = op {
                let cap = CLIPBOARD_HISTORY_CAPACITY as int;
                if s.len() > cap {
                    assert(pushed(s.take(cap), e) =~= (seq![e] + s).take(cap));
                } else {
                    assert(pushed(s, e) =~= newest(seq![e] + s));
                }
            } else {
                assert(newest(Seq::<EntryView>::empty()) =~= Seq::<EntryView>::empty());
            }
        }
    }
}

/// Law: whatever copies and clears a clipboard has seen since it was
/// created, each user's history holds the newest entries (at most the
/// capacity) of those the user copied since the user's last clear, newest
/// first.
pub proof fn lemma_history_is_newest_copies(s: ClipboardState, user: i64)
    requires
        s.wf(),
    ensures
        s.history(user) == newest(copied_since_clear(s.log(), user)),
        s.history(user).len() <= CLIPBOARD_HISTORY_CAPACITY,
{
    lemma_replayed_is_newest(s.log(), user);
}

} // verus!
