//! The log of commands: how its entries are keyed and selected, and what
//! applying and replaying them does to the state.

use vstd::prelude::*;
use vstd::bytes::{spec_u64_from_le_bytes, spec_u64_to_le_bytes, u64_from_le_bytes, u64_to_le_bytes};
use crate::clock::now_millis;
use crate::state_machine::{apply_spec, HiveState, HiveStateView};
use crate::text::{decimal, decimal_text, elem_views};
use crate::types::{ClusterCommand, ClusterCommandView};

verus! {

pub type NodeIdType = u64;

/// A member of the consensus group.
#[derive(Debug, PartialEq, Eq)]
pub struct HiveNode {
    pub addr: String,
    pub hostname: String,
}

impl Clone for HiveNode {
    fn clone(&self) -> (r: Self)
        ensures
            r.addr@ == self.addr@,
            r.hostname@ == self.hostname@,
    {
        HiveNode { addr: self.addr.clone(), hostname: self.hostname.clone() }
    }
}

impl Default for HiveNode {
    fn default() -> (r: Self)
        ensures
            r.addr@.len() == 0,
            r.hostname@.len() == 0,
    {
        HiveNode { addr: String::new(), hostname: String::new() }
    }
}

impl HiveNode {
    /// The node in words: its host name, an at sign and its address.
    pub fn label(&self) -> (r: String)
        ensures
            r@ == self.hostname@ + seq!['@'] + self.addr@,
    {
        let mut s = self.hostname.clone();
        proof {
            reveal_strlit("@");
        }
        s.append("@");
        s.append(self.addr.as_str());
        assert(s@ =~= self.hostname@ + seq!['@'] + self.addr@);
        s
    }
}

/// The key of the entry `index`: its eight bytes, the most significant
/// first.
pub open spec fn key_of(index: u64) -> Seq<u8> {
    spec_u64_to_le_bytes(index).reverse()
}

/// The key under which the log keeps the entry `index`.
pub fn log_key(index: u64) -> (r: [u8; 8])
    ensures
        r@ == key_of(index),
{
    let le = u64_to_le_bytes(index);
    proof {
        vstd::bytes::lemma_auto_spec_u64_to_from_le_bytes();
    }
    assert(le@.len() == 8);
    let r = [le[7], le[6], le[5], le[4], le[3], le[2], le[1], le[0]];
    assert(r@ =~= le@.reverse());
    r
}

/// The index whose key is `key`.
pub fn key_index(key: &[u8; 8]) -> (r: u64)
    ensures
        r == spec_u64_from_le_bytes(key@.reverse()),
{
    let le = vec![key[7], key[6], key[5], key[4], key[3], key[2], key[1], key[0]];
    assert(le@ =~= key@.reverse());
    u64_from_le_bytes(le.as_slice())
}

/// The key of an index leads back to that index.
pub proof fn lemma_key_round_trip(index: u64)
    ensures
        spec_u64_from_le_bytes(key_of(index).reverse()) == index,
{
    vstd::bytes::lemma_auto_spec_u64_to_from_le_bytes();
    assert(key_of(index).reverse() =~= spec_u64_to_le_bytes(index));
}

/// `a` comes before `b` where the two first differ; both are eight bytes
/// long.
pub open spec fn key_before(a: Seq<u8>, b: Seq<u8>) -> bool {
    exists|i: int|
        0 <= i < 8 && a[i] < b[i] && forall|j: int| 0 <= j < i ==> a[j] == b[j]
}

proof fn lemma_bytes_order(a: u64, b: u64)
    ensures
        a < b <==> ({
            let a7 = ((a >> 56) & 0xff) as u8;
            let a6 = ((a >> 48) & 0xff) as u8;
            let a5 = ((a >> 40) & 0xff) as u8;
            let a4 = ((a >> 32) & 0xff) as u8;
            let a3 = ((a >> 24) & 0xff) as u8;
            let a2 = ((a >> 16) & 0xff) as u8;
            let a1 = ((a >> 8) & 0xff) as u8;
            let a0 = (a & 0xff) as u8;
            let b7 = ((b >> 56) & 0xff) as u8;
            let b6 = ((b >> 48) & 0xff) as u8;
            let b5 = ((b >> 40) & 0xff) as u8;
            let b4 = ((b >> 32) & 0xff) as u8;
            let b3 = ((b >> 24) & 0xff) as u8;
            let b2 = ((b >> 16) & 0xff) as u8;
            let b1 = ((b >> 8) & 0xff) as u8;
            let b0 = (b & 0xff) as u8;
            a7 < b7 || (a7 == b7 && (a6 < b6 || (a6 == b6 && (a5 < b5 || (a5 == b5 && (a4 < b4 || (
            a4 == b4 && (a3 < b3 || (a3 == b3 && (a2 < b2 || (a2 == b2 && (a1 < b1 || (a1 == b1
                && a0 < b0)))))))))))))
        }),
{
    assert(a < b <==> ({
        let a7 = ((a >> 56) & 0xff) as u8;
        let a6 = ((a >> 48) & 0xff) as u8;
        let a5 = ((a >> 40) & 0xff) as u8;
        let a4 = ((a >> 32) & 0xff) as u8;
        let a3 = ((a >> 24) & 0xff) as u8;
        let a2 = ((a >> 16) & 0xff) as u8;
        let a1 = ((a >> 8) & 0xff) as u8;
        let a0 = (a & 0xff) as u8;
        let b7 = ((b >> 56) & 0xff) as u8;
        let b6 = ((b >> 48) & 0xff) as u8;
        let b5 = ((b >> 40) & 0xff) as u8;
        let b4 = ((b >> 32) & 0xff) as u8;
        let b3 = ((b >> 24) & 0xff) as u8;
        let b2 = ((b >> 16) & 0xff) as u8;
        let b1 = ((b >> 8) & 0xff) as u8;
        let b0 = (b & 0xff) as u8;
        a7 < b7 || (a7 == b7 && (a6 < b6 || (a6 == b6 && (a5 < b5 || (a5 == b5 && (a4 < b4 || (a4
            == b4 && (a3 < b3 || (a3 == b3 && (a2 < b2 || (a2 == b2 && (a1 < b1 || (a1 == b1 && a0
            < b0)))))))))))))
    })) by (bit_vector);
}

/// The keys of the log stand in the order of their indexes: that is what
/// the most significant byte is in front for.
pub proof fn lemma_keys_ascend(a: u64, b: u64)
    ensures
        key_before(key_of(a), key_of(b)) <==> a < b,
{
    vstd::bytes::spec_u64_to_le_bytes_to_open(a);
    vstd::bytes::spec_u64_to_le_bytes_to_open(b);
    lemma_bytes_order(a, b);
    let ka = key_of(a);
    let kb = key_of(b);
    let la = vstd::bytes::spec_u64_to_le_bytes_open(a);
    let lb = vstd::bytes::spec_u64_to_le_bytes_open(b);
    assert(ka.len() == 8 && kb.len() == 8);
    assert forall|i: int| 0 <= i < 8 implies ka[i] == la[7 - i] && kb[i] == lb[7 - i] by {}
    if a < b {
        let i: int = if ka[0] != kb[0] {
            0
        } else if ka[1] != kb[1] {
            1
        } else if ka[2] != kb[2] {
            2
        } else if ka[3] != kb[3] {
            3
        } else if ka[4] != kb[4] {
            4
        } else if ka[5] != kb[5] {
            5
        } else if ka[6] != kb[6] {
            6
        } else {
            7
        };
        assert(ka[i] < kb[i] && forall|j: int| 0 <= j < i ==> ka[j] == kb[j]);
    }
    if key_before(ka, kb) {
        let i = choose|i: int|
            0 <= i < 8 && ka[i] < kb[i] && forall|j: int| 0 <= j < i ==> ka[j] == kb[j];
        assert(forall|j: int| 0 <= j < i ==> ka[j] == kb[j]);
        if i > 0 {
            assert(ka[0] == kb[0]);
        }
        if i > 1 {
            assert(ka[1] == kb[1]);
        }
        if i > 2 {
            assert(ka[2] == kb[2]);
        }
        if i > 3 {
            assert(ka[3] == kb[3]);
        }
        if i > 4 {
            assert(ka[4] == kb[4]);
        }
        if i > 5 {
            assert(ka[5] == kb[5]);
        }
        if i > 6 {
            assert(ka[6] == kb[6]);
        }
    }
}

/// One end of a range of indexes.
#[derive(Debug, Clone, Copy, PartialEq, Eq)]
pub enum LogBound {
    Included(u64),
    Excluded(u64),
    Unbounded,
}

/// `index` lies in the range from `start` to `end`.
pub open spec fn within(index: u64, start: LogBound, end: LogBound) -> bool {
    &&& match start {
        LogBound::Included(s) => s <= index,
        LogBound::Excluded(s) => s < index,
        LogBound::Unbounded => true,
    }
    &&& match end {
        LogBound::Included(e) => index <= e,
        LogBound::Excluded(e) => index < e,
        LogBound::Unbounded => true,
    }
}

/// `index` lies at or after `limits.0` and, where `limits.1` is there,
/// before it.
pub open spec fn between(index: u64, limits: Option<(u64, Option<u64>)>) -> bool {
    match limits {
        Some((lo, hi)) => lo <= index && (match hi {
            Some(h) => index < h,
            None => true,
        }),
        None => false,
    }
}

/// The first index of a range and the index at which it stops, if it stops;
/// nothing where no index can lie in the range.
pub fn range_limits(start: LogBound, end: LogBound) -> (r: Option<(u64, Option<u64>)>)
    ensures
        forall|index: u64| within(index, start, end) == between(index, r),
{
    let lo: u64 = match start {
        LogBound::Included(s) => s,
        LogBound::Excluded(s) => {
            if s == u64::MAX {
                return None;
            }
            s + 1
        },
        LogBound::Unbounded => 0,
    };
    let hi: Option<u64> = match end {
        LogBound::Included(e) => if e == u64::MAX {
            None
        } else {
            Some(e + 1)
        },
        LogBound::Excluded(e) => Some(e),
        LogBound::Unbounded => None,
    };
    Some((lo, hi))
}

/// The name of a snapshot: the leader of the last entry applied, the index
/// of that entry and the number of the snapshot, with hyphens between them.
pub open spec fn snapshot_name(leader: Seq<char>, last_index: u64, snapshot_idx: u64) -> Seq<char> {
    leader + seq!['-'] + decimal(last_index as nat) + seq!['-'] + decimal(snapshot_idx as nat)
}

/// Writes the name of a snapshot.
pub fn snapshot_id(leader: &str, last_index: u64, snapshot_idx: u64) -> (r: String)
    ensures
        r@ == snapshot_name(leader@, last_index, snapshot_idx),
{
    let mut s = String::from_str(leader);
    proof {
        reveal_strlit("-");
    }
    s.append("-");
    let a = decimal_text(last_index);
    s.append(a.as_str());
    s.append("-");
    let b = decimal_text(snapshot_idx);
    s.append(b.as_str());
    assert(s@ =~= snapshot_name(leader@, last_index, snapshot_idx));
    s
}

/// What identifies an entry of the log.
#[derive(Debug, Clone, Copy, PartialEq, Eq, Structural)]
pub struct LogId {
    pub term: u64,
    pub node_id: u64,
    pub index: u64,
}

/// What an entry holds: nothing, a command, or a change of membership,
/// carried as its text.
#[derive(Debug)]
pub enum EntryPayload {
    Blank,
    Normal(ClusterCommand),
    Membership(String),
}

pub enum EntryPayloadView {
    Blank,
    Normal(ClusterCommandView),
    Membership(Seq<char>),
}

impl View for EntryPayload {
    type V = EntryPayloadView;

    open spec fn view(&self) -> EntryPayloadView {
        match self {
            EntryPayload::Blank => EntryPayloadView::Blank,
            EntryPayload::Normal(c) => EntryPayloadView::Normal(c@),
            EntryPayload::Membership(m) => EntryPayloadView::Membership(m@),
        }
    }
}

/// An entry of the log.
#[derive(Debug)]
pub struct LogEntry {
    pub log_id: LogId,
    pub payload: EntryPayload,
}

pub struct LogEntryView {
    pub log_id: LogId,
    pub payload: EntryPayloadView,
}

impl View for LogEntry {
    type V = LogEntryView;

    open spec fn view(&self) -> LogEntryView {
        LogEntryView { log_id: self.log_id, payload: self.payload@ }
    }
}

/// The state after one entry is applied at `now`: a command takes effect,
/// and the state remembers the index of the entry.
pub open spec fn apply_entry(s: HiveStateView, e: LogEntryView, now: i64) -> HiveStateView {
    let changed = match e.payload {
        EntryPayloadView::Normal(c) => apply_spec(s, c, now),
        _ => s,
    };
    HiveStateView { last_applied_index: e.log_id.index, ..changed }
}

/// The state after `entries` are applied in order at `now`.
pub open spec fn apply_all(s: HiveStateView, entries: Seq<LogEntryView>, now: i64) -> HiveStateView
    decreases entries.len(),
{
    if entries.len() == 0 {
        s
    } else {
        apply_entry(apply_all(s, entries.drop_last(), now), entries.last(), now)
    }
}

/// The state after `entries` are replayed in order at `now`: an entry is
/// applied only where its index lies after the last one that the state has
/// applied.
pub open spec fn replay_all(s: HiveStateView, entries: Seq<LogEntryView>, now: i64)
    -> HiveStateView
    decreases entries.len(),
{
    if entries.len() == 0 {
        s
    } else {
        let before = replay_all(s, entries.drop_last(), now);
        if entries.last().log_id.index > before.last_applied_index {
            apply_entry(before, entries.last(), now)
        } else {
            before
        }
    }
}

/// The indexes of `entries` grow from one entry to the next.
pub open spec fn ascending(entries: Seq<LogEntryView>) -> bool {
    forall|i: int, j: int|
        0 <= i < j < entries.len() ==> entries[i].log_id.index < entries[j].log_id.index
}

/// The membership that the last change among `entries` brought, with the
/// entry that brought it.
pub open spec fn last_membership(entries: Seq<LogEntryView>) -> Option<(LogId, Seq<char>)>
    decreases entries.len(),
{
    if entries.len() == 0 {
        None
    } else {
        match entries.last().payload {
            EntryPayloadView::Membership(m) => Some((entries.last().log_id, m)),
            _ => last_membership(entries.drop_last()),
        }
    }
}

/// What applying a batch of entries leaves to be stored beside the state.
#[derive(Debug)]
pub struct Applied {
    /// The entry applied last.
    pub last_applied: Option<LogId>,
    /// The membership to store, with the entry that brought it.
    pub membership: Option<(LogId, String)>,
    /// How many entries were applied.
    pub count: usize,
}

/// The view of a stored membership.
pub open spec fn membership_view(m: Option<(LogId, String)>) -> Option<(LogId, Seq<char>)> {
    match m {
        Some((id, text)) => Some((id, text@)),
        None => None,
    }
}

/// Applies `entries` to `state` in order, at the instant `now`.
pub fn apply_entries_at(state: &mut HiveState, entries: &Vec<LogEntry>, now: i64) -> (r: Applied)
    ensures
        final(state)@ == apply_all(old(state)@, elem_views(entries@), now),
        r.count == entries@.len(),
        r.last_applied == (if entries@.len() == 0 {
            None
        } else {
            Some(entries@.last().log_id)
        }),
        membership_view(r.membership) == last_membership(elem_views(entries@)),
{
    let ghost all = elem_views(entries@);
    let ghost start = state@;
    let mut last: Option<LogId> = None;
    let mut membership: Option<(LogId, String)> = None;
    let mut i: usize = 0;
    proof {
        assert(all.take(0) =~= Seq::<LogEntryView>::empty());
    }
    while i < entries.len()
        invariant
            i <= entries@.len(),
            all == elem_views(entries@),
            state@ == apply_all(start, all.take(i as int), now),
            last == (if i == 0 {
                None
            } else {
                Some(entries@[i - 1].log_id)
            }),
            membership_view(membership) == last_membership(all.take(i as int)),
        decreases entries.len() - i,
    {
        proof {
            assert(all.take(i + 1).drop_last() =~= all.take(i as int));
            assert(all.take(i + 1).last() == entries@[i as int]@);
        }
        let e = &entries[i];
        match &e.payload {
            EntryPayload::Blank => {},
            EntryPayload::Normal(c) => {
                state.apply_at(c, now);
            },
            EntryPayload::Membership(m) => {
                membership = Some((e.log_id, m.clone()));
            },
        }
        state.last_applied_index = e.log_id.index;
        last = Some(e.log_id);
        i += 1;
    }
    proof {
        assert(all.take(entries@.len() as int) =~= all);
    }
    Applied { last_applied: last, membership, count: entries.len() }
}

/// Applies `entries` to `state` in order, at the current instant.
pub fn apply_entries(state: &mut HiveState, entries: &Vec<LogEntry>) -> (r: Applied)
    ensures
        exists|now: i64|
            final(state)@ == #[trigger] apply_all(old(state)@, elem_views(entries@), now),
        r.count == entries@.len(),
        r.last_applied == (if entries@.len() == 0 {
            None
        } else {
            Some(entries@.last().log_id)
        }),
        membership_view(r.membership) == last_membership(elem_views(entries@)),
{
    let now = now_millis();
    apply_entries_at(state, entries, now)
}

/// Replays `entries` on `state` in order, at the instant `now`, and says how
/// many of them it applied.
pub fn replay_at(state: &mut HiveState, entries: &Vec<LogEntry>, now: i64) -> (r: usize)
    ensures
        final(state)@ == replay_all(old(state)@, elem_views(entries@), now),
        r <= entries@.len(),
{
    let ghost all = elem_views(entries@);
    let ghost start = state@;
    let mut applied: usize = 0;
    let mut i: usize = 0;
    proof {
        assert(all.take(0) =~= Seq::<LogEntryView>::empty());
    }
    while i < entries.len()
        invariant
            i <= entries@.len(),
            applied <= i,
            all == elem_views(entries@),
            state@ == replay_all(start, all.take(i as int), now),
        decreases entries.len() - i,
    {
        proof {
            assert(all.take(i + 1).drop_last() =~= all.take(i as int));
            assert(all.take(i + 1).last() == entries@[i as int]@);
        }
        let e = &entries[i];
        if e.log_id.index > state.last_applied_index {
            match &e.payload {
                EntryPayload::Normal(c) => {
                    state.apply_at(c, now);
                },
                _ => {},
            }
            state.last_applied_index = e.log_id.index;
            applied += 1;
        }
        i += 1;
    }
    proof {
        assert(all.take(entries@.len() as int) =~= all);
    }
    applied
}

/// Replaying entries that the state has applied already changes nothing.
pub proof fn lemma_replay_of_applied(s: HiveStateView, entries: Seq<LogEntryView>, now: i64)
    requires
        forall|i: int|
            0 <= i < entries.len() ==> (#[trigger] entries[i]).log_id.index
                <= s.last_applied_index,
    ensures
        replay_all(s, entries, now) == s,
    decreases entries.len(),
{
    if entries.len() > 0 {
        let before = entries.drop_last();
        assert forall|i: int| 0 <= i < before.len() implies (#[trigger] before[i]).log_id.index
            <= s.last_applied_index by {
            assert(before[i] == entries[i]);
        }
        lemma_replay_of_applied(s, before, now);
        assert(entries.last() == entries[entries.len() - 1]);
    }
}

/// Applying a log is applying its first part and then the rest.
pub proof fn lemma_apply_all_split(
    s: HiveStateView,
    done: Seq<LogEntryView>,
    rest: Seq<LogEntryView>,
    now: i64,
)
    ensures
        apply_all(s, done + rest, now) == apply_all(apply_all(s, done, now), rest, now),
    decreases rest.len(),
{
    if rest.len() == 0 {
        assert(done + rest =~= done);
    } else {
        assert((done + rest).drop_last() =~= done + rest.drop_last());
        assert((done + rest).last() == rest.last());
        lemma_apply_all_split(s, done, rest.drop_last(), now);
    }
}

/// A replay applies what was not applied yet, and that alone: on the state
/// that a first part of an ascending log left, whenever that was, the replay
/// of the whole log at a later instant does what applying the rest of the
/// log at that instant does.
pub proof fn lemma_replay_applies_the_rest(
    s: HiveStateView,
    done: Seq<LogEntryView>,
    rest: Seq<LogEntryView>,
    before: i64,
    after: i64,
)
    requires
        ascending(done + rest),
        done.len() == 0 ==> (forall|i: int|
            0 <= i < rest.len() ==> (#[trigger] rest[i]).log_id.index > s.last_applied_index),
    ensures
        replay_all(apply_all(s, done, before), done + rest, after) == apply_all(
            apply_all(s, done, before),
            rest,
            after,
        ),
    decreases rest.len(),
{
    let log = done + rest;
    let mid = apply_all(s, done, before);
    if rest.len() == 0 {
        assert(log =~= done);
        if done.len() > 0 {
            assert(mid.last_applied_index == done.last().log_id.index);
            assert forall|i: int| 0 <= i < done.len() implies (#[trigger] done[i]).log_id.index
                <= mid.last_applied_index by {
                if i < done.len() - 1 {
                    assert(log[i].log_id.index < log[done.len() - 1].log_id.index);
                }
            }
        }
        lemma_replay_of_applied(mid, done, after);
    } else {
        let shorter = rest.drop_last();
        assert(log.drop_last() =~= done + shorter);
        assert(log.last() == rest.last());
        assert forall|i: int, j: int| 0 <= i < j < (done + shorter).len() implies (done
            + shorter)[i].log_id.index < (done + shorter)[j].log_id.index by {
            assert((done + shorter)[i] == log[i]);
            assert((done + shorter)[j] == log[j]);
        }
        if done.len() == 0 {
            assert forall|i: int| 0 <= i < shorter.len() implies (#[trigger] shorter[i]).log_id.index
                > s.last_applied_index by {
                assert(shorter[i] == rest[i]);
            }
        }
        lemma_replay_applies_the_rest(s, done, shorter, before, after);
        let reached = apply_all(mid, shorter, after);
        if shorter.len() > 0 {
            assert(reached.last_applied_index == shorter.last().log_id.index);
            assert(shorter.last() == log[log.len() - 2]);
            assert(log[log.len() - 2].log_id.index < log[log.len() - 1].log_id.index);
        } else if done.len() > 0 {
            assert(reached == mid);
            assert(mid.last_applied_index == done.last().log_id.index);
            assert(done.last() == log[done.len() - 1]);
            assert(log[done.len() - 1].log_id.index < log[log.len() - 1].log_id.index);
        } else {
            assert(reached == s);
            assert(rest.last() == rest[rest.len() - 1]);
        }
    }
}

/// Recovery loses nothing: on the state that a first part of an ascending
/// log left, the replay of the whole log gives what applying the whole log
/// gives, where both take place at one instant. Where the replay takes place
/// later, the commands replayed that read the clock are dated anew.
pub proof fn lemma_replay_recovers(
    s: HiveStateView,
    done: Seq<LogEntryView>,
    rest: Seq<LogEntryView>,
    now: i64,
)
    requires
        ascending(done + rest),
        done.len() == 0 ==> (forall|i: int|
            0 <= i < rest.len() ==> (#[trigger] rest[i]).log_id.index > s.last_applied_index),
    ensures
        replay_all(apply_all(s, done, now), done + rest, now) == apply_all(s, done + rest, now),
{
    lemma_replay_applies_the_rest(s, done, rest, now, now);
    lemma_apply_all_split(s, done, rest, now);
}

} // verus!
