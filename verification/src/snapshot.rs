//! Snapshots of the state machine: the whole state as bytes, and back.
//!
//! The state is first laid out as tokens and the tokens are then written as
//! bytes. A text is one token and a number is one token; a value with
//! variants is the number of its variant followed by its fields; a list is
//! its length followed by its items; a table is a list of keys and values.

use vstd::prelude::*;
use crate::codec::{
    all_fit, bytes_tokens, decode_tokens, encode_tokens, tokens_bytes, Token, TokenView,
};
use crate::errors::ErrorKind;
use crate::state_machine::{empty_state, HiveState, HiveStateView};
use crate::store::{distinct_keys, has_key, index_of, put, KeyedStore};
use crate::text::{elem_views, opt_view, views};
use crate::types::{
    Attachment, AttachmentKind, AttachmentKindView, AttachmentView, Goal, GoalView, NodeHealth,
    NodeHealthView, NodeStatus, NodeStatusView, Task, TaskPayload, TaskPayloadView, TaskStatus,
    TaskStatusView, TaskView,
};

verus! {

/// `tail` with the token `t` in front of it.
pub open spec fn cons(t: TokenView, tail: Seq<TokenView>) -> Seq<TokenView> {
    seq![t] + tail
}

/// What `cons` puts together comes apart again.
pub broadcast proof fn lemma_cons(t: TokenView, tail: Seq<TokenView>)
    ensures
        (#[trigger] cons(t, tail)).len() == tail.len() + 1,
        cons(t, tail)[0] == t,
        cons(t, tail).drop_first() == tail,
{
    assert(cons(t, tail).drop_first() =~= tail);
}

/// The tokens of a list of tokens, last first.
pub open spec fn backwards(out: Seq<Token>) -> Seq<TokenView> {
    elem_views(out).reverse()
}

proof fn lemma_backwards_push(out: Seq<Token>, t: Token)
    ensures
        backwards(out.push(t)) == cons(t@, backwards(out)),
{
    assert(backwards(out.push(t)) =~= cons(t@, backwards(out)));
}

/// An instant as a number: its two's complement.
pub open spec fn bits_of(x: i64) -> u64 {
    if x >= 0 {
        x as u64
    } else {
        (x + 0x1_0000_0000_0000_0000) as u64
    }
}

/// The instant that a number stands for.
pub open spec fn signed_of(n: u64) -> i64 {
    if n <= i64::MAX {
        n as i64
    } else {
        (n - 0x1_0000_0000_0000_0000) as i64
    }
}

/// The number at the front of `s`.
pub open spec fn take_num(s: Seq<TokenView>) -> Option<(u64, Seq<TokenView>)> {
    if s.len() > 0 && s[0] is Num {
        Some((s[0]->Num_0, s.drop_first()))
    } else {
        None
    }
}

/// The text at the front of `s`.
pub open spec fn take_text(s: Seq<TokenView>) -> Option<(Seq<char>, Seq<TokenView>)> {
    if s.len() > 0 && s[0] is Text {
        Some((s[0]->Text_0, s.drop_first()))
    } else {
        None
    }
}

/// `tail` with the number `n` in front of it.
pub open spec fn put_num(n: u64, tail: Seq<TokenView>) -> Seq<TokenView> {
    cons(TokenView::Num(n), tail)
}

/// `tail` with the text `s` in front of it.
pub open spec fn put_text(s: Seq<char>, tail: Seq<TokenView>) -> Seq<TokenView> {
    cons(TokenView::Text(s), tail)
}

/// `tail` with the texts `items` in front of it, in order.
pub open spec fn put_text_items(items: Seq<Seq<char>>, tail: Seq<TokenView>) -> Seq<TokenView>
    decreases items.len(),
{
    if items.len() == 0 {
        tail
    } else {
        put_text(items[0], put_text_items(items.drop_first(), tail))
    }
}

/// `tail` with a list of texts in front of it.
pub open spec fn put_texts(items: Seq<Seq<char>>, tail: Seq<TokenView>) -> Seq<TokenView> {
    put_num(items.len() as u64, put_text_items(items, tail))
}

/// The `n` texts at the front of `s`.
pub open spec fn take_text_items(n: nat, s: Seq<TokenView>) -> Option<
    (Seq<Seq<char>>, Seq<TokenView>),
>
    decreases n,
{
    if n == 0 {
        Some((Seq::empty(), s))
    } else {
        match take_text(s) {
            Some((x, rest)) => match take_text_items((n - 1) as nat, rest) {
                Some((xs, end)) => Some((seq![x] + xs, end)),
                None => None,
            },
            None => None,
        }
    }
}

/// The list of texts at the front of `s`.
pub open spec fn take_texts(s: Seq<TokenView>) -> Option<(Seq<Seq<char>>, Seq<TokenView>)> {
    match take_num(s) {
        Some((n, rest)) => take_text_items(n as nat, rest),
        None => None,
    }
}

proof fn lemma_text_items(items: Seq<Seq<char>>, tail: Seq<TokenView>)
    ensures
        take_text_items(items.len(), put_text_items(items, tail)) == Some((items, tail)),
    decreases items.len(),
{
    broadcast use lemma_cons;

    if items.len() > 0 {
        lemma_text_items(items.drop_first(), tail);
        assert(seq![items[0]] + items.drop_first() =~= items);
    }
}

/// `tail` with an optional text in front of it.
pub open spec fn put_opt_text(o: Option<Seq<char>>, tail: Seq<TokenView>) -> Seq<TokenView> {
    match o {
        None => put_num(0, tail),
        Some(s) => put_num(1, put_text(s, tail)),
    }
}

/// The optional text at the front of `s`.
pub open spec fn take_opt_text(s: Seq<TokenView>) -> Option<(Option<Seq<char>>, Seq<TokenView>)> {
    match take_num(s) {
        Some((n, rest)) => if n == 0 {
            Some((None, rest))
        } else if n == 1 {
            match take_text(rest) {
                Some((x, end)) => Some((Some(x), end)),
                None => None,
            }
        } else {
            None
        },
        None => None,
    }
}

/// The number below `limit` at the front of `s`.
pub open spec fn take_small(s: Seq<TokenView>, limit: u64) -> Option<(u64, Seq<TokenView>)> {
    match take_num(s) {
        Some((n, rest)) => if n <= limit {
            Some((n, rest))
        } else {
            None
        },
        None => None,
    }
}

/// Values that a snapshot can hold: how they are laid out in front of what
/// follows them, and how they are found there again.
pub trait Snapshot: View + Sized {
    /// `tail` with the tokens of `v` in front of it.
    spec fn put(v: Self::V, tail: Seq<TokenView>) -> Seq<TokenView>;

    /// The value at the front of `s`, and what follows it.
    spec fn take(s: Seq<TokenView>) -> Option<(Self::V, Seq<TokenView>)>;

    /// What was laid out is found again, and what followed it still
    /// follows.
    proof fn lemma_round_trip(v: Self::V, tail: Seq<TokenView>)
        requires
            Self::sound(v),
        ensures
            Self::take(Self::put(v, tail)) == Some((v, tail)),
    ;

    /// `v` is the view of a value that can exist: its lists have lengths
    /// that a number can hold, and its tables hold no key twice.
    spec fn sound(v: Self::V) -> bool;

    /// Lays the value out in front of what `out` holds; `out` is filled
    /// back to front.
    fn write(&self, out: &mut Vec<Token>)
        ensures
            backwards(final(out)@) == Self::put(self@, backwards(old(out)@)),
            Self::sound(self@),
    ;

    /// Reads a value from the tokens at `pos` on, and says where it ends.
    fn read(tokens: &Vec<Token>, pos: usize) -> (r: Option<(Self, usize)>)
        requires
            pos <= tokens@.len(),
        ensures
            match r {
                Some((x, next)) => pos <= next <= tokens@.len() && Self::take(
                    elem_views(tokens@).skip(pos as int),
                ) == Some((x@, elem_views(tokens@).skip(next as int))),
                None => Self::take(elem_views(tokens@).skip(pos as int)) is None,
            },
    ;
}

fn write_num(out: &mut Vec<Token>, n: u64)
    ensures
        backwards(final(out)@) == put_num(n, backwards(old(out)@)),
{
    proof {
        lemma_backwards_push(out@, Token::Num(n));
    }
    out.push(Token::Num(n));
}

fn write_text(out: &mut Vec<Token>, s: &String)
    ensures
        backwards(final(out)@) == put_text(s@, backwards(old(out)@)),
{
    let t = Token::Text(s.clone());
    proof {
        lemma_backwards_push(out@, t);
    }
    out.push(t);
}

fn write_instant(out: &mut Vec<Token>, x: i64)
    ensures
        backwards(final(out)@) == put_num(bits_of(x), backwards(old(out)@)),
{
    let n: u64 = if x >= 0 {
        x as u64
    } else {
        ((x as i128) + 0x1_0000_0000_0000_0000) as u64
    };
    write_num(out, n);
}

fn write_texts(out: &mut Vec<Token>, items: &Vec<String>)
    ensures
        backwards(final(out)@) == put_texts(views(items@), backwards(old(out)@)),
        items@.len() <= u64::MAX,
{
    let ghost all = views(items@);
    let ghost tail = backwards(out@);
    let mut i: usize = items.len();
    proof {
        assert(all.skip(i as int) =~= Seq::empty());
    }
    while i > 0
        invariant
            i <= items@.len(),
            all == views(items@),
            backwards(out@) == put_text_items(all.skip(i as int), tail),
        decreases i,
    {
        i -= 1;
        proof {
            assert(all.skip(i as int)[0] == items@[i as int]@);
            assert(all.skip(i as int).drop_first() =~= all.skip(i + 1));
        }
        write_text(out, &items[i]);
    }
    proof {
        assert(all.skip(0) =~= all);
    }
    write_num(out, items.len() as u64);
}

fn write_opt_text(out: &mut Vec<Token>, o: &Option<String>)
    ensures
        backwards(final(out)@) == put_opt_text(opt_view(*o), backwards(old(out)@)),
{
    match o {
        None => {
            write_num(out, 0);
        },
        Some(s) => {
            write_text(out, s);
            write_num(out, 1);
        },
    }
}

fn read_num(tokens: &Vec<Token>, pos: usize) -> (r: Option<(u64, usize)>)
    requires
        pos <= tokens@.len(),
    ensures
        match r {
            Some((x, next)) => pos <= next <= tokens@.len() && take_num(
                elem_views(tokens@).skip(pos as int),
            ) == Some((x, elem_views(tokens@).skip(next as int))),
            None => take_num(elem_views(tokens@).skip(pos as int)) is None,
        },
{
    let ghost s = elem_views(tokens@).skip(pos as int);
    if pos >= tokens.len() {
        return None;
    }
    proof {
        assert(s[0] == tokens@[pos as int]@);
        assert(s.drop_first() =~= elem_views(tokens@).skip(pos + 1));
    }
    match &tokens[pos] {
        Token::Num(n) => Some((*n, pos + 1)),
        Token::Text(_) => None,
    }
}

fn read_small(tokens: &Vec<Token>, pos: usize, limit: u64) -> (r: Option<(u64, usize)>)
    requires
        pos <= tokens@.len(),
    ensures
        match r {
            Some((x, next)) => pos <= next <= tokens@.len() && take_small(
                elem_views(tokens@).skip(pos as int),
                limit,
            ) == Some((x, elem_views(tokens@).skip(next as int))),
            None => take_small(elem_views(tokens@).skip(pos as int), limit) is None,
        },
{
    match read_num(tokens, pos) {
        Some((n, next)) => if n <= limit {
            Some((n, next))
        } else {
            None
        },
        None => None,
    }
}

fn read_instant(tokens: &Vec<Token>, pos: usize) -> (r: Option<(i64, usize)>)
    requires
        pos <= tokens@.len(),
    ensures
        match r {
            Some((x, next)) => pos <= next <= tokens@.len() && match take_num(
                elem_views(tokens@).skip(pos as int),
            ) {
                Some((n, rest)) => x == signed_of(n) && rest == elem_views(tokens@).skip(
                    next as int,
                ),
                None => false,
            },
            None => take_num(elem_views(tokens@).skip(pos as int)) is None,
        },
{
    match read_num(tokens, pos) {
        Some((n, next)) => {
            let x: i64 = if n <= i64::MAX as u64 {
                n as i64
            } else {
                ((n as i128) - 0x1_0000_0000_0000_0000) as i64
            };
            Some((x, next))
        },
        None => None,
    }
}

fn read_text(tokens: &Vec<Token>, pos: usize) -> (r: Option<(String, usize)>)
    requires
        pos <= tokens@.len(),
    ensures
        match r {
            Some((x, next)) => pos <= next <= tokens@.len() && take_text(
                elem_views(tokens@).skip(pos as int),
            ) == Some((x@, elem_views(tokens@).skip(next as int))),
            None => take_text(elem_views(tokens@).skip(pos as int)) is None,
        },
{
    let ghost s = elem_views(tokens@).skip(pos as int);
    if pos >= tokens.len() {
        return None;
    }
    proof {
        assert(s[0] == tokens@[pos as int]@);
        assert(s.drop_first() =~= elem_views(tokens@).skip(pos + 1));
    }
    match &tokens[pos] {
        Token::Text(t) => Some((t.clone(), pos + 1)),
        Token::Num(_) => None,
    }
}

/// What a list that is being read comes to: the items read so far, followed
/// by those still to be read.
pub open spec fn joined_items<T>(done: Seq<T>, left: Option<(Seq<T>, Seq<TokenView>)>) -> Option<
    (Seq<T>, Seq<TokenView>),
> {
    match left {
        Some((xs, end)) => Some((done + xs, end)),
        None => None,
    }
}

fn read_texts(tokens: &Vec<Token>, pos: usize) -> (r: Option<(Vec<String>, usize)>)
    requires
        pos <= tokens@.len(),
    ensures
        match r {
            Some((x, next)) => pos <= next <= tokens@.len() && take_texts(
                elem_views(tokens@).skip(pos as int),
            ) == Some((views(x@), elem_views(tokens@).skip(next as int))),
            None => take_texts(elem_views(tokens@).skip(pos as int)) is None,
        },
{
    let ghost ts = elem_views(tokens@);
    let (n, start) = match read_num(tokens, pos) {
        Some(p) => p,
        None => {
            return None;
        },
    };
    let mut out: Vec<String> = Vec::new();
    let mut cur = start;
    let mut k: u64 = 0;
    proof {
        assert(views(out@) =~= Seq::empty());
        match take_text_items(n as nat, ts.skip(start as int)) {
            Some((xs, end)) => {
                assert(Seq::<Seq<char>>::empty() + xs =~= xs);
            },
            None => {},
        }
    }
    while k < n
        invariant
            k <= n,
            start <= cur <= tokens@.len(),
            pos <= start,
            ts == elem_views(tokens@),
            take_num(ts.skip(pos as int)) == Some((n, ts.skip(start as int))),
            take_text_items(n as nat, ts.skip(start as int)) == joined_items(
                views(out@),
                take_text_items((n - k) as nat, ts.skip(cur as int)),
            ),
        decreases n - k,
    {
        let ghost done = views(out@);
        match read_text(tokens, cur) {
            None => {
                assert(take_text_items((n - k) as nat, ts.skip(cur as int)) is None);
                return None;
            },
            Some((x, next)) => {
                proof {
                    match take_text_items((n - k - 1) as nat, ts.skip(next as int)) {
                        Some((xs, end)) => {
                            assert(done + (seq![x@] + xs) =~= done.push(x@) + xs);
                        },
                        None => {},
                    }
                }
                out.push(x);
                proof {
                    assert(views(out@) =~= done.push(x@));
                }
                cur = next;
            },
        }
        k += 1;
    }
    proof {
        assert(views(out@) + Seq::<Seq<char>>::empty() =~= views(out@));
    }
    Some((out, cur))
}

fn read_opt_text(tokens: &Vec<Token>, pos: usize) -> (r: Option<(Option<String>, usize)>)
    requires
        pos <= tokens@.len(),
    ensures
        match r {
            Some((x, next)) => pos <= next <= tokens@.len() && take_opt_text(
                elem_views(tokens@).skip(pos as int),
            ) == Some((opt_view(x), elem_views(tokens@).skip(next as int))),
            None => take_opt_text(elem_views(tokens@).skip(pos as int)) is None,
        },
{
    match read_num(tokens, pos) {
        None => None,
        Some((n, next)) => {
            if n == 0 {
                Some((None, next))
            } else if n == 1 {
                match read_text(tokens, next) {
                    Some((x, end)) => Some((Some(x), end)),
                    None => None,
                }
            } else {
                None
            }
        },
    }
}

impl Snapshot for String {
    open spec fn put(v: Seq<char>, tail: Seq<TokenView>) -> Seq<TokenView> {
        put_text(v, tail)
    }

    open spec fn take(s: Seq<TokenView>) -> Option<(Seq<char>, Seq<TokenView>)> {
        take_text(s)
    }

    open spec fn sound(v: Seq<char>) -> bool {
        true
    }

    proof fn lemma_round_trip(v: Seq<char>, tail: Seq<TokenView>) {
        broadcast use lemma_cons;

    }

    fn write(&self, out: &mut Vec<Token>) {
        write_text(out, self);
    }

    fn read(tokens: &Vec<Token>, pos: usize) -> (r: Option<(Self, usize)>) {
        read_text(tokens, pos)
    }
}

proof fn lemma_texts(items: Seq<Seq<char>>, tail: Seq<TokenView>)
    requires
        items.len() <= u64::MAX,
    ensures
        take_texts(put_texts(items, tail)) == Some((items, tail)),
{
    broadcast use lemma_cons;

    lemma_text_items(items, tail);
}

proof fn lemma_opt_text(o: Option<Seq<char>>, tail: Seq<TokenView>)
    ensures
        take_opt_text(put_opt_text(o, tail)) == Some((o, tail)),
{
    broadcast use lemma_cons;

}

impl Snapshot for NodeHealth {
    open spec fn put(v: NodeHealthView, tail: Seq<TokenView>) -> Seq<TokenView> {
        match v {
            NodeHealthView::Healthy => put_num(0, tail),
            NodeHealthView::Degraded { reason } => put_num(1, put_text(reason, tail)),
            NodeHealthView::Unreachable => put_num(2, tail),
            NodeHealthView::Unknown => put_num(3, tail),
        }
    }

    open spec fn take(s: Seq<TokenView>) -> Option<(NodeHealthView, Seq<TokenView>)> {
        match take_num(s) {
            Some((n, rest)) => if n == 0 {
                Some((NodeHealthView::Healthy, rest))
            } else if n == 1 {
                match take_text(rest) {
                    Some((reason, end)) => Some((NodeHealthView::Degraded { reason }, end)),
                    None => None,
                }
            } else if n == 2 {
                Some((NodeHealthView::Unreachable, rest))
            } else if n == 3 {
                Some((NodeHealthView::Unknown, rest))
            } else {
                None
            },
            None => None,
        }
    }

    open spec fn sound(v: NodeHealthView) -> bool {
        true
    }

    proof fn lemma_round_trip(v: NodeHealthView, tail: Seq<TokenView>) {
        broadcast use lemma_cons;

    }

    fn write(&self, out: &mut Vec<Token>) {
        match self {
            NodeHealth::Healthy => write_num(out, 0),
            NodeHealth::Degraded { reason } => {
                write_text(out, reason);
                write_num(out, 1);
            },
            NodeHealth::Unreachable => write_num(out, 2),
            NodeHealth::Unknown => write_num(out, 3),
        }
    }

    fn read(tokens: &Vec<Token>, pos: usize) -> (r: Option<(Self, usize)>) {
        let (n, next) = read_num(tokens, pos)?;
        if n == 0 {
            Some((NodeHealth::Healthy, next))
        } else if n == 1 {
            let (reason, end) = read_text(tokens, next)?;
            Some((NodeHealth::Degraded { reason }, end))
        } else if n == 2 {
            Some((NodeHealth::Unreachable, next))
        } else if n == 3 {
            Some((NodeHealth::Unknown, next))
        } else {
            None
        }
    }
}

impl Snapshot for NodeStatus {
    open spec fn put(v: NodeStatusView, tail: Seq<TokenView>) -> Seq<TokenView> {
        put_text(
            v.node_id,
            put_text(
                v.hostname,
                put_texts(
                    v.tags,
                    NodeHealth::put(
                        v.health,
                        put_num(
                            bits_of(v.last_heartbeat),
                            put_num(
                                v.cpu_usage as u64,
                                put_num(v.memory_usage as u64, put_num(v.disk_usage as u64, tail)),
                            ),
                        ),
                    ),
                ),
            ),
        )
    }

    open spec fn take(s: Seq<TokenView>) -> Option<(NodeStatusView, Seq<TokenView>)> {
        match take_text(s) {
            Some((node_id, s1)) => match take_text(s1) {
                Some((hostname, s2)) => match take_texts(s2) {
                    Some((tags, s3)) => match NodeHealth::take(s3) {
                        Some((health, s4)) => match take_num(s4) {
                            Some((beat, s5)) => match take_small(s5, u32::MAX as u64) {
                                Some((cpu, s6)) => match take_small(s6, u32::MAX as u64) {
                                    Some((mem, s7)) => match take_small(s7, u32::MAX as u64) {
                                        Some((disk, s8)) => Some(
                                            (
                                                NodeStatusView {
                                                    node_id,
                                                    hostname,
                                                    tags,
                                                    health,
                                                    last_heartbeat: signed_of(beat),
                                                    cpu_usage: cpu as u32,
                                                    memory_usage: mem as u32,
                                                    disk_usage: disk as u32,
                                                },
                                                s8,
                                            ),
                                        ),
                                        None => None,
                                    },
                                    None => None,
                                },
                                None => None,
                            },
                            None => None,
                        },
                        None => None,
                    },
                    None => None,
                },
                None => None,
            },
            None => None,
        }
    }

    open spec fn sound(v: NodeStatusView) -> bool {
        v.tags.len() <= u64::MAX
    }

    proof fn lemma_round_trip(v: NodeStatusView, tail: Seq<TokenView>) {
        broadcast use lemma_cons;

        let t5 = put_num(
            bits_of(v.last_heartbeat),
            put_num(
                v.cpu_usage as u64,
                put_num(v.memory_usage as u64, put_num(v.disk_usage as u64, tail)),
            ),
        );
        let t4 = NodeHealth::put(v.health, t5);
        NodeHealth::lemma_round_trip(v.health, t5);
        lemma_texts(v.tags, t4);
    }

    fn write(&self, out: &mut Vec<Token>) {
        write_num(out, self.disk_usage as u64);
        write_num(out, self.memory_usage as u64);
        write_num(out, self.cpu_usage as u64);
        write_instant(out, self.last_heartbeat);
        self.health.write(out);
        write_texts(out, &self.tags);
        write_text(out, &self.hostname);
        write_text(out, &self.node_id);
    }

    fn read(tokens: &Vec<Token>, pos: usize) -> (r: Option<(Self, usize)>) {
        let (node_id, e1) = read_text(tokens, pos)?;
        let (hostname, e2) = read_text(tokens, e1)?;
        let (tags, e3) = read_texts(tokens, e2)?;
        let (health, e4) = NodeHealth::read(tokens, e3)?;
        let (last_heartbeat, e5) = read_instant(tokens, e4)?;
        let (cpu, e6) = read_small(tokens, e5, u32::MAX as u64)?;
        let (mem, e7) = read_small(tokens, e6, u32::MAX as u64)?;
        let (disk, e8) = read_small(tokens, e7, u32::MAX as u64)?;
        Some(
            (
                NodeStatus {
                    node_id,
                    hostname,
                    tags,
                    health,
                    last_heartbeat,
                    cpu_usage: cpu as u32,
                    memory_usage: mem as u32,
                    disk_usage: disk as u32,
                },
                e8,
            ),
        )
    }
}

impl Snapshot for AttachmentKind {
    open spec fn put(v: AttachmentKindView, tail: Seq<TokenView>) -> Seq<TokenView> {
        match v {
            AttachmentKindView::Directory { path } => put_num(0, put_text(path, tail)),
            AttachmentKindView::File { path } => put_num(1, put_text(path, tail)),
            AttachmentKindView::DockerContainer { container_id } => put_num(
                2,
                put_text(container_id, tail),
            ),
            AttachmentKindView::Service { name, unit } => put_num(
                3,
                put_text(name, put_opt_text(unit, tail)),
            ),
            AttachmentKindView::Webhook { url } => put_num(4, put_text(url, tail)),
            AttachmentKindView::Custom { kind_name, config } => put_num(
                5,
                put_text(kind_name, put_text(config, tail)),
            ),
        }
    }

    open spec fn take(s: Seq<TokenView>) -> Option<(AttachmentKindView, Seq<TokenView>)> {
        match take_num(s) {
            Some((n, s1)) => match take_text(s1) {
                Some((first, s2)) => if n == 0 {
                    Some((AttachmentKindView::Directory { path: first }, s2))
                } else if n == 1 {
                    Some((AttachmentKindView::File { path: first }, s2))
                } else if n == 2 {
                    Some((AttachmentKindView::DockerContainer { container_id: first }, s2))
                } else if n == 3 {
                    match take_opt_text(s2) {
                        Some((unit, s3)) => Some(
                            (AttachmentKindView::Service { name: first, unit }, s3),
                        ),
                        None => None,
                    }
                } else if n == 4 {
                    Some((AttachmentKindView::Webhook { url: first }, s2))
                } else if n == 5 {
                    match take_text(s2) {
                        Some((config, s3)) => Some(
                            (AttachmentKindView::Custom { kind_name: first, config }, s3),
                        ),
                        None => None,
                    }
                } else {
                    None
                },
                None => None,
            },
            None => None,
        }
    }

    open spec fn sound(v: AttachmentKindView) -> bool {
        true
    }

    proof fn lemma_round_trip(v: AttachmentKindView, tail: Seq<TokenView>) {
        broadcast use lemma_cons;

        if let AttachmentKindView::Service { name, unit } = v {
            lemma_opt_text(unit, tail);
        }
    }

    fn write(&self, out: &mut Vec<Token>) {
        match self {
            AttachmentKind::Directory { path } => {
                write_text(out, path);
                write_num(out, 0);
            },
            AttachmentKind::File { path } => {
                write_text(out, path);
                write_num(out, 1);
            },
            AttachmentKind::DockerContainer { container_id } => {
                write_text(out, container_id);
                write_num(out, 2);
            },
            AttachmentKind::Service { name, unit } => {
                write_opt_text(out, unit);
                write_text(out, name);
                write_num(out, 3);
            },
            AttachmentKind::Webhook { url } => {
                write_text(out, url);
                write_num(out, 4);
            },
            AttachmentKind::Custom { kind_name, config } => {
                write_text(out, config);
                write_text(out, kind_name);
                write_num(out, 5);
            },
        }
    }

    fn read(tokens: &Vec<Token>, pos: usize) -> (r: Option<(Self, usize)>) {
        let (n, e1) = read_num(tokens, pos)?;
        let (first, e2) = read_text(tokens, e1)?;
        if n == 0 {
            Some((AttachmentKind::Directory { path: first }, e2))
        } else if n == 1 {
            Some((AttachmentKind::File { path: first }, e2))
        } else if n == 2 {
            Some((AttachmentKind::DockerContainer { container_id: first }, e2))
        } else if n == 3 {
            let (unit, e3) = read_opt_text(tokens, e2)?;
            Some((AttachmentKind::Service { name: first, unit }, e3))
        } else if n == 4 {
            Some((AttachmentKind::Webhook { url: first }, e2))
        } else if n == 5 {
            let (config, e3) = read_text(tokens, e2)?;
            Some((AttachmentKind::Custom { kind_name: first, config }, e3))
        } else {
            None
        }
    }
}

/// `tail` with the keys and values of `entries` in front of it, in order.
pub open spec fn put_entries<V: Snapshot>(entries: Seq<(Seq<char>, V::V)>, tail: Seq<TokenView>)
    -> Seq<TokenView>
    decreases entries.len(),
{
    if entries.len() == 0 {
        tail
    } else {
        put_text(entries[0].0, V::put(entries[0].1, put_entries::<V>(entries.drop_first(), tail)))
    }
}

/// The `n` keys and values at the front of `s`.
pub open spec fn take_entries<V: Snapshot>(n: nat, s: Seq<TokenView>) -> Option<
    (Seq<(Seq<char>, V::V)>, Seq<TokenView>),
>
    decreases n,
{
    if n == 0 {
        Some((Seq::empty(), s))
    } else {
        match take_text(s) {
            Some((key, s1)) => match V::take(s1) {
                Some((value, s2)) => match take_entries::<V>((n - 1) as nat, s2) {
                    Some((xs, end)) => Some((seq![(key, value)] + xs, end)),
                    None => None,
                },
                None => None,
            },
            None => None,
        }
    }
}

/// The table that storing `pairs` one after the other gives.
pub open spec fn stored<T>(pairs: Seq<(Seq<char>, T)>) -> Seq<(Seq<char>, T)>
    decreases pairs.len(),
{
    if pairs.len() == 0 {
        Seq::empty()
    } else {
        put(stored(pairs.drop_last()), pairs.last().0, pairs.last().1)
    }
}

/// Every value of `entries` can exist.
pub open spec fn all_sound<V: Snapshot>(entries: Seq<(Seq<char>, V::V)>) -> bool {
    forall|i: int| 0 <= i < entries.len() ==> V::sound((#[trigger] entries[i]).1)
}

proof fn lemma_stored<T>(pairs: Seq<(Seq<char>, T)>)
    requires
        distinct_keys(pairs),
    ensures
        stored(pairs) == pairs,
    decreases pairs.len(),
{
    if pairs.len() > 0 {
        let before = pairs.drop_last();
        assert(distinct_keys(before)) by {
            assert forall|i: int, j: int| 0 <= i < j < before.len() implies before[i].0
                != before[j].0 by {
                assert(pairs[i].0 != pairs[j].0);
            }
        }
        lemma_stored(before);
        let last = pairs.last();
        assert(!has_key(before, last.0)) by {
            if has_key(before, last.0) {
                let i = index_of(before, last.0);
                assert(pairs[i].0 != pairs[pairs.len() - 1].0);
            }
        }
        assert(before.push(last) =~= pairs);
    }
}

proof fn lemma_entries<V: Snapshot>(entries: Seq<(Seq<char>, V::V)>, tail: Seq<TokenView>)
    requires
        all_sound::<V>(entries),
    ensures
        take_entries::<V>(entries.len(), put_entries::<V>(entries, tail)) == Some((entries, tail)),
    decreases entries.len(),
{
    broadcast use lemma_cons;

    if entries.len() > 0 {
        let rest = entries.drop_first();
        assert(all_sound::<V>(rest)) by {
            assert forall|i: int| 0 <= i < rest.len() implies V::sound((#[trigger] rest[i]).1) by {
                assert(rest[i] == entries[i + 1]);
            }
        }
        lemma_entries::<V>(rest, tail);
        assert(V::sound(entries[0].1));
        V::lemma_round_trip(entries[0].1, put_entries::<V>(rest, tail));
        assert(seq![entries[0]] + rest =~= entries);
    }
}

impl<V: Snapshot> Snapshot for KeyedStore<V> {
    open spec fn put(v: Seq<(Seq<char>, V::V)>, tail: Seq<TokenView>) -> Seq<TokenView> {
        put_num(v.len() as u64, put_entries::<V>(v, tail))
    }

    open spec fn take(s: Seq<TokenView>) -> Option<(Seq<(Seq<char>, V::V)>, Seq<TokenView>)> {
        match take_num(s) {
            Some((n, rest)) => match take_entries::<V>(n as nat, rest) {
                Some((pairs, end)) => Some((stored(pairs), end)),
                None => None,
            },
            None => None,
        }
    }

    open spec fn sound(v: Seq<(Seq<char>, V::V)>) -> bool {
        &&& v.len() <= u64::MAX
        &&& distinct_keys(v)
        &&& all_sound::<V>(v)
    }

    proof fn lemma_round_trip(v: Seq<(Seq<char>, V::V)>, tail: Seq<TokenView>) {
        broadcast use lemma_cons;

        lemma_entries::<V>(v, tail);
        lemma_stored(v);
    }

    fn write(&self, out: &mut Vec<Token>) {
        let ghost all = self@;
        let ghost tail = backwards(out@);
        let n = self.len();
        let mut i: usize = n;
        proof {
            assert(all.skip(i as int) =~= Seq::empty());
        }
        while i > 0
            invariant
                i <= n,
                n == all.len(),
                all == self@,
                backwards(out@) == put_entries::<V>(all.skip(i as int), tail),
                forall|j: int| i <= j < n ==> V::sound((#[trigger] all[j]).1),
            decreases i,
        {
            i -= 1;
            proof {
                assert(all.skip(i as int)[0] == all[i as int]);
                assert(all.skip(i as int).drop_first() =~= all.skip(i + 1));
            }
            self.value_at(i).write(out);
            write_text(out, self.key_at(i));
        }
        proof {
            assert(all.skip(0) =~= all);
        }
        write_num(out, n as u64);
    }

    fn read(tokens: &Vec<Token>, pos: usize) -> (r: Option<(Self, usize)>) {
        let ghost ts = elem_views(tokens@);
        let (n, start) = read_num(tokens, pos)?;
        let mut table: KeyedStore<V> = KeyedStore::new();
        let ghost mut done: Seq<(Seq<char>, V::V)> = Seq::empty();
        let mut cur = start;
        let mut k: u64 = 0;
        proof {
            match take_entries::<V>(n as nat, ts.skip(start as int)) {
                Some((xs, end)) => {
                    assert(Seq::<(Seq<char>, V::V)>::empty() + xs =~= xs);
                },
                None => {},
            }
        }
        while k < n
            invariant
                k <= n,
                pos <= start <= cur <= tokens@.len(),
                ts == elem_views(tokens@),
                take_num(ts.skip(pos as int)) == Some((n, ts.skip(start as int))),
                table@ == stored(done),
                take_entries::<V>(n as nat, ts.skip(start as int)) == joined_items(
                    done,
                    take_entries::<V>((n - k) as nat, ts.skip(cur as int)),
                ),
            decreases n - k,
        {
            let key = match read_text(tokens, cur) {
                Some(p) => p,
                None => {
                    assert(take_entries::<V>((n - k) as nat, ts.skip(cur as int)) is None);
                    return None;
                },
            };
            let value = match V::read(tokens, key.1) {
                Some(p) => p,
                None => {
                    assert(take_entries::<V>((n - k) as nat, ts.skip(cur as int)) is None);
                    return None;
                },
            };
            proof {
                let pair = (key.0@, value.0@);
                match take_entries::<V>((n - k - 1) as nat, ts.skip(value.1 as int)) {
                    Some((xs, end)) => {
                        assert(done + (seq![pair] + xs) =~= done.push(pair) + xs);
                    },
                    None => {},
                }
                assert(done.push(pair).drop_last() =~= done);
                done = done.push(pair);
            }
            cur = value.1;
            table.insert(key.0, value.0);
            k += 1;
        }
        proof {
            assert(done + Seq::<(Seq<char>, V::V)>::empty() =~= done);
        }
        Some((table, cur))
    }
}

impl Snapshot for Attachment {
    open spec fn put(v: AttachmentView, tail: Seq<TokenView>) -> Seq<TokenView> {
        put_text(
            v.id,
            put_text(
                v.node_id,
                AttachmentKind::put(
                    v.kind,
                    put_texts(
                        v.capabilities,
                        KeyedStore::<String>::put(v.metadata, put_num(bits_of(v.created_at), tail)),
                    ),
                ),
            ),
        )
    }

    open spec fn take(s: Seq<TokenView>) -> Option<(AttachmentView, Seq<TokenView>)> {
        match take_text(s) {
            Some((id, s1)) => match take_text(s1) {
                Some((node_id, s2)) => match AttachmentKind::take(s2) {
                    Some((kind, s3)) => match take_texts(s3) {
                        Some((capabilities, s4)) => match KeyedStore::<String>::take(s4) {
                            Some((metadata, s5)) => match take_num(s5) {
                                Some((created, s6)) => Some(
                                    (
                                        AttachmentView {
                                            id,
                                            node_id,
                                            kind,
                                            capabilities,
                                            metadata,
                                            created_at: signed_of(created),
                                        },
                                        s6,
                                    ),
                                ),
                                None => None,
                            },
                            None => None,
                        },
                        None => None,
                    },
                    None => None,
                },
                None => None,
            },
            None => None,
        }
    }

    open spec fn sound(v: AttachmentView) -> bool {
        &&& v.capabilities.len() <= u64::MAX
        &&& KeyedStore::<String>::sound(v.metadata)
    }

    proof fn lemma_round_trip(v: AttachmentView, tail: Seq<TokenView>) {
        broadcast use lemma_cons;

        let t5 = put_num(bits_of(v.created_at), tail);
        let t4 = KeyedStore::<String>::put(v.metadata, t5);
        let t3 = put_texts(v.capabilities, t4);
        KeyedStore::<String>::lemma_round_trip(v.metadata, t5);
        lemma_texts(v.capabilities, t4);
        AttachmentKind::lemma_round_trip(v.kind, t3);
    }

    fn write(&self, out: &mut Vec<Token>) {
        write_instant(out, self.created_at);
        self.metadata.write(out);
        write_texts(out, &self.capabilities);
        self.kind.write(out);
        write_text(out, &self.node_id);
        write_text(out, &self.id);
    }

    fn read(tokens: &Vec<Token>, pos: usize) -> (r: Option<(Self, usize)>) {
        let (id, e1) = read_text(tokens, pos)?;
        let (node_id, e2) = read_text(tokens, e1)?;
        let (kind, e3) = AttachmentKind::read(tokens, e2)?;
        let (capabilities, e4) = read_texts(tokens, e3)?;
        let (metadata, e5) = KeyedStore::<String>::read(tokens, e4)?;
        let (created_at, e6) = read_instant(tokens, e5)?;
        Some((Attachment { id, node_id, kind, capabilities, metadata, created_at }, e6))
    }
}

impl Snapshot for TaskStatus {
    open spec fn put(v: TaskStatusView, tail: Seq<TokenView>) -> Seq<TokenView> {
        match v {
            TaskStatusView::Pending => put_num(0, tail),
            TaskStatusView::Scheduled => put_num(1, tail),
            TaskStatusView::Running => put_num(2, tail),
            TaskStatusView::Completed => put_num(3, tail),
            TaskStatusView::Failed { error } => put_num(4, put_text(error, tail)),
            TaskStatusView::Cancelled => put_num(5, tail),
        }
    }

    open spec fn take(s: Seq<TokenView>) -> Option<(TaskStatusView, Seq<TokenView>)> {
        match take_num(s) {
            Some((n, rest)) => if n == 0 {
                Some((TaskStatusView::Pending, rest))
            } else if n == 1 {
                Some((TaskStatusView::Scheduled, rest))
            } else if n == 2 {
                Some((TaskStatusView::Running, rest))
            } else if n == 3 {
                Some((TaskStatusView::Completed, rest))
            } else if n == 4 {
                match take_text(rest) {
                    Some((error, end)) => Some((TaskStatusView::Failed { error }, end)),
                    None => None,
                }
            } else if n == 5 {
                Some((TaskStatusView::Cancelled, rest))
            } else {
                None
            },
            None => None,
        }
    }

    open spec fn sound(v: TaskStatusView) -> bool {
        true
    }

    proof fn lemma_round_trip(v: TaskStatusView, tail: Seq<TokenView>) {
        broadcast use lemma_cons;

    }

    fn write(&self, out: &mut Vec<Token>) {
        match self {
            TaskStatus::Pending => write_num(out, 0),
            TaskStatus::Scheduled => write_num(out, 1),
            TaskStatus::Running => write_num(out, 2),
            TaskStatus::Completed => write_num(out, 3),
            TaskStatus::Failed { error } => {
                write_text(out, error);
                write_num(out, 4);
            },
            TaskStatus::Cancelled => write_num(out, 5),
        }
    }

    fn read(tokens: &Vec<Token>, pos: usize) -> (r: Option<(Self, usize)>) {
        let (n, next) = read_num(tokens, pos)?;
        if n == 0 {
            Some((TaskStatus::Pending, next))
        } else if n == 1 {
            Some((TaskStatus::Scheduled, next))
        } else if n == 2 {
            Some((TaskStatus::Running, next))
        } else if n == 3 {
            Some((TaskStatus::Completed, next))
        } else if n == 4 {
            let (error, end) = read_text(tokens, next)?;
            Some((TaskStatus::Failed { error }, end))
        } else if n == 5 {
            Some((TaskStatus::Cancelled, next))
        } else {
            None
        }
    }
}

impl Snapshot for TaskPayload {
    open spec fn put(v: TaskPayloadView, tail: Seq<TokenView>) -> Seq<TokenView> {
        match v {
            TaskPayloadView::Echo { message } => put_num(0, put_text(message, tail)),
            TaskPayloadView::SyncDirectory { src, dst } => put_num(
                1,
                put_text(src, put_text(dst, tail)),
            ),
            TaskPayloadView::RunCommand { command, args } => put_num(
                2,
                put_text(command, put_texts(args, tail)),
            ),
            TaskPayloadView::CheckService { service_name } => put_num(
                3,
                put_text(service_name, tail),
            ),
            TaskPayloadView::RestartService { service_name } => put_num(
                4,
                put_text(service_name, tail),
            ),
            TaskPayloadView::DockerRun { image, args } => put_num(
                5,
                put_text(image, put_texts(args, tail)),
            ),
            TaskPayloadView::Custom { tool_id, args } => put_num(
                6,
                put_text(tool_id, put_text(args, tail)),
            ),
        }
    }

    open spec fn take(s: Seq<TokenView>) -> Option<(TaskPayloadView, Seq<TokenView>)> {
        match take_num(s) {
            Some((n, s1)) => match take_text(s1) {
                Some((first, s2)) => if n == 0 {
                    Some((TaskPayloadView::Echo { message: first }, s2))
                } else if n == 1 {
                    match take_text(s2) {
                        Some((dst, s3)) => Some(
                            (TaskPayloadView::SyncDirectory { src: first, dst }, s3),
                        ),
                        None => None,
                    }
                } else if n == 2 {
                    match take_texts(s2) {
                        Some((args, s3)) => Some(
                            (TaskPayloadView::RunCommand { command: first, args }, s3),
                        ),
                        None => None,
                    }
                } else if n == 3 {
                    Some((TaskPayloadView::CheckService { service_name: first }, s2))
                } else if n == 4 {
                    Some((TaskPayloadView::RestartService { service_name: first }, s2))
                } else if n == 5 {
                    match take_texts(s2) {
                        Some((args, s3)) => Some(
                            (TaskPayloadView::DockerRun { image: first, args }, s3),
                        ),
                        None => None,
                    }
                } else if n == 6 {
                    match take_text(s2) {
                        Some((args, s3)) => Some(
                            (TaskPayloadView::Custom { tool_id: first, args }, s3),
                        ),
                        None => None,
                    }
                } else {
                    None
                },
                None => None,
            },
            None => None,
        }
    }

    open spec fn sound(v: TaskPayloadView) -> bool {
        match v {
            TaskPayloadView::RunCommand { args, .. } => args.len() <= u64::MAX,
            TaskPayloadView::DockerRun { args, .. } => args.len() <= u64::MAX,
            _ => true,
        }
    }

    proof fn lemma_round_trip(v: TaskPayloadView, tail: Seq<TokenView>) {
        broadcast use lemma_cons;

        match v {
            TaskPayloadView::RunCommand { args, .. } => {
                lemma_texts(args, tail);
            },
            TaskPayloadView::DockerRun { args, .. } => {
                lemma_texts(args, tail);
            },
            _ => {},
        }
    }

    fn write(&self, out: &mut Vec<Token>) {
        match self {
            TaskPayload::Echo { message } => {
                write_text(out, message);
                write_num(out, 0);
            },
            TaskPayload::SyncDirectory { src, dst } => {
                write_text(out, dst);
                write_text(out, src);
                write_num(out, 1);
            },
            TaskPayload::RunCommand { command, args } => {
                write_texts(out, args);
                write_text(out, command);
                write_num(out, 2);
            },
            TaskPayload::CheckService { service_name } => {
                write_text(out, service_name);
                write_num(out, 3);
            },
            TaskPayload::RestartService { service_name } => {
                write_text(out, service_name);
                write_num(out, 4);
            },
            TaskPayload::DockerRun { image, args } => {
                write_texts(out, args);
                write_text(out, image);
                write_num(out, 5);
            },
            TaskPayload::Custom { tool_id, args } => {
                write_text(out, args);
                write_text(out, tool_id);
                write_num(out, 6);
            },
        }
    }

    fn read(tokens: &Vec<Token>, pos: usize) -> (r: Option<(Self, usize)>) {
        let (n, e1) = read_num(tokens, pos)?;
        let (first, e2) = read_text(tokens, e1)?;
        if n == 0 {
            Some((TaskPayload::Echo { message: first }, e2))
        } else if n == 1 {
            let (dst, e3) = read_text(tokens, e2)?;
            Some((TaskPayload::SyncDirectory { src: first, dst }, e3))
        } else if n == 2 {
            let (args, e3) = read_texts(tokens, e2)?;
            Some((TaskPayload::RunCommand { command: first, args }, e3))
        } else if n == 3 {
            Some((TaskPayload::CheckService { service_name: first }, e2))
        } else if n == 4 {
            Some((TaskPayload::RestartService { service_name: first }, e2))
        } else if n == 5 {
            let (args, e3) = read_texts(tokens, e2)?;
            Some((TaskPayload::DockerRun { image: first, args }, e3))
        } else if n == 6 {
            let (args, e3) = read_text(tokens, e2)?;
            Some((TaskPayload::Custom { tool_id: first, args }, e3))
        } else {
            None
        }
    }
}

impl Snapshot for Task {
    open spec fn put(v: TaskView, tail: Seq<TokenView>) -> Seq<TokenView> {
        put_text(
            v.id,
            put_text(
                v.target_node,
                TaskPayload::put(
                    v.payload,
                    TaskStatus::put(
                        v.status,
                        put_num(
                            v.priority as u64,
                            put_num(
                                bits_of(v.created_at),
                                put_num(bits_of(v.updated_at), put_opt_text(v.result, tail)),
                            ),
                        ),
                    ),
                ),
            ),
        )
    }

    open spec fn take(s: Seq<TokenView>) -> Option<(TaskView, Seq<TokenView>)> {
        match take_text(s) {
            Some((id, s1)) => match take_text(s1) {
                Some((target_node, s2)) => match TaskPayload::take(s2) {
                    Some((payload, s3)) => match TaskStatus::take(s3) {
                        Some((status, s4)) => match take_small(s4, u8::MAX as u64) {
                            Some((priority, s5)) => match take_num(s5) {
                                Some((created, s6)) => match take_num(s6) {
                                    Some((updated, s7)) => match take_opt_text(s7) {
                                        Some((result, s8)) => Some(
                                            (
                                                TaskView {
                                                    id,
                                                    target_node,
                                                    payload,
                                                    status,
                                                    priority: priority as u8,
                                                    created_at: signed_of(created),
                                                    updated_at: signed_of(updated),
                                                    result,
                                                },
                                                s8,
                                            ),
                                        ),
                                        None => None,
                                    },
                                    None => None,
                                },
                                None => None,
                            },
                            None => None,
                        },
                        None => None,
                    },
                    None => None,
                },
                None => None,
            },
            None => None,
        }
    }

    open spec fn sound(v: TaskView) -> bool {
        TaskPayload::sound(v.payload)
    }

    proof fn lemma_round_trip(v: TaskView, tail: Seq<TokenView>) {
        broadcast use lemma_cons;

        let t7 = put_opt_text(v.result, tail);
        let t4 = put_num(
            v.priority as u64,
            put_num(bits_of(v.created_at), put_num(bits_of(v.updated_at), t7)),
        );
        let t3 = TaskStatus::put(v.status, t4);
        lemma_opt_text(v.result, tail);
        TaskStatus::lemma_round_trip(v.status, t4);
        TaskPayload::lemma_round_trip(v.payload, t3);
    }

    fn write(&self, out: &mut Vec<Token>) {
        write_opt_text(out, &self.result);
        write_instant(out, self.updated_at);
        write_instant(out, self.created_at);
        write_num(out, self.priority as u64);
        self.status.write(out);
        self.payload.write(out);
        write_text(out, &self.target_node);
        write_text(out, &self.id);
    }

    fn read(tokens: &Vec<Token>, pos: usize) -> (r: Option<(Self, usize)>) {
        let (id, e1) = read_text(tokens, pos)?;
        let (target_node, e2) = read_text(tokens, e1)?;
        let (payload, e3) = TaskPayload::read(tokens, e2)?;
        let (status, e4) = TaskStatus::read(tokens, e3)?;
        let (priority, e5) = read_small(tokens, e4, u8::MAX as u64)?;
        let (created_at, e6) = read_instant(tokens, e5)?;
        let (updated_at, e7) = read_instant(tokens, e6)?;
        let (result, e8) = read_opt_text(tokens, e7)?;
        Some(
            (
                Task {
                    id,
                    target_node,
                    payload,
                    status,
                    priority: priority as u8,
                    created_at,
                    updated_at,
                    result,
                },
                e8,
            ),
        )
    }
}

impl Snapshot for Goal {
    open spec fn put(v: GoalView, tail: Seq<TokenView>) -> Seq<TokenView> {
        put_text(
            v.id,
            put_text(
                v.description,
                put_texts(
                    v.constraints,
                    put_num(
                        v.priority as u64,
                        put_num(if v.active { 1 } else { 0 }, put_num(bits_of(v.created_at), tail)),
                    ),
                ),
            ),
        )
    }

    open spec fn take(s: Seq<TokenView>) -> Option<(GoalView, Seq<TokenView>)> {
        match take_text(s) {
            Some((id, s1)) => match take_text(s1) {
                Some((description, s2)) => match take_texts(s2) {
                    Some((constraints, s3)) => match take_small(s3, u8::MAX as u64) {
                        Some((priority, s4)) => match take_small(s4, 1) {
                            Some((active, s5)) => match take_num(s5) {
                                Some((created, s6)) => Some(
                                    (
                                        GoalView {
                                            id,
                                            description,
                                            constraints,
                                            priority: priority as u8,
                                            active: active == 1,
                                            created_at: signed_of(created),
                                        },
                                        s6,
                                    ),
                                ),
                                None => None,
                            },
                            None => None,
                        },
                        None => None,
                    },
                    None => None,
                },
                None => None,
            },
            None => None,
        }
    }

    open spec fn sound(v: GoalView) -> bool {
        v.constraints.len() <= u64::MAX
    }

    proof fn lemma_round_trip(v: GoalView, tail: Seq<TokenView>) {
        broadcast use lemma_cons;

        let t3 = put_num(
            v.priority as u64,
            put_num(if v.active { 1 } else { 0 }, put_num(bits_of(v.created_at), tail)),
        );
        lemma_texts(v.constraints, t3);
    }

    fn write(&self, out: &mut Vec<Token>) {
        write_instant(out, self.created_at);
        write_num(out, if self.active { 1 } else { 0 });
        write_num(out, self.priority as u64);
        write_texts(out, &self.constraints);
        write_text(out, &self.description);
        write_text(out, &self.id);
    }

    fn read(tokens: &Vec<Token>, pos: usize) -> (r: Option<(Self, usize)>) {
        let (id, e1) = read_text(tokens, pos)?;
        let (description, e2) = read_text(tokens, e1)?;
        let (constraints, e3) = read_texts(tokens, e2)?;
        let (priority, e4) = read_small(tokens, e3, u8::MAX as u64)?;
        let (active, e5) = read_small(tokens, e4, 1)?;
        let (created_at, e6) = read_instant(tokens, e5)?;
        Some(
            (
                Goal {
                    id,
                    description,
                    constraints,
                    priority: priority as u8,
                    active: active == 1,
                    created_at,
                },
                e6,
            ),
        )
    }
}

impl Snapshot for HiveState {
    open spec fn put(v: HiveStateView, tail: Seq<TokenView>) -> Seq<TokenView> {
        KeyedStore::<NodeStatus>::put(
            v.nodes,
            KeyedStore::<Task>::put(
                v.tasks,
                KeyedStore::<Attachment>::put(
                    v.attachments,
                    KeyedStore::<Goal>::put(v.goals, put_num(v.last_applied_index, tail)),
                ),
            ),
        )
    }

    open spec fn take(s: Seq<TokenView>) -> Option<(HiveStateView, Seq<TokenView>)> {
        match KeyedStore::<NodeStatus>::take(s) {
            Some((nodes, s1)) => match KeyedStore::<Task>::take(s1) {
                Some((tasks, s2)) => match KeyedStore::<Attachment>::take(s2) {
                    Some((attachments, s3)) => match KeyedStore::<Goal>::take(s3) {
                        Some((goals, s4)) => match take_num(s4) {
                            Some((last_applied_index, s5)) => Some(
                                (
                                    HiveStateView {
                                        nodes,
                                        tasks,
                                        attachments,
                                        goals,
                                        last_applied_index,
                                    },
                                    s5,
                                ),
                            ),
                            None => None,
                        },
                        None => None,
                    },
                    None => None,
                },
                None => None,
            },
            None => None,
        }
    }

    open spec fn sound(v: HiveStateView) -> bool {
        &&& KeyedStore::<NodeStatus>::sound(v.nodes)
        &&& KeyedStore::<Task>::sound(v.tasks)
        &&& KeyedStore::<Attachment>::sound(v.attachments)
        &&& KeyedStore::<Goal>::sound(v.goals)
    }

    proof fn lemma_round_trip(v: HiveStateView, tail: Seq<TokenView>) {
        broadcast use lemma_cons;

        let t4 = put_num(v.last_applied_index, tail);
        let t3 = KeyedStore::<Goal>::put(v.goals, t4);
        let t2 = KeyedStore::<Attachment>::put(v.attachments, t3);
        let t1 = KeyedStore::<Task>::put(v.tasks, t2);
        KeyedStore::<Goal>::lemma_round_trip(v.goals, t4);
        KeyedStore::<Attachment>::lemma_round_trip(v.attachments, t3);
        KeyedStore::<Task>::lemma_round_trip(v.tasks, t2);
        KeyedStore::<NodeStatus>::lemma_round_trip(v.nodes, t1);
    }

    fn write(&self, out: &mut Vec<Token>) {
        write_num(out, self.last_applied_index);
        self.goals.write(out);
        self.attachments.write(out);
        self.tasks.write(out);
        self.nodes.write(out);
    }

    fn read(tokens: &Vec<Token>, pos: usize) -> (r: Option<(Self, usize)>) {
        let (nodes, e1) = KeyedStore::<NodeStatus>::read(tokens, pos)?;
        let (tasks, e2) = KeyedStore::<Task>::read(tokens, e1)?;
        let (attachments, e3) = KeyedStore::<Attachment>::read(tokens, e2)?;
        let (goals, e4) = KeyedStore::<Goal>::read(tokens, e3)?;
        let (last_applied_index, e5) = read_num(tokens, e4)?;
        Some((HiveState { nodes, tasks, attachments, goals, last_applied_index }, e5))
    }
}

/// The tokens of a state.
pub open spec fn state_tokens(v: HiveStateView) -> Seq<TokenView> {
    HiveState::put(v, Seq::empty())
}

/// The bytes of a state's snapshot.
pub open spec fn snapshot_bytes(v: HiveStateView) -> Seq<u8> {
    tokens_bytes(state_tokens(v))
}

/// The state whose snapshot `b` is; nothing where `b` is no snapshot.
pub open spec fn snapshot_state(b: Seq<u8>) -> Option<HiveStateView> {
    match bytes_tokens(b) {
        Some(ts) => match HiveState::take(ts) {
            Some((v, rest)) => if rest.len() == 0 {
                Some(v)
            } else {
                None
            },
            None => None,
        },
        None => None,
    }
}

/// A snapshot loses nothing: the bytes of a state lead back to that state,
/// for every state that holds no identifier twice in a table and whose
/// texts and lists are of a length that a number can hold.
pub proof fn lemma_snapshot_round_trip(v: HiveStateView)
    requires
        HiveState::sound(v),
        all_fit(state_tokens(v)),
    ensures
        snapshot_state(snapshot_bytes(v)) == Some(v),
{
    crate::codec::lemma_tokens_round_trip(state_tokens(v));
    HiveState::lemma_round_trip(v, Seq::empty());
}

/// Writes the state as the bytes of its snapshot.
pub fn encode(state: &HiveState) -> (r: Vec<u8>)
    ensures
        r@ == snapshot_bytes(state@),
        snapshot_state(r@) == Some(state@),
{
    let mut back: Vec<Token> = Vec::new();
    proof {
        assert(backwards(back@) =~= Seq::empty());
    }
    state.write(&mut back);
    let mut tokens: Vec<Token> = Vec::new();
    let ghost all = back@;
    while back.len() > 0
        invariant
            back@.len() <= all.len(),
            tokens@.len() + back@.len() == all.len(),
            forall|i: int| 0 <= i < back@.len() ==> back@[i] == all[i],
            forall|i: int| 0 <= i < tokens@.len() ==> tokens@[i] == all[all.len() - 1 - i],
        decreases back@.len(),
    {
        let t = back.pop();
        match t {
            Some(x) => {
                tokens.push(x);
            },
            None => {},
        }
    }
    proof {
        assert(elem_views(tokens@) =~= backwards(all));
        HiveState::lemma_round_trip(state@, Seq::empty());
    }
    encode_tokens(&tokens)
}

/// Reads a state from the bytes of its snapshot; nothing where the bytes
/// are no snapshot.
pub fn decode(bytes: &[u8]) -> (r: Option<HiveState>)
    ensures
        match r {
            Some(s) => snapshot_state(bytes@) == Some(s@),
            None => snapshot_state(bytes@) is None,
        },
{
    let tokens = decode_tokens(bytes)?;
    proof {
        assert(elem_views(tokens@).skip(0) =~= elem_views(tokens@));
    }
    let (state, end) = HiveState::read(&tokens, 0)?;
    if end == tokens.len() {
        Some(state)
    } else {
        None
    }
}

/// What was stored as a snapshot is none.
#[derive(Debug, Clone, Copy, PartialEq, Eq, Structural)]
pub struct CorruptSnapshot;

impl CorruptSnapshot {
    /// Corrupt storage is fatal.
    pub fn kind(&self) -> (r: ErrorKind)
        ensures
            r == ErrorKind::Fatal,
    {
        ErrorKind::Fatal
    }

    /// The reason in words.
    pub fn message(&self) -> (r: String)
        ensures
            r@ == "The stored state snapshot is corrupt"@,
    {
        String::from_str("The stored state snapshot is corrupt")
    }
}

/// The state that a node starts from: the empty state where nothing was
/// stored, the stored state where the bytes are its snapshot, and no state
/// at all where they are none.
pub open spec fn start_spec(stored: Option<Seq<u8>>) -> Result<HiveStateView, CorruptSnapshot> {
    match stored {
        None => Ok(empty_state()),
        Some(b) => match snapshot_state(b) {
            Some(v) => Ok(v),
            None => Err(CorruptSnapshot),
        },
    }
}

/// The bytes behind an optional slice.
pub open spec fn stored_view(stored: Option<&[u8]>) -> Option<Seq<u8>> {
    match stored {
        Some(b) => Some(b@),
        None => None,
    }
}

/// The view of a start.
pub open spec fn start_view(r: Result<HiveState, CorruptSnapshot>) -> Result<
    HiveStateView,
    CorruptSnapshot,
> {
    match r {
        Ok(s) => Ok(s@),
        Err(e) => Err(e),
    }
}

/// Finds the state that a node starts from in what its storage holds.
pub fn start_state(stored: Option<&[u8]>) -> (r: Result<HiveState, CorruptSnapshot>)
    ensures
        start_view(r) == start_spec(stored_view(stored)),
{
    match stored {
        None => Ok(HiveState::new()),
        Some(bytes) => match decode(bytes) {
            Some(state) => Ok(state),
            None => Err(CorruptSnapshot),
        },
    }
}

} // verus!
