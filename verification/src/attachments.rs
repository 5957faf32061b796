//! The attachments of the local node.

use vstd::prelude::*;
use crate::clock::now_millis;
use crate::ident::fresh_id;
use crate::planner::{kind_label, kind_name_of};
use crate::store::{del, has_key, lookup, put, values, KeyedStore};
use crate::text::{
    contains_str, elem_views, lemma_filter_none, lemma_filter_step, opt_view, str_eq, views,
};
use crate::types::{Attachment, AttachmentKind, AttachmentKindView, AttachmentView};

verus! {

/// The registry as a value: the node it belongs to, and its attachments by
/// identifier.
pub struct RegistryView {
    pub node_id: Seq<char>,
    pub entries: Seq<(Seq<char>, AttachmentView)>,
}

/// An attachment as it is when it is registered.
pub open spec fn fresh_attachment(
    node_id: Seq<char>,
    id: Seq<char>,
    kind: AttachmentKindView,
    capabilities: Seq<Seq<char>>,
    now: i64,
) -> AttachmentView {
    AttachmentView { id, node_id, kind, capabilities, metadata: Seq::empty(), created_at: now }
}

/// `after` is `before` with the new attachment `a` of the given kind and
/// capabilities, registered under a fresh identifier.
pub open spec fn registered(
    before: RegistryView,
    after: RegistryView,
    a: AttachmentView,
    kind: AttachmentKindView,
    capabilities: Seq<Seq<char>>,
) -> bool {
    &&& a.id.len() == 36
    &&& a.node_id == before.node_id
    &&& a.kind == kind
    &&& a.capabilities == capabilities
    &&& a.metadata.len() == 0
    &&& after == (RegistryView { entries: put(before.entries, a.id, a), ..before })
}

/// The attachments of the kind named `name`.
pub open spec fn of_kind(name: Seq<char>) -> spec_fn(AttachmentView) -> bool {
    |a: AttachmentView| kind_label(a.kind) == name
}

/// The attachments that have the capability `capability`.
pub open spec fn capable_of(capability: Seq<char>) -> spec_fn(AttachmentView) -> bool {
    |a: AttachmentView| a.capabilities.contains(capability)
}

/// The attachments of the node `node_id` among `attachments`, by
/// identifier; of two with one identifier the later stays.
pub open spec fn own_attachments(node_id: Seq<char>, attachments: Seq<AttachmentView>) -> Seq<
    (Seq<char>, AttachmentView),
>
    decreases attachments.len(),
{
    if attachments.len() == 0 {
        Seq::empty()
    } else {
        let before = own_attachments(node_id, attachments.drop_last());
        if attachments.last().node_id == node_id {
            put(before, attachments.last().id, attachments.last())
        } else {
            before
        }
    }
}

/// The registry after `value` is noted under `key` for the attachment `id`.
pub open spec fn with_metadata(
    r: RegistryView,
    id: Seq<char>,
    key: Seq<char>,
    value: Seq<char>,
) -> RegistryView {
    match lookup(r.entries, id) {
        Some(a) => RegistryView {
            entries: put(
                r.entries,
                id,
                AttachmentView { metadata: put(a.metadata, key, value), ..a },
            ),
            ..r
        },
        None => r,
    }
}

/// The view of an optional attachment.
pub open spec fn found_view(o: Option<Attachment>) -> Option<AttachmentView> {
    match o {
        Some(a) => Some(a@),
        None => None,
    }
}

/// The attachments registered on one node.
pub struct AttachmentRegistry {
    inner: KeyedStore<Attachment>,
    node_id: String,
}

impl View for AttachmentRegistry {
    type V = RegistryView;

    closed spec fn view(&self) -> RegistryView {
        RegistryView { node_id: self.node_id@, entries: self.inner@ }
    }
}

impl AttachmentRegistry {
    /// An empty registry for the node `node_id`.
    pub fn new(node_id: String) -> (r: Self)
        ensures
            r@ == (RegistryView { node_id: node_id@, entries: Seq::empty() }),
    {
        AttachmentRegistry { inner: KeyedStore::new(), node_id }
    }

    /// Registers an attachment under `id`, created at `now`.
    pub fn register_with(
        &mut self,
        id: String,
        kind: AttachmentKind,
        capabilities: Vec<String>,
        now: i64,
    ) -> (r: Attachment)
        ensures
            r@ == fresh_attachment(old(self)@.node_id, id@, kind@, views(capabilities@), now),
            final(self)@ == (RegistryView {
                entries: put(old(self)@.entries, id@, r@),
                ..old(self)@
            }),
    {
        let attachment = Attachment {
            id: id.clone(),
            node_id: self.node_id.clone(),
            kind,
            capabilities,
            metadata: KeyedStore::new(),
            created_at: now,
        };
        self.inner.insert(id, attachment.clone());
        attachment
    }

    /// Registers an attachment under a fresh identifier, created now.
    pub fn register(&mut self, kind: AttachmentKind, capabilities: Vec<String>) -> (r: Attachment)
        ensures
            registered(old(self)@, final(self)@, r@, kind@, views(capabilities@)),
    {
        let id = fresh_id();
        let now = now_millis();
        self.register_with(id, kind, capabilities, now)
    }

    /// Registers a directory.
    pub fn register_directory(&mut self, path: String, capabilities: Vec<String>) -> (r:
        Attachment)
        ensures
            registered(
                old(self)@,
                final(self)@,
                r@,
                AttachmentKindView::Directory { path: path@ },
                views(capabilities@),
            ),
    {
        self.register(AttachmentKind::Directory { path }, capabilities)
    }

    /// Registers a file.
    pub fn register_file(&mut self, path: String, capabilities: Vec<String>) -> (r: Attachment)
        ensures
            registered(
                old(self)@,
                final(self)@,
                r@,
                AttachmentKindView::File { path: path@ },
                views(capabilities@),
            ),
    {
        self.register(AttachmentKind::File { path }, capabilities)
    }

    /// Registers a service, whose status can be checked.
    pub fn register_service(&mut self, name: String, unit: Option<String>) -> (r: Attachment)
        ensures
            registered(
                old(self)@,
                final(self)@,
                r@,
                AttachmentKindView::Service { name: name@, unit: opt_view(unit) },
                seq!["check_status"@],
            ),
    {
        let caps = vec![String::from_str("check_status")];
        assert(views(caps@) =~= seq!["check_status"@]);
        self.register(AttachmentKind::Service { name, unit }, caps)
    }

    /// Registers a container, which can be started, stopped and restarted
    /// and whose logs can be read.
    pub fn register_docker(&mut self, container_id: String) -> (r: Attachment)
        ensures
            registered(
                old(self)@,
                final(self)@,
                r@,
                AttachmentKindView::DockerContainer { container_id: container_id@ },
                seq!["start"@, "stop"@, "restart"@, "logs"@],
            ),
    {
        let caps = vec![
            String::from_str("start"),
            String::from_str("stop"),
            String::from_str("restart"),
            String::from_str("logs"),
        ];
        assert(views(caps@) =~= seq!["start"@, "stop"@, "restart"@, "logs"@]);
        self.register(AttachmentKind::DockerContainer { container_id }, caps)
    }

    /// Registers a webhook, which can be triggered.
    pub fn register_webhook(&mut self, url: String) -> (r: Attachment)
        ensures
            registered(
                old(self)@,
                final(self)@,
                r@,
                AttachmentKindView::Webhook { url: url@ },
                seq!["trigger"@],
            ),
    {
        let caps = vec![String::from_str("trigger")];
        assert(views(caps@) =~= seq!["trigger"@]);
        self.register(AttachmentKind::Webhook { url }, caps)
    }

    /// Removes the attachment `id` and returns it.
    pub fn unregister(&mut self, id: &str) -> (r: Option<Attachment>)
        ensures
            found_view(r) == lookup(old(self)@.entries, id@),
            final(self)@ == (RegistryView { entries: del(old(self)@.entries, id@), ..old(self)@ }),
    {
        self.inner.remove(id)
    }

    /// The attachment `id`.
    pub fn get(&self, id: &str) -> (r: Option<Attachment>)
        ensures
            found_view(r) == lookup(self@.entries, id@),
    {
        match self.inner.get(id) {
            Some(a) => Some(a.clone()),
            None => None,
        }
    }

    /// All attachments, in the order in which their identifiers first came.
    pub fn list(&self) -> (r: Vec<Attachment>)
        ensures
            elem_views(r@) == values(self@.entries),
    {
        self.inner.values_vec()
    }

    /// The attachments of the kind named `kind_name`.
    pub fn list_by_kind(&self, kind_name: &str) -> (r: Vec<Attachment>)
        ensures
            elem_views(r@) == values(self@.entries).filter(of_kind(kind_name@)),
    {
        let ghost vals = values(self@.entries);
        let n = self.inner.len();
        let mut out: Vec<Attachment> = Vec::new();
        let mut i: usize = 0;
        proof {
            lemma_filter_none(vals, of_kind(kind_name@));
            assert(elem_views(out@) =~= Seq::empty());
        }
        while i < n
            invariant
                i <= n,
                n == vals.len(),
                vals == values(self@.entries),
                elem_views(out@) == vals.take(i as int).filter(of_kind(kind_name@)),
            decreases n - i,
        {
            proof {
                lemma_filter_step(vals, of_kind(kind_name@), i as int);
            }
            let a = self.inner.value_at(i);
            let ghost prev = out@;
            let label = kind_name_of(&a.kind);
            if str_eq(label.as_str(), kind_name) {
                out.push(a.clone());
                assert(elem_views(out@) =~= elem_views(prev).push(vals[i as int]));
            }
            i += 1;
        }
        proof {
            lemma_filter_none(vals, of_kind(kind_name@));
        }
        out
    }

    /// The attachments that have the capability `capability`.
    pub fn with_capability(&self, capability: &str) -> (r: Vec<Attachment>)
        ensures
            elem_views(r@) == values(self@.entries).filter(capable_of(capability@)),
    {
        let ghost vals = values(self@.entries);
        let n = self.inner.len();
        let mut out: Vec<Attachment> = Vec::new();
        let mut i: usize = 0;
        proof {
            lemma_filter_none(vals, capable_of(capability@));
            assert(elem_views(out@) =~= Seq::empty());
        }
        while i < n
            invariant
                i <= n,
                n == vals.len(),
                vals == values(self@.entries),
                elem_views(out@) == vals.take(i as int).filter(capable_of(capability@)),
            decreases n - i,
        {
            proof {
                lemma_filter_step(vals, capable_of(capability@), i as int);
            }
            let a = self.inner.value_at(i);
            let ghost prev = out@;
            if contains_str(&a.capabilities, capability) {
                out.push(a.clone());
                assert(elem_views(out@) =~= elem_views(prev).push(vals[i as int]));
            }
            i += 1;
        }
        proof {
            lemma_filter_none(vals, capable_of(capability@));
        }
        out
    }

    /// Notes `value` under `key` for the attachment `id`, and says whether
    /// there is such an attachment.
    pub fn set_metadata(&mut self, id: &str, key: String, value: String) -> (r: bool)
        ensures
            r == has_key(old(self)@.entries, id@),
            final(self)@ == with_metadata(old(self)@, id@, key@, value@),
    {
        let updated = match self.inner.get(id) {
            Some(a) => {
                let mut c = a.clone();
                c.metadata.insert(key, value);
                Some(c)
            },
            None => None,
        };
        match updated {
            Some(c) => {
                self.inner.insert(String::from_str(id), c);
                true
            },
            None => false,
        }
    }

    /// Replaces what the registry holds by the attachments of this node
    /// among `attachments`.
    pub fn sync_from_cluster(&mut self, attachments: &Vec<Attachment>)
        ensures
            final(self)@ == (RegistryView {
                entries: own_attachments(old(self)@.node_id, elem_views(attachments@)),
                ..old(self)@
            }),
    {
        let ghost all = elem_views(attachments@);
        let ghost node = self@.node_id;
        self.inner.clear();
        let mut i: usize = 0;
        proof {
            assert(all.take(0) =~= Seq::<AttachmentView>::empty());
        }
        while i < attachments.len()
            invariant
                i <= attachments@.len(),
                all == elem_views(attachments@),
                node == self@.node_id,
                self@.entries == own_attachments(node, all.take(i as int)),
            decreases attachments.len() - i,
        {
            proof {
                assert(all.take(i + 1).drop_last() =~= all.take(i as int));
                assert(all.take(i + 1).last() == attachments@[i as int]@);
            }
            let a = &attachments[i];
            if str_eq(a.node_id.as_str(), self.node_id.as_str()) {
                self.inner.insert(a.id.clone(), a.clone());
            }
            i += 1;
        }
        proof {
            assert(all.take(attachments@.len() as int) =~= all);
        }
    }
}

} // verus!
