//! Enrollment: tokens that admit a node once, and what a joining node is
//! handed.

use vstd::prelude::*;
use crate::clock::now_millis;
use crate::store::{del, has_key, lookup, put, values, Duplicate, KeyedStore};
use crate::text::{clone_strings, contains_str, elem_views, quote, quoted, views};
use crate::types::{EnrollmentToken, EnrollmentTokenView};

verus! {

/// A certificate of a node with its key, both as PEM text.
#[derive(Debug)]
pub struct NodeCertificate {
    pub cert_pem: String,
    pub key_pem: String,
    pub node_id: String,
}

impl Clone for NodeCertificate {
    fn clone(&self) -> (r: Self)
        ensures
            r.cert_pem@ == self.cert_pem@,
            r.key_pem@ == self.key_pem@,
            r.node_id@ == self.node_id@,
    {
        NodeCertificate {
            cert_pem: self.cert_pem.clone(),
            key_pem: self.key_pem.clone(),
            node_id: self.node_id.clone(),
        }
    }
}

/// What a joining node presents.
#[derive(Debug)]
pub struct EnrollmentRequest {
    pub token: String,
    pub node_id: String,
    pub hostname: String,
    pub hostnames: Vec<String>,
    pub ips: Vec<String>,
    pub tags: Vec<String>,
}

/// Where a peer is reached.
#[derive(Debug)]
pub struct PeerEndpoint {
    pub node_id: String,
    pub addr: String,
}

impl View for PeerEndpoint {
    type V = (Seq<char>, Seq<char>);

    open spec fn view(&self) -> (Seq<char>, Seq<char>) {
        (self.node_id@, self.addr@)
    }
}

/// What a joining node is handed.
#[derive(Debug)]
pub struct EnrollmentResponse {
    pub node_id: String,
    pub cluster_id: String,
    pub node_cert_pem: String,
    pub node_key_pem: String,
    pub ca_cert_pem: String,
    pub peers: Vec<PeerEndpoint>,
}

pub struct EnrollmentResponseView {
    pub node_id: Seq<char>,
    pub cluster_id: Seq<char>,
    pub node_cert_pem: Seq<char>,
    pub node_key_pem: Seq<char>,
    pub ca_cert_pem: Seq<char>,
    pub peers: Seq<(Seq<char>, Seq<char>)>,
}

impl View for EnrollmentResponse {
    type V = EnrollmentResponseView;

    open spec fn view(&self) -> EnrollmentResponseView {
        EnrollmentResponseView {
            node_id: self.node_id@,
            cluster_id: self.cluster_id@,
            node_cert_pem: self.node_cert_pem@,
            node_key_pem: self.node_key_pem@,
            ca_cert_pem: self.ca_cert_pem@,
            peers: elem_views(self.peers@),
        }
    }
}

/// A node that has joined.
#[derive(Debug)]
pub struct EnrolledNode {
    pub node_id: String,
    pub hostname: String,
    pub addr: String,
    pub tags: Vec<String>,
    pub enrolled_at: i64,
}

pub struct EnrolledNodeView {
    pub node_id: Seq<char>,
    pub hostname: Seq<char>,
    pub addr: Seq<char>,
    pub tags: Seq<Seq<char>>,
    pub enrolled_at: i64,
}

impl View for EnrolledNode {
    type V = EnrolledNodeView;

    open spec fn view(&self) -> EnrolledNodeView {
        EnrolledNodeView {
            node_id: self.node_id@,
            hostname: self.hostname@,
            addr: self.addr@,
            tags: views(self.tags@),
            enrolled_at: self.enrolled_at,
        }
    }
}

impl Clone for EnrolledNode {
    fn clone(&self) -> (r: Self)
        ensures
            r@ == self@,
    {
        EnrolledNode {
            node_id: self.node_id.clone(),
            hostname: self.hostname.clone(),
            addr: self.addr.clone(),
            tags: clone_strings(&self.tags),
            enrolled_at: self.enrolled_at,
        }
    }
}

impl Duplicate for EnrolledNode {
    fn duplicate(&self) -> (r: Self) {
        self.clone()
    }
}

impl Duplicate for EnrollmentToken {
    fn duplicate(&self) -> (r: Self) {
        self.clone()
    }
}

/// Why a node was not admitted.
#[derive(Debug)]
pub enum EnrollError {
    InvalidToken,
    Expired,
    TagsNotAllowed { tags: Vec<String>, allowed: Vec<String> },
    SigningFailed { message: String },
}

pub enum EnrollErrorView {
    InvalidToken,
    Expired,
    TagsNotAllowed { tags: Seq<Seq<char>>, allowed: Seq<Seq<char>> },
    SigningFailed { message: Seq<char> },
}

impl View for EnrollError {
    type V = EnrollErrorView;

    open spec fn view(&self) -> EnrollErrorView {
        match self {
            EnrollError::InvalidToken => EnrollErrorView::InvalidToken,
            EnrollError::Expired => EnrollErrorView::Expired,
            EnrollError::TagsNotAllowed { tags, allowed } => EnrollErrorView::TagsNotAllowed {
                tags: views(tags@),
                allowed: views(allowed@),
            },
            EnrollError::SigningFailed { message } => EnrollErrorView::SigningFailed {
                message: message@,
            },
        }
    }
}

/// A list of texts in words: each quoted, commas between them, square
/// brackets around them.
pub open spec fn list_text(items: Seq<Seq<char>>) -> Seq<char>
    decreases items.len(),
{
    if items.len() == 0 {
        seq!['[', ']']
    } else if items.len() == 1 {
        seq!['['] + quoted(items[0]) + seq![']']
    } else {
        list_text(items.drop_last()).drop_last() + seq![',', ' '] + quoted(items.last()) + seq![
            ']',
        ]
    }
}

impl EnrollErrorView {
    /// The reason in words.
    pub open spec fn message(self) -> Seq<char> {
        match self {
            EnrollErrorView::InvalidToken => "Invalid enrollment token"@,
            EnrollErrorView::Expired => "Enrollment token has expired"@,
            EnrollErrorView::TagsNotAllowed { tags, allowed } => "Node tags "@ + list_text(tags)
                + " not in allowed tags "@ + list_text(allowed),
            EnrollErrorView::SigningFailed { message } => message,
        }
    }
}

fn list_as_text(items: &Vec<String>) -> (r: String)
    ensures
        r@ == list_text(views(items@)),
{
    let ghost all = views(items@);
    let mut s = String::from_str("[");
    let mut i: usize = 0;
    proof {
        reveal_strlit("[");
        reveal_strlit("]");
        reveal_strlit(", ");
        assert(all.take(0) =~= Seq::<Seq<char>>::empty());
    }
    while i < items.len()
        invariant
            i <= items@.len(),
            all == views(items@),
            s@ + seq![']'] == list_text(all.take(i as int)),
        decreases items.len() - i,
    {
        proof {
            reveal_strlit(", ");
            assert(all.take(i + 1).drop_last() =~= all.take(i as int));
            assert(all.take(i + 1).last() == items@[i as int]@);
            assert((s@ + seq![']']).drop_last() =~= s@);
        }
        let ghost before = s@;
        if i > 0 {
            s.append(", ");
        }
        let q = quote(items[i].as_str());
        s.append(q.as_str());
        proof {
            if i == 0 {
                assert(before =~= seq!['[']);
                assert(s@ + seq![']'] =~= seq!['['] + quoted(items@[0]@) + seq![']']);
                assert(all.take(1)[0] == items@[0]@);
            } else {
                assert(s@ + seq![']'] =~= before + seq![',', ' '] + quoted(items@[i as int]@)
                    + seq![']']);
            }
        }
        i += 1;
    }
    s.append("]");
    proof {
        assert(all.take(items@.len() as int) =~= all);
    }
    s
}

impl EnrollError {
    /// The reason in words.
    pub fn message(&self) -> (r: String)
        ensures
            r@ == self@.message(),
    {
        match self {
            EnrollError::InvalidToken => String::from_str("Invalid enrollment token"),
            EnrollError::Expired => String::from_str("Enrollment token has expired"),
            EnrollError::TagsNotAllowed { tags, allowed } => {
                let mut s = String::from_str("Node tags ");
                let a = list_as_text(tags);
                s.append(a.as_str());
                s.append(" not in allowed tags ");
                let b = list_as_text(allowed);
                s.append(b.as_str());
                s
            },
            EnrollError::SigningFailed { message } => message.clone(),
        }
    }
}

/// The instant `hours` hours after `now`, kept within what an instant can
/// hold.
pub open spec fn expiry(now: i64, hours: i64) -> i64 {
    let t = now + hours * 3_600_000;
    if t > i64::MAX {
        i64::MAX
    } else if t < i64::MIN {
        i64::MIN
    } else {
        t as i64
    }
}

/// Computes the instant `hours` hours after `now`.
pub fn expiry_after(now: i64, hours: i64) -> (r: i64)
    ensures
        r == expiry(now, hours),
{
    let t: i128 = (now as i128) + (hours as i128) * 3_600_000;
    if t > i64::MAX as i128 {
        i64::MAX
    } else if t < i64::MIN as i128 {
        i64::MIN
    } else {
        t as i64
    }
}

/// One of the letters `a` to `z` and `A` to `Z` and the digits `0` to `9`.
pub open spec fn is_letter_or_digit(c: char) -> bool {
    let n = c as u32;
    48 <= n <= 57 || 65 <= n <= 90 || 97 <= n <= 122
}

/// `len` random letters and digits, drawn with `rand::thread_rng` from
/// `rand::distributions::Alphanumeric`. Two calls may hand out any two such
/// texts.
#[verifier::external_body]
fn random_token(len: usize) -> (r: String)
    ensures
        r@.len() == len,
        forall|i: int| 0 <= i < r@.len() ==> is_letter_or_digit(#[trigger] r@[i]),
{
    rand::Rng::sample_iter(rand::thread_rng(), &rand::distributions::Alphanumeric)
        .take(len)
        .map(char::from)
        .collect()
}

/// The state of enrollment as a value.
pub struct ManagerView {
    pub cluster_id: Seq<char>,
    pub ca_cert_pem: Seq<char>,
    pub tokens: Seq<(Seq<char>, EnrollmentTokenView)>,
    pub enrolled: Seq<(Seq<char>, EnrolledNodeView)>,
}

/// Some tag of `tags` is among `allowed`.
pub open spec fn shares_tag(tags: Seq<Seq<char>>, allowed: Seq<Seq<char>>) -> bool {
    exists|i: int| 0 <= i < tags.len() && allowed.contains(#[trigger] tags[i])
}

/// Whether the token that a request presents admits it at `now`: the token
/// must be known and not expired, and where it names tags the node must
/// carry one of them.
pub open spec fn token_verdict(
    m: ManagerView,
    token: Seq<char>,
    tags: Seq<Seq<char>>,
    now: i64,
) -> Result<(), EnrollErrorView> {
    match lookup(m.tokens, token) {
        None => Err(EnrollErrorView::InvalidToken),
        Some(t) => if now > t.expires_at {
            Err(EnrollErrorView::Expired)
        } else if t.allowed_tags.len() > 0 && !shares_tag(tags, t.allowed_tags) {
            Err(EnrollErrorView::TagsNotAllowed { tags, allowed: t.allowed_tags })
        } else {
            Ok(())
        },
    }
}

/// The endpoint of an enrolled node.
pub open spec fn endpoint() -> spec_fn(EnrolledNodeView) -> (Seq<char>, Seq<char>) {
    |n: EnrolledNodeView| (n.node_id, n.addr)
}

/// What an enrollment answers: the error of the token, else the error of
/// the signing, else the certificate with the cluster's and the peers.
pub open spec fn enroll_answer(
    m: ManagerView,
    token: Seq<char>,
    node_id: Seq<char>,
    tags: Seq<Seq<char>>,
    now: i64,
    signed: Result<(Seq<char>, Seq<char>), Seq<char>>,
) -> Result<EnrollmentResponseView, EnrollErrorView> {
    match token_verdict(m, token, tags, now) {
        Err(e) => Err(e),
        Ok(_) => match signed {
            Err(message) => Err(EnrollErrorView::SigningFailed { message }),
            Ok((cert_pem, key_pem)) => Ok(
                EnrollmentResponseView {
                    node_id,
                    cluster_id: m.cluster_id,
                    node_cert_pem: cert_pem,
                    node_key_pem: key_pem,
                    ca_cert_pem: m.ca_cert_pem,
                    peers: values(m.enrolled).map_values(endpoint()),
                },
            ),
        },
    }
}

/// What an enrollment leaves of the tokens: a token is used up by the
/// enrollment it admits, and dropped when it is found expired.
pub open spec fn tokens_after(
    m: ManagerView,
    token: Seq<char>,
    tags: Seq<Seq<char>>,
    now: i64,
    signed: Result<(Seq<char>, Seq<char>), Seq<char>>,
) -> Seq<(Seq<char>, EnrollmentTokenView)> {
    match token_verdict(m, token, tags, now) {
        Err(EnrollErrorView::Expired) => del(m.tokens, token),
        Err(_) => m.tokens,
        Ok(_) => if signed is Ok {
            del(m.tokens, token)
        } else {
            m.tokens
        },
    }
}

/// The view of what the signer handed back.
pub open spec fn signed_view(s: Result<NodeCertificate, String>) -> Result<
    (Seq<char>, Seq<char>),
    Seq<char>,
> {
    match s {
        Ok(c) => Ok((c.cert_pem@, c.key_pem@)),
        Err(e) => Err(e@),
    }
}

/// The view of an answer.
pub open spec fn answer_view(r: Result<EnrollmentResponse, EnrollError>) -> Result<
    EnrollmentResponseView,
    EnrollErrorView,
> {
    match r {
        Ok(x) => Ok(x@),
        Err(e) => Err(e@),
    }
}

/// The view of a verdict on a token.
pub open spec fn check_view(r: Result<(), EnrollError>) -> Result<(), EnrollErrorView> {
    match r {
        Ok(_) => Ok(()),
        Err(e) => Err(e@),
    }
}

/// Issues tokens and admits nodes.
pub struct EnrollmentManager {
    cluster_id: String,
    ca_cert_pem: String,
    tokens: KeyedStore<EnrollmentToken>,
    enrolled_nodes: KeyedStore<EnrolledNode>,
}

impl View for EnrollmentManager {
    type V = ManagerView;

    closed spec fn view(&self) -> ManagerView {
        ManagerView {
            cluster_id: self.cluster_id@,
            ca_cert_pem: self.ca_cert_pem@,
            tokens: self.tokens@,
            enrolled: self.enrolled_nodes@,
        }
    }
}

fn any_shared(tags: &Vec<String>, allowed: &Vec<String>) -> (r: bool)
    ensures
        r == shares_tag(views(tags@), views(allowed@)),
{
    let mut i: usize = 0;
    while i < tags.len()
        invariant
            i <= tags@.len(),
            forall|j: int| 0 <= j < i ==> !views(allowed@).contains(#[trigger] views(tags@)[j]),
        decreases tags.len() - i,
    {
        assert(views(tags@)[i as int] == tags@[i as int]@);
        if contains_str(allowed, tags[i].as_str()) {
            return true;
        }
        i += 1;
    }
    false
}

impl EnrollmentManager {
    /// A manager for the cluster `cluster_id` whose authority has the
    /// certificate `ca_cert_pem`; no token issued, no node enrolled.
    pub fn new(cluster_id: String, ca_cert_pem: String) -> (r: Self)
        ensures
            r@ == (ManagerView {
                cluster_id: cluster_id@,
                ca_cert_pem: ca_cert_pem@,
                tokens: Seq::empty(),
                enrolled: Seq::empty(),
            }),
    {
        EnrollmentManager {
            cluster_id,
            ca_cert_pem,
            tokens: KeyedStore::new(),
            enrolled_nodes: KeyedStore::new(),
        }
    }

    /// Issues the token `token`, valid for `valid_hours` hours from `now`.
    pub fn generate_token_with(
        &mut self,
        token: String,
        valid_hours: i64,
        allowed_tags: Vec<String>,
        now: i64,
    ) -> (r: EnrollmentToken)
        ensures
            r@ == (EnrollmentTokenView {
                token: token@,
                cluster_id: old(self)@.cluster_id,
                expires_at: expiry(now, valid_hours),
                allowed_tags: views(allowed_tags@),
            }),
            final(self)@ == (ManagerView { tokens: put(old(self)@.tokens, token@, r@), ..old(self)@ }),
    {
        let issued = EnrollmentToken {
            token: token.clone(),
            cluster_id: self.cluster_id.clone(),
            expires_at: expiry_after(now, valid_hours),
            allowed_tags,
        };
        self.tokens.insert(token, issued.clone());
        issued
    }

    /// Issues a fresh token of 32 letters and digits, valid for
    /// `valid_hours` hours from now.
    pub fn generate_token(&mut self, valid_hours: i64, allowed_tags: Vec<String>) -> (r:
        EnrollmentToken)
        ensures
            r@.token.len() == 32,
            forall|i: int| 0 <= i < 32 ==> is_letter_or_digit(#[trigger] r@.token[i]),
            r@.cluster_id == old(self)@.cluster_id,
            r@.allowed_tags == views(allowed_tags@),
            exists|now: i64| r@.expires_at == #[trigger] expiry(now, valid_hours),
            final(self)@ == (ManagerView {
                tokens: put(old(self)@.tokens, r@.token, r@),
                ..old(self)@
            }),
    {
        let token = random_token(32);
        let now = now_millis();
        self.generate_token_with(token, valid_hours, allowed_tags, now)
    }

    /// Whether the token of `req` admits it at `now`.
    pub fn check(&self, req: &EnrollmentRequest, now: i64) -> (r: Result<(), EnrollError>)
        ensures
            check_view(r) == token_verdict(self@, req.token@, views(req.tags@), now),
    {
        match self.tokens.get(req.token.as_str()) {
            None => Err(EnrollError::InvalidToken),
            Some(t) => {
                if now > t.expires_at {
                    Err(EnrollError::Expired)
                } else if t.allowed_tags.len() > 0 && !any_shared(&req.tags, &t.allowed_tags) {
                    Err(
                        EnrollError::TagsNotAllowed {
                            tags: clone_strings(&req.tags),
                            allowed: clone_strings(&t.allowed_tags),
                        },
                    )
                } else {
                    Ok(())
                }
            },
        }
    }

    /// Admits the node of `req` at `now`, given what the signer made of its
    /// certificate.
    pub fn enroll_with(
        &mut self,
        req: EnrollmentRequest,
        now: i64,
        signed: Result<NodeCertificate, String>,
    ) -> (r: Result<EnrollmentResponse, EnrollError>)
        ensures
            answer_view(r) == enroll_answer(
                old(self)@,
                req.token@,
                req.node_id@,
                views(req.tags@),
                now,
                signed_view(signed),
            ),
            final(self)@ == (ManagerView {
                tokens: tokens_after(
                    old(self)@,
                    req.token@,
                    views(req.tags@),
                    now,
                    signed_view(signed),
                ),
                ..old(self)@
            }),
    {
        match self.check(&req, now) {
            Err(e) => {
                if let EnrollError::Expired = &e {
                    self.tokens.remove(req.token.as_str());
                }
                Err(e)
            },
            Ok(_) => match signed {
                Err(message) => Err(EnrollError::SigningFailed { message }),
                Ok(cert) => {
                    let peers = self.peer_endpoints();
                    self.tokens.remove(req.token.as_str());
                    Ok(
                        EnrollmentResponse {
                            node_id: req.node_id,
                            cluster_id: self.cluster_id.clone(),
                            node_cert_pem: cert.cert_pem,
                            node_key_pem: cert.key_pem,
                            ca_cert_pem: self.ca_cert_pem.clone(),
                            peers,
                        },
                    )
                },
            },
        }
    }

    fn peer_endpoints(&self) -> (r: Vec<PeerEndpoint>)
        ensures
            elem_views(r@) == values(self@.enrolled).map_values(endpoint()),
    {
        let n = self.enrolled_nodes.len();
        let mut out: Vec<PeerEndpoint> = Vec::new();
        let mut i: usize = 0;
        while i < n
            invariant
                i <= n,
                n == self@.enrolled.len(),
                out@.len() == i,
                forall|j: int|
                    0 <= j < i ==> (#[trigger] out@[j])@ == endpoint()(self@.enrolled[j].1),
            decreases n - i,
        {
            let node = self.enrolled_nodes.value_at(i);
            out.push(PeerEndpoint { node_id: node.node_id.clone(), addr: node.addr.clone() });
            i += 1;
        }
        assert(elem_views(out@) =~= values(self@.enrolled).map_values(endpoint()));
        out
    }

    /// Records that a node has joined at `now`.
    pub fn register_enrolled_node_at(
        &mut self,
        node_id: String,
        hostname: String,
        addr: String,
        tags: Vec<String>,
        now: i64,
    )
        ensures
            final(self)@ == (ManagerView {
                enrolled: put(
                    old(self)@.enrolled,
                    node_id@,
                    EnrolledNodeView {
                        node_id: node_id@,
                        hostname: hostname@,
                        addr: addr@,
                        tags: views(tags@),
                        enrolled_at: now,
                    },
                ),
                ..old(self)@
            }),
    {
        let node = EnrolledNode { node_id: node_id.clone(), hostname, addr, tags, enrolled_at: now };
        self.enrolled_nodes.insert(node_id, node);
    }

    /// Records that a node has joined now.
    pub fn register_enrolled_node(
        &mut self,
        node_id: String,
        hostname: String,
        addr: String,
        tags: Vec<String>,
    )
        ensures
            exists|now: i64|
                final(self)@ == (ManagerView {
                    enrolled: put(
                        old(self)@.enrolled,
                        node_id@,
                        #[trigger] enrolled_view(node_id@, hostname@, addr@, views(tags@), now),
                    ),
                    ..old(self)@
                }),
    {
        let now = now_millis();
        proof {
            let _ = enrolled_view(node_id@, hostname@, addr@, views(tags@), now);
        }
        self.register_enrolled_node_at(node_id, hostname, addr, tags, now);
    }

    /// Whether the node `node_id` has joined.
    pub fn is_enrolled(&self, node_id: &str) -> (r: bool)
        ensures
            r == has_key(self@.enrolled, node_id@),
    {
        self.enrolled_nodes.contains_key(node_id)
    }

    /// The nodes that have joined, in the order in which they first did.
    pub fn get_enrolled_nodes(&self) -> (r: Vec<EnrolledNode>)
        ensures
            elem_views(r@) == values(self@.enrolled),
    {
        self.enrolled_nodes.values_vec()
    }

    /// The certificate of the cluster's authority.
    pub fn ca_cert_pem(&self) -> (r: &str)
        ensures
            r@ == self@.ca_cert_pem,
    {
        self.ca_cert_pem.as_str()
    }

    /// The identifier of the cluster.
    pub fn cluster_id(&self) -> (r: &str)
        ensures
            r@ == self@.cluster_id,
    {
        self.cluster_id.as_str()
    }
}

/// A node that joined at `now`.
pub open spec fn enrolled_view(
    node_id: Seq<char>,
    hostname: Seq<char>,
    addr: Seq<char>,
    tags: Seq<Seq<char>>,
    now: i64,
) -> EnrolledNodeView {
    EnrolledNodeView { node_id, hostname, addr, tags, enrolled_at: now }
}

} // verus!
