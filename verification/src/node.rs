//! The peer registry: known peers of the validator network, keyed by id.
//!
//! The registry owns a mapping id -> peer with unique ids; inserting an
//! existing id overwrites. Callers that fan out network calls first take
//! a snapshot via `get_nodes`, so later registry mutation cannot affect
//! an in-flight iteration.

use vstd::prelude::*;
use vstd::pervasive::VecAdditionalExecFns;
use crate::text::str_eq;
use rsa::pkcs1::{EncodeRsaPrivateKey, EncodeRsaPublicKey, LineEnding};

verus! {

#[verifier::external_type_specification]
#[verifier::external_body]
pub struct ExRsaPrivateKey(rsa::RsaPrivateKey);

#[verifier::external_type_specification]
#[verifier::external_body]
pub struct ExRsaPublicKey(rsa::RsaPublicKey);

/// Relies on `uuid::Uuid::new_v4` and its `Display` form: a fresh
/// random UUID rendered in the 36-character hyphenated form.
#[verifier::external_body]
fn new_uuid_string() -> (r: String)
    ensures
        r@.len() == 36,
{
    uuid::Uuid::new_v4().to_string()
}

/// Relies on `rsa::RsaPrivateKey::new`: a fresh random 2048-bit key,
/// or `None` when generation fails; nothing is promised of its value.
#[verifier::external_body]
fn rsa_new_private_key() -> (r: Option<rsa::RsaPrivateKey>) {
    rsa::RsaPrivateKey::new(&mut rand::rngs::OsRng, 2048).ok()
}

/// Relies on `rsa::RsaPublicKey::from`: the public half of a private
/// key.
#[verifier::external_body]
fn rsa_public_key_of(key: &rsa::RsaPrivateKey) -> (r: rsa::RsaPublicKey) {
    rsa::RsaPublicKey::from(key)
}

/// Relies on `rsa::pkcs1::EncodeRsaPrivateKey::to_pkcs1_pem`: the
/// private key as a PEM document, or `None` when encoding fails.
#[verifier::external_body]
fn rsa_private_key_pem(key: &rsa::RsaPrivateKey) -> (r: Option<String>) {
    key.to_pkcs1_pem(LineEnding::LF).ok().map(|pem| pem.as_str().to_owned())
}

/// Relies on `rsa::pkcs1::EncodeRsaPublicKey::to_pkcs1_pem`: the
/// public key as a PEM document, or `None` when encoding fails.
#[verifier::external_body]
fn rsa_public_key_pem(key: &rsa::RsaPublicKey) -> (r: Option<String>) {
    key.to_pkcs1_pem(LineEnding::LF).ok()
}

/// One peer of the validator network. Identity (`id`, `address`,
/// `public_key`) is immutable after creation; `validated` is a
/// last-observed, advisory status.
pub struct Node {
    pub id: String,
    pub address: String,
    pub public_key: String,
    pub validated: Option<bool>,
}

/// The mathematical image of a `Node`: its fields as sequences.
pub ghost struct NodeView {
    pub id: Seq<char>,
    pub address: Seq<char>,
    pub public_key: Seq<char>,
    pub validated: Option<bool>,
}

impl View for Node {
    type V = NodeView;

    open spec fn view(&self) -> NodeView {
        NodeView {
            id: self.id@,
            address: self.address@,
            public_key: self.public_key@,
            validated: self.validated,
        }
    }
}

impl Clone for Node {
    fn clone(&self) -> (r: Self)
        ensures
            r@ == self@,
    {
        Node {
            id: self.id.clone(),
            address: self.address.clone(),
            public_key: self.public_key.clone(),
            validated: self.validated,
        }
    }
}

impl Node {
    /// Create this node's own identity: a fresh UUID for the id and a
    /// fresh RSA key pair, the public half carried in the node. Returns
    /// the node and the private key PEM, which the caller persists;
    /// `None` when key generation or encoding fails.
    pub fn new(address: &str) -> (r: Option<(Node, String)>)
        ensures
            r matches Some((n, _)) ==> n@.address == address@ && n@.validated == Some(false)
                && n@.id.len() == 36,
    {
        let id = new_uuid_string();
        let private_key = match rsa_new_private_key() {
            Some(k) => k,
            None => {
                return None;
            },
        };
        let public_key = rsa_public_key_of(&private_key);
        let private_pem = match rsa_private_key_pem(&private_key) {
            Some(p) => p,
            None => {
                return None;
            },
        };
        let public_pem = match rsa_public_key_pem(&public_key) {
            Some(p) => p,
            None => {
                return None;
            },
        };
        let node = Node {
            id,
            address: address.to_owned(),
            public_key: public_pem,
            validated: Some(false),
        };
        Some((node, private_pem))
    }
}

/// Some element of `s` carries the id `id`.
pub open spec fn spec_has_id(s: Seq<NodeView>, id: Seq<char>) -> bool {
    exists|i: int| 0 <= i < s.len() && s[i].id == id
}

/// The index of the element of `s` carrying `id` (unique when ids are
/// unique).
pub open spec fn spec_index_of_id(s: Seq<NodeView>, id: Seq<char>) -> int {
    choose|i: int| 0 <= i < s.len() && s[i].id == id
}

/// No two elements of `s` carry the same id.
pub open spec fn spec_unique_ids(s: Seq<NodeView>) -> bool {
    forall|i: int, j: int| 0 <= i < j < s.len() ==> s[i].id != s[j].id
}

/// Insert-or-overwrite by id: the registry's one mutation primitive.
pub open spec fn spec_insert(s: Seq<NodeView>, n: NodeView) -> Seq<NodeView> {
    if spec_has_id(s, n.id) {
        s.update(spec_index_of_id(s, n.id), n)
    } else {
        s.push(n)
    }
}

/// Insert-or-overwrite each element of `ns` into `acc` in order, so a
/// later duplicate id wins.
pub open spec fn spec_insert_all(acc: Seq<NodeView>, ns: Seq<NodeView>) -> Seq<NodeView>
    decreases ns.len(),
{
    if ns.len() == 0 {
        acc
    } else {
        spec_insert(spec_insert_all(acc, ns.drop_last()), ns.last())
    }
}

/// The views of a vector of nodes.
pub open spec fn spec_views_of(ns: Seq<Node>) -> Seq<NodeView> {
    ns.map_values(|n: Node| n@)
}

/// The peer registry. Ids are unique; inserting an existing id
/// overwrites the peer that carried it.
pub struct NodeList {
    nodes: Vec<Node>,
}

impl View for NodeList {
    type V = Seq<NodeView>;

    closed spec fn view(&self) -> Seq<NodeView> {
        spec_views_of(self.nodes@)
    }
}

/// With unique ids, the index found for `s[i].id` is `i` itself.
pub proof fn lemma_index_of_id_unique(s: Seq<NodeView>, i: int)
    requires
        spec_unique_ids(s),
        0 <= i < s.len(),
    ensures
        spec_has_id(s, s[i].id),
        spec_index_of_id(s, s[i].id) == i,
{
    assert(spec_has_id(s, s[i].id)) by {
        assert(0 <= i < s.len() && s[i].id == s[i].id);
    }
    let k = spec_index_of_id(s, s[i].id);
    assert(0 <= k < s.len() && s[k].id == s[i].id);
    if k < i {
        assert(s[k].id != s[i].id);
    }
    if i < k {
        assert(s[i].id != s[k].id);
    }
}

/// Inserting preserves unique ids.
pub proof fn lemma_insert_preserves_unique(s: Seq<NodeView>, n: NodeView)
    requires
        spec_unique_ids(s),
    ensures
        spec_unique_ids(spec_insert(s, n)),
{
    if spec_has_id(s, n.id) {
        let k = spec_index_of_id(s, n.id);
        assert(s[k].id == n.id);
        assert forall|i: int, j: int|
            0 <= i < j < spec_insert(s, n).len() implies spec_insert(s, n)[i].id
            != spec_insert(s, n)[j].id by {
            if i != k && j != k {
                assert(s[i].id != s[j].id);
            }
        }
    } else {
        assert forall|i: int, j: int|
            0 <= i < j < spec_insert(s, n).len() implies spec_insert(s, n)[i].id
            != spec_insert(s, n)[j].id by {
            if j == s.len() as int {
                assert(!(s[i].id == n.id));
            }
        }
    }
}

impl NodeList {
    /// Ids in the registry are unique.
    pub open spec fn wf(&self) -> bool {
        spec_unique_ids(self@)
    }

    /// An empty registry.
    pub fn new() -> (r: NodeList)
        ensures
            r@ =~= Seq::<NodeView>::empty(),
            r.wf(),
    {
        NodeList { nodes: Vec::new() }
    }

    /// Build a registry from a peer list, inserting in order so that a
    /// later duplicate id overwrites an earlier one. Also serves as the
    /// wholesale replacement used by the periodic refresh.
    pub fn from_nodes(nodes: Vec<Node>) -> (r: NodeList)
        ensures
            r.wf(),
            r@ == spec_insert_all(Seq::<NodeView>::empty(), spec_views_of(nodes@)),
    {
        let views = Ghost(spec_views_of(nodes@));
        let mut r = NodeList::new();
        let mut i: usize = 0;
        proof {
            assert(views@.take(0int) =~= Seq::<NodeView>::empty());
        }
        for i in 0..nodes.len()
            invariant
                views@ == spec_views_of(nodes@),
                views@.len() == nodes@.len(),
                r.wf(),
                r@ == spec_insert_all(Seq::<NodeView>::empty(), views@.take(i as int)),
        {
            proof {
                assert(views@.take(i + 1).drop_last() =~= views@.take(i as int));
                assert(views@.take(i + 1).last() == nodes@[i as int]@);
            }
            let node = nodes[i].clone();
            r.add_node(node);
        }
        proof {
            assert(views@.take(nodes@.len() as int) =~= views@);
        }
        r
    }

    /// Atomically swap the whole contents for `nodes`, as the periodic
    /// refresh does: the result is exactly the registry built from
    /// `nodes`, whatever stood here before.
    pub fn replace_all(&mut self, nodes: Vec<Node>)
        ensures
            final(self).wf(),
            final(self)@ == spec_insert_all(Seq::<NodeView>::empty(), spec_views_of(nodes@)),
    {
        *self = NodeList::from_nodes(nodes);
    }

    /// Insert `node`, overwriting any peer that already carries its id.
    /// Idempotent; no error case.
    pub fn add_node(&mut self, node: Node)
        requires
            old(self).wf(),
        ensures
            final(self).wf(),
            final(self)@ == spec_insert(old(self)@, node@),
    {
        proof {
            lemma_insert_preserves_unique(self@, node@);
        }
        let n = self.nodes.len();
        let mut i: usize = 0;
        while i < n
            invariant
                n == self.nodes@.len(),
                i <= n,
                *self == *old(self),
                old(self).wf(),
                forall|j: int| 0 <= j < i ==> self@[j].id != node@.id,
            decreases n - i,
        {
            if str_eq(self.nodes[i].id.as_str(), node.id.as_str()) {
                proof {
                    assert(self@[i as int].id == node@.id);
                    lemma_index_of_id_unique(self@, i as int);
                }
                self.nodes.set(i, node);
                proof {
                    assert(final(self)@ =~= spec_insert(old(self)@, node@));
                }
                return;
            }
            i = i + 1;
        }
        proof {
            assert(!spec_has_id(self@, node@.id));
        }
        self.nodes.push(node);
        proof {
            assert(final(self)@ =~= old(self)@.push(node@));
        }
    }

    /// A genuine copy of the current peers: later registry mutation
    /// cannot affect an iteration over the returned snapshot.
    pub fn get_nodes(&self) -> (r: Vec<Node>)
        ensures
            spec_views_of(r@) =~= self@,
    {
        let mut r: Vec<Node> = Vec::new();
        let n = self.nodes.len();
        let mut i: usize = 0;
        while i < n
            invariant
                n == self.nodes@.len(),
                i <= n,
                r@.len() == i,
                forall|j: int| 0 <= j < i ==> r@[j]@ == self@[j],
            decreases n - i,
        {
            let node = self.nodes[i].clone();
            r.push(node);
            i = i + 1;
        }
        r
    }

    /// The peer carrying `uuid`, if any.
    pub fn find_node_by_uuid(&self, uuid: &str) -> (r: Option<Node>)
        requires
            self.wf(),
        ensures
            match r {
                Some(n) => spec_has_id(self@, uuid@) && n@ == self@[spec_index_of_id(
                    self@,
                    uuid@,
                )],
                None => !spec_has_id(self@, uuid@),
            },
    {
        let n = self.nodes.len();
        let mut i: usize = 0;
        while i < n
            invariant
                n == self.nodes@.len(),
                i <= n,
                self.wf(),
                forall|j: int| 0 <= j < i ==> self@[j].id != uuid@,
            decreases n - i,
        {
            if str_eq(self.nodes[i].id.as_str(), uuid) {
                proof {
                    assert(self@[i as int].id == uuid@);
                    lemma_index_of_id_unique(self@, i as int);
                }
                return Some(self.nodes[i].clone());
            }
            i = i + 1;
        }
        None
    }

    /// Remove the peer carrying `uuid`. Not finding it is a negative
    /// result, not an error.
    pub fn remove_node_by_uuid(&mut self, uuid: &str) -> (r: bool)
        requires
            old(self).wf(),
        ensures
            final(self).wf(),
            r == spec_has_id(old(self)@, uuid@),
            r ==> final(self)@ == old(self)@.remove(spec_index_of_id(old(self)@, uuid@)),
            !r ==> final(self)@ == old(self)@,
    {
        let n = self.nodes.len();
        let mut i: usize = 0;
        while i < n
            invariant
                n == self.nodes@.len(),
                i <= n,
                *self == *old(self),
                old(self).wf(),
                forall|j: int| 0 <= j < i ==> self@[j].id != uuid@,
            decreases n - i,
        {
            if str_eq(self.nodes[i].id.as_str(), uuid) {
                proof {
                    assert(self@[i as int].id == uuid@);
                    lemma_index_of_id_unique(self@, i as int);
                }
                self.nodes.remove(i);
                proof {
                    assert(final(self)@ =~= old(self)@.remove(i as int));
                    assert forall|a: int, b: int|
                        0 <= a < b < final(self)@.len() implies final(self)@[a].id
                        != final(self)@[b].id by {
                        assert(final(self)@[a] == if a < i as int {
                            old(self)@[a]
                        } else {
                            old(self)@[a + 1]
                        });
                        assert(final(self)@[b] == if b < i as int {
                            old(self)@[b]
                        } else {
                            old(self)@[b + 1]
                        });
                    }
                }
                return true;
            }
            i = i + 1;
        }
        false
    }

    /// Set the advisory `validated` status of the peer carrying
    /// `node_id`, if present.
    pub fn update_validation(&mut self, node_id: &str, validated: bool)
        requires
            old(self).wf(),
        ensures
            final(self).wf(),
            spec_has_id(old(self)@, node_id@) ==> final(self)@ == old(self)@.update(
                spec_index_of_id(old(self)@, node_id@),
                NodeView {
                    validated: Some(validated),
                    ..old(self)@[spec_index_of_id(old(self)@, node_id@)]
                },
            ),
            !spec_has_id(old(self)@, node_id@) ==> final(self)@ == old(self)@,
    {
        let n = self.nodes.len();
        let mut i: usize = 0;
        while i < n
            invariant
                n == self.nodes@.len(),
                i <= n,
                *self == *old(self),
                old(self).wf(),
                forall|j: int| 0 <= j < i ==> self@[j].id != node_id@,
            decreases n - i,
        {
            if str_eq(self.nodes[i].id.as_str(), node_id) {
                proof {
                    assert(self@[i as int].id == node_id@);
                    lemma_index_of_id_unique(self@, i as int);
                }
                let mut node = self.nodes[i].clone();
                node.validated = Some(validated);
                let ghost target = NodeView { validated: Some(validated), ..old(self)@[i as int] };
                proof {
                    assert(node@ == target);
                    lemma_insert_preserves_unique(self@, target);
                }
                self.nodes.set(i, node);
                proof {
                    assert(final(self)@ =~= old(self)@.update(i as int, target));
                }
                return;
            }
            i = i + 1;
        }
    }
}

/// After an insert, looking the inserted id up yields exactly the
/// inserted peer, every field included: a peer registered and then read
/// back from a snapshot comes back unchanged.
pub proof fn lemma_register_round_trip(s: Seq<NodeView>, n: NodeView)
    requires
        spec_unique_ids(s),
    ensures
        spec_has_id(spec_insert(s, n), n.id),
        spec_insert(s, n)[spec_index_of_id(spec_insert(s, n), n.id)] == n,
{
    lemma_insert_preserves_unique(s, n);
    let t = spec_insert(s, n);
    if spec_has_id(s, n.id) {
        let k = spec_index_of_id(s, n.id);
        assert(t[k].id == n.id);
        assert(spec_has_id(t, n.id));
        let k2 = spec_index_of_id(t, n.id);
        if k2 != k {
            assert(t[k2].id != t[k].id);
        }
    } else {
        let k = s.len() as int;
        assert(t[k] == n);
        assert(spec_has_id(t, n.id));
        let k2 = spec_index_of_id(t, n.id);
        if k2 != k {
            assert(t[k2].id != t[k].id);
        }
    }
}

} // verus!
