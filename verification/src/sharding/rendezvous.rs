//! Rendezvous hashing (highest random weight): a key belongs to the node whose
//! `hash(key, node)` score is highest.
use vstd::prelude::*;
use crate::sharding::hashing::{default_hash_of_text_pair, hash_text_pair};
use crate::text::{sort_texts, text_le, text_order, texts, lemma_text_le_antisymmetric};
use crate::sharding::maglev::arranged_from;

verus! {

/// The score of `node` for `key`; the highest score wins ownership.
pub open spec fn rendezvous_score(key: Seq<char>, node: Seq<char>) -> u64 {
    default_hash_of_text_pair(key, node)
}

/// Index of the last node of highest score among the first `len` nodes (for ties the
/// later node wins, as `Iterator::max_by_key` does).
pub open spec fn best_index(nodes: Seq<Seq<char>>, key: Seq<char>, len: int) -> int
    decreases len,
{
    if len <= 1 {
        0
    } else {
        let b = best_index(nodes, key, len - 1);
        if rendezvous_score(key, nodes[len - 1]) >= rendezvous_score(key, nodes[b]) {
            len - 1
        } else {
            b
        }
    }
}

/// The node owning `key`, if there is any node.
pub open spec fn rendezvous_owner(nodes: Seq<Seq<char>>, key: Seq<char>) -> Option<Seq<char>> {
    if nodes.len() == 0 {
        None
    } else {
        Some(nodes[best_index(nodes, key, nodes.len() as int)])
    }
}

/// The best index has the highest score, and every later node scores strictly less.
pub proof fn lemma_best_index(nodes: Seq<Seq<char>>, key: Seq<char>, len: int)
    requires
        1 <= len <= nodes.len(),
    ensures
        0 <= best_index(nodes, key, len) < len,
        forall|k: int| 0 <= k < len ==> rendezvous_score(key, #[trigger] nodes[k])
            <= rendezvous_score(key, nodes[best_index(nodes, key, len)]),
        forall|k: int| best_index(nodes, key, len) < k < len ==> rendezvous_score(key, #[trigger] nodes[k])
            < rendezvous_score(key, nodes[best_index(nodes, key, len)]),
    decreases len,
{
    if len > 1 {
        lemma_best_index(nodes, key, len - 1);
    }
}

/// Rendezvous consistent hasher over nodes identified by their base58 peer id text.
pub struct RendezvousHasher {
    /// Nodes in the cluster, in ascending order.
    nodes: Vec<String>,
}

impl View for RendezvousHasher {
    type V = Seq<Seq<char>>;

    /// The nodes, in ascending order.
    closed spec fn view(&self) -> Seq<Seq<char>> {
        texts(self.nodes@)
    }
}

impl RendezvousHasher {
    #[verifier::type_invariant]
    spec fn well_formed(&self) -> bool {
        vstd::relations::sorted_by(texts(self.nodes@), text_order())
    }

    /// Creates a hasher over `nodes`.
    pub fn new(nodes: Vec<String>) -> (r: Self)
        ensures
            arranged_from(r@, nodes@),
    {
        let nodes = sort_texts(nodes);
        RendezvousHasher { nodes }
    }

    /// The node with the highest `hash(key, node)` score; `None` when there are no nodes.
    pub fn lookup(&self, key: &str) -> (r: Option<&String>)
        ensures
            match r {
                Some(node) => rendezvous_owner(self@, key@) == Some(node@),
                None => rendezvous_owner(self@, key@) is None,
            },
    {
        if self.nodes.len() == 0 {
            return None;
        }
        let ghost ts = texts(self.nodes@);
        let mut best: usize = 0;
        let mut best_score = Self::score(key, &self.nodes[0]);
        let mut i: usize = 1;
        while i < self.nodes.len()
            invariant
                ts == texts(self.nodes@),
                1 <= i <= self.nodes.len(),
                best as int == best_index(ts, key@, i as int),
                best < i,
                best_score == rendezvous_score(key@, ts[best as int]),
            decreases self.nodes.len() - i,
        {
            let sc = Self::score(key, &self.nodes[i]);
            if sc >= best_score {
                best = i;
                best_score = sc;
            }
            i = i + 1;
        }
        Some(&self.nodes[best])
    }

    /// Whether `key` is owned by `local_peer`.
    pub fn is_local(&self, key: &str, local_peer: &String) -> (r: bool)
        ensures
            r == (rendezvous_owner(self@, key@) == Some(local_peer@)),
    {
        match self.lookup(key) {
            Some(owner) => *owner == *local_peer,
            None => false,
        }
    }

    /// Replaces the node set, as `new` would build it.
    pub fn rebuild(&mut self, nodes: Vec<String>)
        ensures
            arranged_from(final(self)@, nodes@),
    {
        let nodes = sort_texts(nodes);
        *self = RendezvousHasher { nodes };
    }

    /// Number of nodes.
    pub fn node_count(&self) -> (r: usize)
        ensures
            r == self@.len(),
    {
        self.nodes.len()
    }

    /// The nodes, in ascending order.
    pub fn nodes(&self) -> (r: &Vec<String>)
        ensures
            texts(r@) == self@,
    {
        &self.nodes
    }

    /// The score of a (key, node) pair: both hashed, in that order, into one hasher.
    fn score(key: &str, node: &String) -> (r: u64)
        ensures
            r == rendezvous_score(key@, node@),
    {
        hash_text_pair(key, node.as_str())
    }
}

/// Minimal disruption: taking nodes away (or adding them) moves only the keys whose
/// owner left (or whose new owner is a new node). If `smaller` holds only nodes of
/// `larger`, and `larger`'s owner of `key` is still in `smaller`, it owns `key` there too.
pub proof fn lemma_rendezvous_minimal_disruption(larger: Seq<Seq<char>>, smaller: Seq<Seq<char>>, key: Seq<char>)
    requires
        vstd::relations::sorted_by(larger, text_order()),
        vstd::relations::sorted_by(smaller, text_order()),
        forall|x: Seq<char>| smaller.contains(x) ==> larger.contains(x),
        rendezvous_owner(larger, key) is Some,
        smaller.contains(rendezvous_owner(larger, key)->0),
    ensures
        rendezvous_owner(smaller, key) == rendezvous_owner(larger, key),
{
    let p = rendezvous_owner(larger, key)->0;
    let b = best_index(larger, key, larger.len() as int);
    lemma_best_index(larger, key, larger.len() as int);
    let kp = choose|k: int| 0 <= k < smaller.len() && smaller[k] == p;
    let b2 = best_index(smaller, key, smaller.len() as int);
    lemma_best_index(smaller, key, smaller.len() as int);
    let q = smaller[b2];
    assert(smaller.contains(q));
    let kq = choose|k: int| 0 <= k < larger.len() && larger[k] == q;
    assert(rendezvous_score(key, larger[kq]) <= rendezvous_score(key, larger[b]));
    assert(rendezvous_score(key, smaller[kp]) <= rendezvous_score(key, smaller[b2]));
    if q != p {
        // q scores as high as p; in `larger` it must come before p, in `smaller` after.
        assert(kq != b);
        assert(kq < b);
        assert(text_order()(larger[kq], larger[b]));
        assert(kp != b2);
        assert(kp < b2);
        assert(text_order()(smaller[kp], smaller[b2]));
        lemma_text_le_antisymmetric(p, q);
    }
}

/// Building from the same nodes in any order gives the same owner for every key.
pub proof fn lemma_rendezvous_order_independent(va: Seq<Seq<char>>, a: Seq<String>, vb: Seq<Seq<char>>, b: Seq<String>)
    requires
        arranged_from(va, a),
        arranged_from(vb, b),
        texts(a).to_multiset() =~= texts(b).to_multiset(),
    ensures
        va == vb,
        forall|key: Seq<char>| #[trigger] rendezvous_owner(va, key) == rendezvous_owner(vb, key),
{
    crate::text::lemma_text_le_total_ordering();
    vstd::seq_lib::lemma_sorted_unique(va, vb, text_order());
}

/// A hasher with a single node gives every key to that node; an empty one gives none.
pub proof fn lemma_rendezvous_single_node_owns_all(view: Seq<Seq<char>>, key: Seq<char>)
    ensures
        view.len() == 1 ==> rendezvous_owner(view, key) == Some(view[0]),
        view.len() == 0 ==> rendezvous_owner(view, key) is None,
{
}

} // verus!
