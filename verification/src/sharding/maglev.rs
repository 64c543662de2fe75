//! Maglev consistent hashing: a lookup table of a prime number of slots, filled by
//! letting every node claim, in turn, the next free slot of its own permutation.
use vstd::prelude::*;
use vstd::arithmetic::div_mod::{lemma_fundamental_div_mod, lemma_fundamental_div_mod_converse, lemma_mod_bound};
use crate::sharding::hashing::{default_hash_of_text, hash_text};
use crate::text::{sort_texts, text_order, texts};
use crate::sharding::permutation::{is_prime, perm_slot, lemma_perm_surjective, lemma_65537_is_prime};

verus! {

/// Default Maglev table size (prime, so every permutation covers the table).
pub const DEFAULT_TABLE_SIZE: usize = 65537;

/// Number of entries of `s` equal to `v`.
pub open spec fn count_value(s: Seq<usize>, v: usize) -> nat
    decreases s.len(),
{
    if s.len() == 0 {
        0
    } else {
        count_value(s.drop_last(), v) + (if s.last() == v { 1nat } else { 0nat })
    }
}

/// Where the permutation of `node` starts: `hash(node) mod m`.
pub open spec fn node_offset(node: Seq<char>, m: int) -> int {
    ((default_hash_of_text(node) as usize) as int) % m
}

/// The step of the permutation of `node`: `hash(node + ":skip") mod (m - 1) + 1`.
pub open spec fn node_skip(node: Seq<char>, m: int) -> int {
    ((default_hash_of_text(node + ":skip"@) as usize) as int) % (m - 1) + 1
}

/// The slot at position `j` of the permutation of `node`.
pub open spec fn node_slot(node: Seq<char>, m: int, j: int) -> int {
    perm_slot(node_offset(node, m), node_skip(node, m), j, m)
}

/// The first position at or after `j` whose slot is still free in `table`.
pub open spec fn first_free(table: Seq<usize>, node: Seq<char>, m: int, j: int) -> int
    decreases m - j,
{
    if j < 0 || j >= m {
        j
    } else if table[node_slot(node, m, j)] == usize::MAX {
        j
    } else {
        first_free(table, node, m, j + 1)
    }
}

/// The table and the per-node permutation positions after `steps` claims, node
/// `k % n` making claim `k` (round robin). Free slots hold `usize::MAX`.
pub open spec fn fill_state(nodes: Seq<Seq<char>>, m: int, steps: nat) -> (Seq<usize>, Seq<int>)
    decreases steps,
{
    if steps == 0 {
        (Seq::new(m as nat, |c: int| usize::MAX), Seq::new(nodes.len(), |i: int| 0int))
    } else {
        let prev = fill_state(nodes, m, (steps - 1) as nat);
        let i = (steps - 1) % (nodes.len() as int);
        let j = first_free(prev.0, nodes[i], m, prev.1[i]);
        (prev.0.update(node_slot(nodes[i], m, j), i as usize), prev.1.update(i, j + 1))
    }
}

/// The Maglev lookup table of `nodes` over `m` slots: slot to node index.
pub open spec fn maglev_table(nodes: Seq<Seq<char>>, m: int) -> Seq<usize> {
    if nodes.len() == 0 {
        Seq::new(m as nat, |c: int| 0usize)
    } else {
        fill_state(nodes, m, m as nat).0
    }
}

/// The slot a key hashes to.
pub open spec fn key_slot(key: Seq<char>, m: int) -> int {
    ((default_hash_of_text(key) as usize) as int) % m
}

/// The node owning `key`, if there is any node.
pub open spec fn maglev_owner(nodes: Seq<Seq<char>>, m: int, key: Seq<char>) -> Option<Seq<char>> {
    if nodes.len() == 0 {
        None
    } else {
        Some(nodes[maglev_table(nodes, m)[key_slot(key, m)] as int])
    }
}

// ---------------------------------------------------------------------------
// Counting lemmas

proof fn lemma_count_update(s: Seq<usize>, c: int, w: usize, v: usize)
    requires
        0 <= c < s.len(),
    ensures
        count_value(s.update(c, w), v) + (if s[c] == v { 1int } else { 0int })
            == count_value(s, v) + (if w == v { 1int } else { 0int }),
    decreases s.len(),
{
    let t = s.update(c, w);
    if c == s.len() - 1 {
        assert(t.drop_last() =~= s.drop_last());
    } else {
        assert(t.drop_last() =~= s.drop_last().update(c, w));
        lemma_count_update(s.drop_last(), c, w, v);
    }
}

proof fn lemma_count_positive(s: Seq<usize>, v: usize)
    requires
        count_value(s, v) > 0,
    ensures
        exists|c: int| 0 <= c < s.len() && s[c] == v,
    decreases s.len(),
{
    if s.last() != v {
        lemma_count_positive(s.drop_last(), v);
        let c = choose|c: int| 0 <= c < s.drop_last().len() && s.drop_last()[c] == v;
        assert(s[c] == v);
    }
}

proof fn lemma_count_constant(m: nat, v: usize, w: usize)
    ensures
        count_value(Seq::new(m, |c: int| v), w) == (if v == w { m } else { 0 }),
    decreases m,
{
    if m > 0 {
        let s = Seq::new(m, |c: int| v);
        assert(s.drop_last() =~= Seq::new((m - 1) as nat, |c: int| v));
        lemma_count_constant((m - 1) as nat, v, w);
    }
}

proof fn lemma_count_none(s: Seq<usize>, v: usize)
    requires
        forall|c: int| 0 <= c < s.len() ==> s[c] != v,
    ensures
        count_value(s, v) == 0,
    decreases s.len(),
{
    if s.len() > 0 {
        lemma_count_none(s.drop_last(), v);
    }
}

// ---------------------------------------------------------------------------
// Permutation facts

proof fn lemma_node_perm_params(node: Seq<char>, m: int)
    requires
        m >= 2,
    ensures
        0 <= node_offset(node, m) < m,
        1 <= node_skip(node, m) < m,
{
    lemma_mod_bound((default_hash_of_text(node) as usize) as int, m);
    lemma_mod_bound((default_hash_of_text(node + ":skip"@) as usize) as int, m - 1);
}

proof fn lemma_node_slot_range(node: Seq<char>, m: int, j: int)
    requires
        m >= 2,
    ensures
        0 <= node_slot(node, m, j) < m,
{
    lemma_mod_bound(node_offset(node, m) + j * node_skip(node, m), m);
}

proof fn lemma_first_free(table: Seq<usize>, node: Seq<char>, m: int, j: int, witness: int)
    requires
        m >= 2,
        table.len() == m,
        0 <= j <= witness < m,
        table[node_slot(node, m, witness)] == usize::MAX,
    ensures
        j <= first_free(table, node, m, j) <= witness,
        table[node_slot(node, m, first_free(table, node, m, j))] == usize::MAX,
        forall|k: int| j <= k < first_free(table, node, m, j) ==> table[#[trigger] node_slot(node, m, k)]
            != usize::MAX,
    decreases m - j,
{
    lemma_node_slot_range(node, m, j);
    if table[node_slot(node, m, j)] != usize::MAX {
        lemma_first_free(table, node, m, j + 1, witness);
    }
}

// ---------------------------------------------------------------------------
// The invariant of the fill

/// What holds after `steps` claims, for `steps <= m`.
pub open spec fn fill_invariant(nodes: Seq<Seq<char>>, m: int, steps: nat) -> bool {
    let st = fill_state(nodes, m, steps);
    let n = nodes.len() as int;
    &&& st.0.len() == m
    &&& st.1.len() == n
    &&& count_value(st.0, usize::MAX) == m - steps
    &&& forall|c: int| 0 <= c < m ==> st.0[c] == usize::MAX || (st.0[c] as int) < n
    &&& forall|i: int| 0 <= i < n ==> #[trigger] count_value(st.0, i as usize) == steps as int / n + (if i
        < steps as int % n { 1int } else { 0int })
    &&& forall|i: int| 0 <= i < n ==> 0 <= #[trigger] st.1[i] <= m
    &&& forall|i: int, j: int|
        0 <= i < n && 0 <= j < st.1[i] ==> st.0[#[trigger] node_slot(nodes[i], m, j)] != usize::MAX
}

proof fn lemma_div_mod_step(s: int, n: int)
    requires
        n > 0,
        s >= 0,
    ensures
        s % n + 1 < n ==> (s + 1) / n == s / n && (s + 1) % n == s % n + 1,
        s % n + 1 == n ==> (s + 1) / n == s / n + 1 && (s + 1) % n == 0,
        0 <= s % n < n,
{
    lemma_fundamental_div_mod(s, n);
    lemma_mod_bound(s, n);
    vstd::arithmetic::mul::lemma_mul_is_commutative(n, s / n);
    assert((s / n + 1) * n == (s / n) * n + n) by (nonlinear_arith);
    if s % n + 1 < n {
        lemma_fundamental_div_mod_converse(s + 1, n, s / n, s % n + 1);
    } else {
        lemma_fundamental_div_mod_converse(s + 1, n, s / n + 1, 0);
    }
}

/// The claim made at step `s` finds a free slot at a position of the claiming node's
/// permutation below `m`, skipping only occupied slots.
pub proof fn lemma_claim(nodes: Seq<Seq<char>>, m: int, s: nat)
    requires
        is_prime(m),
        nodes.len() > 0,
        s < m,
        fill_invariant(nodes, m, s),
    ensures
        ({
            let prev = fill_state(nodes, m, s);
            let i = s as int % (nodes.len() as int);
            let start = prev.1[i];
            let j = first_free(prev.0, nodes[i], m, start);
            &&& 0 <= i < nodes.len()
            &&& 0 <= start <= j < m
            &&& prev.0[node_slot(nodes[i], m, j)] == usize::MAX
            &&& forall|k: int| start <= k < j ==> prev.0[#[trigger] node_slot(nodes[i], m, k)] != usize::MAX
        }),
{
    let n = nodes.len() as int;
    let prev = fill_state(nodes, m, s);
    let i = s as int % n;
    lemma_mod_bound(s as int, n);
    let node = nodes[i];
    let start = prev.1[i];
    lemma_count_positive(prev.0, usize::MAX);
    let c = choose|c: int| 0 <= c < prev.0.len() && prev.0[c] == usize::MAX;
    lemma_node_perm_params(node, m);
    lemma_perm_surjective(node_offset(node, m), node_skip(node, m), m, c);
    let w = choose|w: int| 0 <= w < m && #[trigger] perm_slot(node_offset(node, m), node_skip(node, m), w, m) == c;
    assert(node_slot(node, m, w) == c);
    if w < start {
        assert(prev.0[node_slot(nodes[i], m, w)] != usize::MAX);
    }
    lemma_first_free(prev.0, node, m, start, w);
}

/// Every claim finds a free slot, and the invariant carries over to the next step.
pub proof fn lemma_fill_invariant(nodes: Seq<Seq<char>>, m: int, steps: nat)
    requires
        is_prime(m),
        nodes.len() > 0,
        nodes.len() <= usize::MAX,
        steps <= m,
    ensures
        fill_invariant(nodes, m, steps),
    decreases steps,
{
    let n = nodes.len() as int;
    if steps == 0 {
        let st = fill_state(nodes, m, 0);
        lemma_count_constant(m as nat, usize::MAX, usize::MAX);
        assert forall|i: int| 0 <= i < n implies #[trigger] count_value(st.0, i as usize) == 0int / n + (if i
            < 0int % n { 1int } else { 0int }) by {
            lemma_count_constant(m as nat, usize::MAX, i as usize);
        }
    } else {
        let s = (steps - 1) as nat;
        lemma_fill_invariant(nodes, m, s);
        let prev = fill_state(nodes, m, s);
        let i = s as int % n;
        lemma_div_mod_step(s as int, n);
        let node = nodes[i];
        let start = prev.1[i];
        lemma_claim(nodes, m, s);
        let j = first_free(prev.0, node, m, start);
        let slot = node_slot(node, m, j);
        lemma_node_slot_range(node, m, j);
        let st = fill_state(nodes, m, steps);
        assert(st.0 == prev.0.update(slot, i as usize));
        assert(st.1 == prev.1.update(i, j + 1));
        lemma_count_update(prev.0, slot, i as usize, usize::MAX);
        assert forall|k: int| 0 <= k < n implies #[trigger] count_value(st.0, k as usize) == steps as int / n + (if k
            < steps as int % n { 1int } else { 0int }) by {
            lemma_count_update(prev.0, slot, i as usize, k as usize);
            assert(count_value(prev.0, k as usize) == s as int / n + (if k < s as int % n { 1int } else { 0int }));
        }
        assert forall|a: int, b: int|
            0 <= a < n && 0 <= b < st.1[a] implies st.0[#[trigger] node_slot(nodes[a], m, b)] != usize::MAX by {
            lemma_node_slot_range(nodes[a], m, b);
            if a == i && b >= start && b < j {
                assert(prev.0[node_slot(node, m, b)] != usize::MAX);
            }
        }
    }
}

// ---------------------------------------------------------------------------
// Public laws of the table

/// For any prime table size `m`, every slot of a non-empty node set's table names a
/// node, and each node owns either `m / n` or `m / n + 1` slots: exactly `m / n + 1` for
/// the first `m % n` nodes.
pub proof fn lemma_maglev_table_balanced(nodes: Seq<Seq<char>>, m: int)
    requires
        0 < nodes.len() <= usize::MAX,
        is_prime(m),
    ensures
        maglev_table(nodes, m).len() == m,
        forall|c: int| 0 <= c < m ==> (#[trigger] maglev_table(nodes, m)[c] as int) < nodes.len(),
        forall|i: int| 0 <= i < nodes.len() ==> #[trigger] count_value(maglev_table(nodes, m), i as usize)
            == m / (nodes.len() as int) + (if i < m % (nodes.len() as int) { 1int } else { 0int }),
{
    lemma_fill_invariant(nodes, m, m as nat);
    let t = fill_state(nodes, m, m as nat).0;
    assert forall|c: int| 0 <= c < m implies (#[trigger] t[c] as int) < nodes.len() by {
        if t[c] == usize::MAX {
            lemma_count_update(t, c, 0, usize::MAX);
            assert(count_value(t, usize::MAX) == 0);
        }
    }
}

// ---------------------------------------------------------------------------
// The hasher

/// Maglev consistent hash table: constant-time lookups, and few keys move when the
/// node set changes. Nodes are identified by their base58 peer id text.
pub struct MaglevHasher {
    /// Lookup table: slot index to node index.
    lookup: Vec<usize>,
    /// Nodes in ascending text order (the order every cluster member agrees on).
    nodes: Vec<String>,
    /// Table size (prime).
    table_size: usize,
}

impl View for MaglevHasher {
    type V = Seq<Seq<char>>;

    /// The nodes, in ascending order.
    closed spec fn view(&self) -> Seq<Seq<char>> {
        texts(self.nodes@)
    }
}

/// The node set of a hasher built from `input`: the same texts, in ascending order.
pub open spec fn arranged_from(view: Seq<Seq<char>>, input: Seq<String>) -> bool {
    &&& vstd::relations::sorted_by(view, text_order())
    &&& view.to_multiset() =~= texts(input).to_multiset()
}

fn slot_of(offset: usize, skip: usize, j: usize, m: usize) -> (c: usize)
    requires
        2 <= m,
        offset < m,
        skip < m,
        j <= m,
    ensures
        c as int == perm_slot(offset as int, skip as int, j as int, m as int),
        c < m,
{
    assert((j as int) * (skip as int) <= (m as int) * (m as int)) by (nonlinear_arith)
        requires
            0 <= j <= m,
            0 <= skip < m,
    ;
    assert((m as int) * (m as int) <= (usize::MAX as int) * (usize::MAX as int)) by (nonlinear_arith)
        requires
            0 <= m <= usize::MAX,
    ;
    assert((usize::MAX as int) * (usize::MAX as int) + (usize::MAX as int) <= u128::MAX) by (nonlinear_arith)
        requires
            usize::MAX <= u64::MAX,
    ;
    let v: u128 = (offset as u128 + (j as u128) * (skip as u128)) % (m as u128);
    v as usize
}

impl MaglevHasher {
    #[verifier::type_invariant]
    spec fn well_formed(&self) -> bool {
        &&& self.table_size == DEFAULT_TABLE_SIZE
        &&& self.lookup@ == maglev_table(texts(self.nodes@), DEFAULT_TABLE_SIZE as int)
        &&& vstd::relations::sorted_by(texts(self.nodes@), text_order())
    }

    /// Creates a hasher over `nodes`, sorted so that every cluster member builds the
    /// same table from the same node set.
    pub fn new(nodes: Vec<String>) -> (r: Self)
        ensures
            arranged_from(r@, nodes@),
    {
        let nodes = sort_texts(nodes);
        let table_size = DEFAULT_TABLE_SIZE;
        proof {
            lemma_65537_is_prime();
        }
        let lookup = Self::build_lookup_table(&nodes, table_size);
        MaglevHasher { lookup, nodes, table_size }
    }

    /// The node owning `key`; `None` when there are no nodes.
    pub fn lookup(&self, key: &str) -> (r: Option<&String>)
        ensures
            match r {
                Some(node) => maglev_owner(self@, DEFAULT_TABLE_SIZE as int, key@) == Some(node@),
                None => maglev_owner(self@, DEFAULT_TABLE_SIZE as int, key@) is None,
            },
    {
        proof {
            use_type_invariant(self);
        }
        if self.nodes.len() == 0 {
            return None;
        }
        let hash = hash_text(key);
        let slot = (hash as usize) % self.table_size;
        proof {
            lemma_65537_is_prime();
            lemma_maglev_table_balanced(self@, DEFAULT_TABLE_SIZE as int);
        }
        let node_idx = self.lookup[slot];
        Some(&self.nodes[node_idx])
    }

    /// Whether `key` is owned by `local_peer`.
    pub fn is_local(&self, key: &str, local_peer: &String) -> (r: bool)
        ensures
            r == (maglev_owner(self@, DEFAULT_TABLE_SIZE as int, key@) == Some(local_peer@)),
    {
        match self.lookup(key) {
            Some(owner) => *owner == *local_peer,
            None => false,
        }
    }

    /// Replaces the node set, as `new` would build it.
    pub fn rebuild(&mut self, nodes: Vec<String>)
        ensures
            arranged_from(final(self)@, nodes@),
    {
        let nodes = sort_texts(nodes);
        proof {
            lemma_65537_is_prime();
        }
        let lookup = Self::build_lookup_table(&nodes, DEFAULT_TABLE_SIZE);
        *self = MaglevHasher { lookup, nodes, table_size: DEFAULT_TABLE_SIZE };
    }

    /// Number of nodes.
    pub fn node_count(&self) -> (r: usize)
        ensures
            r == self@.len(),
    {
        self.nodes.len()
    }

    /// The nodes, in ascending order.
    pub fn nodes(&self) -> (r: &Vec<String>)
        ensures
            texts(r@) == self@,
    {
        &self.nodes
    }

    /// Builds the lookup table: each node walks its permutation `(offset + j * skip) % m`
    /// and, in round-robin turns, claims the first slot it finds free.
    fn build_lookup_table(nodes: &Vec<String>, table_size: usize) -> (lookup: Vec<usize>)
        requires
            is_prime(table_size as int),
        ensures
            lookup@ == maglev_table(texts(nodes@), table_size as int),
    {
        let ghost ts = texts(nodes@);
        let ghost m = table_size as int;
        if nodes.len() == 0 {
            let mut zeros: Vec<usize> = Vec::new();
            while zeros.len() < table_size
                invariant
                    zeros.len() <= table_size,
                    forall|c: int| 0 <= c < zeros.len() ==> zeros@[c] == 0,
                decreases table_size - zeros.len(),
            {
                zeros.push(0);
            }
            assert(zeros@ =~= Seq::new(m as nat, |c: int| 0usize));
            return zeros;
        }
        let n = nodes.len();
        // offset = h1(node) mod M, skip = h2(node) mod (M - 1) + 1
        let mut permutations: Vec<(usize, usize)> = Vec::new();
        let mut idx: usize = 0;
        while idx < n
            invariant
                n == nodes.len(),
                ts == texts(nodes@),
                m == table_size,
                2 <= table_size,
                idx <= n,
                permutations.len() == idx,
                forall|k: int| 0 <= k < idx ==> (#[trigger] permutations@[k]).0 == node_offset(ts[k], m)
                    && permutations@[k].1 == node_skip(ts[k], m),
            decreases n - idx,
        {
            let node_str = &nodes[idx];
            let h1 = hash_text(node_str.as_str()) as usize;
            let skip_key = node_str.clone().concat(":skip");
            let h2 = hash_text(skip_key.as_str()) as usize;
            let offset = h1 % table_size;
            let skip = (h2 % (table_size - 1)) + 1;
            permutations.push((offset, skip));
            idx = idx + 1;
        }
        let mut lookup: Vec<usize> = Vec::new();
        while lookup.len() < table_size
            invariant
                lookup.len() <= table_size,
                forall|c: int| 0 <= c < lookup.len() ==> lookup@[c] == usize::MAX,
            decreases table_size - lookup.len(),
        {
            lookup.push(usize::MAX);
        }
        let mut next: Vec<usize> = Vec::new();
        while next.len() < n
            invariant
                next.len() <= n,
                forall|i: int| 0 <= i < next.len() ==> next@[i] == 0,
            decreases n - next.len(),
        {
            next.push(0);
        }
        let mut filled: usize = 0;
        assert(lookup@ =~= fill_state(ts, m, 0).0);
        proof {
            lemma_fill_invariant(ts, m, 0);
        }
        while filled < table_size
            invariant
                n == nodes.len(),
                n > 0,
                ts == texts(nodes@),
                m == table_size,
                is_prime(m),
                filled <= table_size,
                (filled as int) % (n as int) == 0 || filled == table_size,
                permutations.len() == n,
                forall|k: int| 0 <= k < n ==> (#[trigger] permutations@[k]).0 == node_offset(ts[k], m)
                    && permutations@[k].1 == node_skip(ts[k], m),
                next.len() == n,
                lookup@ == fill_state(ts, m, filled as nat).0,
                forall|i: int| 0 <= i < n ==> next@[i] as int == #[trigger] fill_state(ts, m, filled as nat).1[i],
            decreases table_size - filled,
        {
            let ghost base = filled as int;
            let mut i: usize = 0;
            // Round-robin through nodes, each claiming its next available slot.
            while i < n && filled < table_size
                invariant
                    n == nodes.len(),
                    n > 0,
                    ts == texts(nodes@),
                    m == table_size,
                    is_prime(m),
                        filled <= table_size,
                    i <= n,
                    base % (n as int) == 0,
                    filled as int == base + i,
                    permutations.len() == n,
                    forall|k: int| 0 <= k < n ==> (#[trigger] permutations@[k]).0 == node_offset(ts[k], m)
                        && permutations@[k].1 == node_skip(ts[k], m),
                    next.len() == n,
                    lookup@ == fill_state(ts, m, filled as nat).0,
                    forall|k: int| 0 <= k < n ==> next@[k] as int == #[trigger] fill_state(ts, m, filled as nat).1[k],
                decreases n - i,
            {
                let ghost st = fill_state(ts, m, filled as nat);
                proof {
                    lemma_fill_invariant(ts, m, filled as nat);
                    lemma_claim(ts, m, filled as nat);
                    lemma_fundamental_div_mod(base, n as int);
                    vstd::arithmetic::mul::lemma_mul_is_commutative(n as int, base / (n as int));
                    lemma_fundamental_div_mod_converse(filled as int, n as int, base / (n as int), i as int);
                    lemma_node_perm_params(ts[i as int], m);
                }
                let ghost ff = first_free(st.0, ts[i as int], m, st.1[i as int]);
                let (offset, skip) = permutations[i];
                // Find the next unclaimed slot for this node.
                let mut c = slot_of(offset, skip, next[i], table_size);
                while lookup[c] != usize::MAX
                    invariant
                        ts == texts(nodes@),
                        m == table_size,
                        2 <= table_size,
                        i < n,
                        next.len() == n,
                        lookup.len() == table_size,
                        lookup@ == st.0,
                        offset as int == node_offset(ts[i as int], m),
                        skip as int == node_skip(ts[i as int], m),
                        0 <= offset < m,
                        1 <= skip < m,
                        forall|k: int| 0 <= k < n && k != i ==> next@[k] as int == st.1[k],
                        st.1[i as int] <= next@[i as int] <= ff < m,
                        first_free(st.0, ts[i as int], m, next@[i as int] as int) == ff,
                        c as int == node_slot(ts[i as int], m, next@[i as int] as int),
                        c < table_size,
                        st.0[node_slot(ts[i as int], m, ff)] == usize::MAX,
                    decreases m - next@[i as int],
                {
                    let nx = next[i] + 1;
                    next.set(i, nx);
                    c = slot_of(offset, skip, nx, table_size);
                }
                // Claim this slot.
                lookup.set(c, i);
                let nx = next[i] + 1;
                next.set(i, nx);
                filled = filled + 1;
                i = i + 1;
                proof {
                    let st2 = fill_state(ts, m, filled as nat);
                    assert(st2.0 == st.0.update(node_slot(ts[(i - 1) as int], m, ff), (i - 1) as usize));
                    assert(lookup@ =~= st2.0);
                    assert forall|k: int| 0 <= k < n implies next@[k] as int == #[trigger] st2.1[k] by {
                    }
                }
            }
            proof {
                if filled < table_size {
                    assert(i == n);
                    lemma_fundamental_div_mod(base, n as int);
                    let q = base / (n as int);
                    assert((q + 1) * (n as int) == (n as int) * q + (n as int)) by (nonlinear_arith);
                    lemma_fundamental_div_mod_converse(filled as int, n as int, q + 1, 0);
                }
            }
        }
        lookup
    }
}

// ---------------------------------------------------------------------------
// Laws of the hasher

/// Building from the same nodes in any order gives the same hasher: two hashers built
/// from inputs with the same multiset of texts have equal node sequences, hence equal
/// tables and the same owner for every key.
pub proof fn lemma_maglev_order_independent(va: Seq<Seq<char>>, a: Seq<String>, vb: Seq<Seq<char>>, b: Seq<String>)
    requires
        arranged_from(va, a),
        arranged_from(vb, b),
        texts(a).to_multiset() =~= texts(b).to_multiset(),
    ensures
        va == vb,
        forall|key: Seq<char>| #[trigger] maglev_owner(va, DEFAULT_TABLE_SIZE as int, key)
            == maglev_owner(vb, DEFAULT_TABLE_SIZE as int, key),
{
    crate::text::lemma_text_le_total_ordering();
    vstd::seq_lib::lemma_sorted_unique(va, vb, text_order());
}

/// A hasher with a single node gives every key to that node.
pub proof fn lemma_maglev_single_node_owns_all(view: Seq<Seq<char>>, key: Seq<char>)
    requires
        view.len() == 1,
    ensures
        maglev_owner(view, DEFAULT_TABLE_SIZE as int, key) == Some(view[0]),
{
    lemma_65537_is_prime();
    lemma_maglev_table_balanced(view, DEFAULT_TABLE_SIZE as int);
    let c = key_slot(key, DEFAULT_TABLE_SIZE as int);
    lemma_mod_bound((default_hash_of_text(key) as usize) as int, DEFAULT_TABLE_SIZE as int);
    assert((maglev_table(view, DEFAULT_TABLE_SIZE as int)[c] as int) < 1);
}

/// Every key of a non-empty hasher has an owner, and the owner is one of its nodes;
/// an empty hasher owns nothing.
pub proof fn lemma_maglev_owner_is_member(view: Seq<Seq<char>>, key: Seq<char>)
    requires
        view.len() <= usize::MAX,
    ensures
        view.len() == 0 <==> maglev_owner(view, DEFAULT_TABLE_SIZE as int, key) is None,
        view.len() > 0 ==> view.contains(maglev_owner(view, DEFAULT_TABLE_SIZE as int, key)->0),
{
    if view.len() > 0 {
        lemma_65537_is_prime();
    lemma_maglev_table_balanced(view, DEFAULT_TABLE_SIZE as int);
        let c = key_slot(key, DEFAULT_TABLE_SIZE as int);
        lemma_mod_bound((default_hash_of_text(key) as usize) as int, DEFAULT_TABLE_SIZE as int);
        let idx = maglev_table(view, DEFAULT_TABLE_SIZE as int)[c] as int;
        assert(0 <= idx < view.len());
        assert(view[idx] == maglev_owner(view, DEFAULT_TABLE_SIZE as int, key)->0);
    }
}

} // verus!
