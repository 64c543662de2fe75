use vstd::prelude::*;
use vstd::string::StrSliceExecFns;

verus! {

/// The characters of a string, in order.
pub fn chars_of(s: &str) -> (v: Vec<char>)
    ensures
        v@ == s@,
{
    broadcast use vstd::string::group_string_axioms;
    let mut v: Vec<char> = Vec::new();
    for c in it: s.chars()
        invariant
            v@ == it.seq().take(it.index() as int),
    {
        v.push(c);
    }
    assert(v@ =~= s@);
    v
}

} // verus!

verus! {

/// Lexicographic order on texts, character by character (code-point order, which is the
/// order `str` comparison gives).
pub open spec fn text_le(a: Seq<char>, b: Seq<char>) -> bool
    decreases a.len(),
{
    if a.len() == 0 {
        true
    } else if b.len() == 0 {
        false
    } else if a[0] != b[0] {
        (a[0] as int) < (b[0] as int)
    } else {
        text_le(a.drop_first(), b.drop_first())
    }
}

pub proof fn lemma_text_le_reflexive(a: Seq<char>)
    ensures
        text_le(a, a),
    decreases a.len(),
{
    if a.len() > 0 {
        lemma_text_le_reflexive(a.drop_first());
    }
}

pub proof fn lemma_text_le_antisymmetric(a: Seq<char>, b: Seq<char>)
    requires
        text_le(a, b),
        text_le(b, a),
    ensures
        a == b,
    decreases a.len(),
{
    if a.len() == 0 {
        assert(b.len() == 0);
        assert(a =~= b);
    } else {
        assert(b.len() > 0);
        assert(a[0] == b[0]);
        lemma_text_le_antisymmetric(a.drop_first(), b.drop_first());
        assert(a =~= seq![a[0]] + a.drop_first());
        assert(b =~= seq![b[0]] + b.drop_first());
    }
}

pub proof fn lemma_text_le_transitive(a: Seq<char>, b: Seq<char>, c: Seq<char>)
    requires
        text_le(a, b),
        text_le(b, c),
    ensures
        text_le(a, c),
    decreases a.len(),
{
    if a.len() > 0 {
        assert(b.len() > 0);
        assert(c.len() > 0);
        if a[0] == b[0] && b[0] == c[0] {
            lemma_text_le_transitive(a.drop_first(), b.drop_first(), c.drop_first());
        }
    }
}

pub proof fn lemma_text_le_total(a: Seq<char>, b: Seq<char>)
    ensures
        text_le(a, b) || text_le(b, a),
    decreases a.len(),
{
    if a.len() > 0 && b.len() > 0 && a[0] == b[0] {
        lemma_text_le_total(a.drop_first(), b.drop_first());
    }
}

/// `text_le` is a total order.
pub proof fn lemma_text_le_total_ordering()
    ensures
        vstd::relations::total_ordering(|a: Seq<char>, b: Seq<char>| text_le(a, b)),
{
    let r = |a: Seq<char>, b: Seq<char>| text_le(a, b);
    assert forall|a: Seq<char>| #[trigger] r(a, a) by {
        lemma_text_le_reflexive(a);
    }
    assert forall|a: Seq<char>, b: Seq<char>| #[trigger] r(a, b) && #[trigger] r(b, a) implies a == b by {
        lemma_text_le_antisymmetric(a, b);
    }
    assert forall|a: Seq<char>, b: Seq<char>, c: Seq<char>|
        #[trigger] r(a, b) && #[trigger] r(b, c) implies r(a, c) by {
        lemma_text_le_transitive(a, b, c);
    }
    assert forall|a: Seq<char>, b: Seq<char>| #[trigger] r(a, b) || #[trigger] r(b, a) by {
        lemma_text_le_total(a, b);
    }
}

/// Compares two texts held as character vectors.
pub fn chars_le(a: &Vec<char>, b: &Vec<char>) -> (r: bool)
    ensures
        r == text_le(a@, b@),
{
    let mut i: usize = 0;
    assert(a@.skip(0) =~= a@);
    assert(b@.skip(0) =~= b@);
    while i < a.len() && i < b.len() && a[i] == b[i]
        invariant
            i <= a.len(),
            i <= b.len(),
            text_le(a@, b@) == text_le(a@.skip(i as int), b@.skip(i as int)),
        decreases a.len() - i,
    {
        assert(a@.skip(i as int).drop_first() =~= a@.skip(i + 1));
        assert(b@.skip(i as int).drop_first() =~= b@.skip(i + 1));
        i = i + 1;
    }
    if i == a.len() {
        true
    } else if i == b.len() {
        false
    } else {
        a[i] < b[i]
    }
}

} // verus!

verus! {

/// The views of a sequence of strings.
pub open spec fn texts(v: Seq<String>) -> Seq<Seq<char>> {
    v.map_values(|s: String| s@)
}

/// `text_le` as a relation value.
pub open spec fn text_order() -> spec_fn(Seq<char>, Seq<char>) -> bool {
    |a: Seq<char>, b: Seq<char>| text_le(a, b)
}

proof fn lemma_multiset_insert<A>(s: Seq<A>, p: int, x: A)
    requires
        0 <= p <= s.len(),
    ensures
        s.insert(p, x).to_multiset() =~= s.to_multiset().insert(x),
{
    broadcast use vstd::seq_lib::group_to_multiset_ensures;
    broadcast use vstd::multiset::group_multiset_axioms;
    let t = s.insert(p, x);
    assert(t.remove(p) =~= s);
    vstd::seq_lib::to_multiset_remove(t, p);
    assert(t[p] == x);
    assert(t.contains(x));
    assert(t.to_multiset().count(x) > 0);
    assert(s.to_multiset() =~= t.to_multiset().remove(x));
}

/// Sorts strings by `text_le`; equal strings keep their relative order.
pub fn sort_texts(nodes: Vec<String>) -> (r: Vec<String>)
    ensures
        vstd::relations::sorted_by(texts(r@), text_order()),
        texts(r@).to_multiset() =~= texts(nodes@).to_multiset(),
        r.len() == nodes.len(),
{
    broadcast use vstd::seq_lib::group_to_multiset_ensures;
    proof {
        lemma_text_le_total_ordering();
    }
    let mut out: Vec<String> = Vec::new();
    let mut keys: Vec<Vec<char>> = Vec::new();
    let mut k: usize = 0;
    while k < nodes.len()
        invariant
            k <= nodes.len(),
            out.len() == keys.len(),
            out.len() == k,
            forall|t: int| 0 <= t < keys.len() ==> #[trigger] keys@[t]@ == out@[t]@,
            vstd::relations::sorted_by(texts(out@), text_order()),
            vstd::relations::total_ordering(text_order()),
            texts(out@).to_multiset() =~= texts(nodes@.take(k as int)).to_multiset(),
        decreases nodes.len() - k,
    {
        let key = chars_of(nodes[k].as_str());
        let mut p: usize = 0;
        while p < keys.len() && chars_le(&keys[p], &key)
            invariant
                p <= keys.len(),
                forall|t: int| 0 <= t < p ==> text_le(#[trigger] keys@[t]@, key@),
            decreases keys.len() - p,
        {
            p = p + 1;
        }
        let ghost old_out = out@;
        proof {
            assert forall|t: int| 0 <= t < p implies text_le(#[trigger] old_out[t]@, key@) by {
                assert(keys@[t]@ == out@[t]@);
            }
            if p < keys.len() {
                assert(!text_le(keys@[p as int]@, key@));
                lemma_text_le_total(keys@[p as int]@, key@);
            }
            assert forall|t: int| p <= t < old_out.len() implies text_le(key@, #[trigger] old_out[t]@) by {
                assert(texts(old_out)[p as int] == old_out[p as int]@);
                assert(texts(old_out)[t] == old_out[t]@);
                if t > p {
                    assert(text_order()(texts(old_out)[p as int], texts(old_out)[t]));
                    lemma_text_le_transitive(key@, old_out[p as int]@, old_out[t]@);
                } else {
                    lemma_text_le_reflexive(key@);
                }
            }
        }
        let s = nodes[k].clone();
        out.insert(p, s);
        keys.insert(p, key);
        proof {
            let x = nodes@[k as int]@;
            assert(texts(out@) =~= texts(old_out).insert(p as int, x));
            lemma_multiset_insert(texts(old_out), p as int, x);
            assert(texts(out@).to_multiset() =~= texts(old_out).to_multiset().insert(x));
            vstd::seq_lib::to_multiset_build(texts(nodes@.take(k as int)), x);
            assert(nodes@.take(k + 1) =~= nodes@.take(k as int).push(nodes@[k as int]));
            assert(texts(nodes@.take(k + 1)) =~= texts(nodes@.take(k as int)).push(x));
            assert forall|a: int, b: int| 0 <= a < b < out.len() implies #[trigger] text_order()(
                texts(out@)[a],
                texts(out@)[b],
            ) by {
                let ts = texts(out@);
                let to = texts(old_out);
                if b < p {
                    assert(ts[a] == to[a] && ts[b] == to[b]);
                    assert(text_order()(to[a], to[b]));
                } else if b == p {
                    assert(ts[a] == to[a]);
                    assert(ts[a] == old_out[a]@);
                } else if a < p {
                    assert(ts[a] == to[a] && ts[b] == to[b - 1]);
                    assert(text_le(old_out[a]@, key@));
                    assert(text_le(key@, old_out[b - 1]@));
                    lemma_text_le_transitive(old_out[a]@, key@, old_out[b - 1]@);
                } else if a == p {
                    assert(ts[b] == to[b - 1]);
                    assert(ts[b] == old_out[b - 1]@);
                } else {
                    assert(ts[a] == to[a - 1] && ts[b] == to[b - 1]);
                    assert(text_order()(to[a - 1], to[b - 1]));
                }
            }
        }
        k = k + 1;
    }
    assert(nodes@.take(nodes.len() as int) =~= nodes@);
    out
}

} // verus!

verus! {

/// `s` without the leading `prefix`, when `s` starts with it.
pub fn strip_prefix(s: &str, prefix: &str) -> (r: Option<String>)
    ensures
        match r {
            Some(rest) => prefix@.is_prefix_of(s@) && rest@ == s@.skip(prefix@.len() as int),
            None => !prefix@.is_prefix_of(s@),
        },
{
    let sv = chars_of(s);
    let pv = chars_of(prefix);
    if pv.len() > sv.len() {
        return None;
    }
    let mut i: usize = 0;
    while i < pv.len()
        invariant
            pv@ == prefix@,
            sv@ == s@,
            pv.len() <= sv.len(),
            i <= pv.len(),
            forall|k: int| 0 <= k < i ==> pv@[k] == sv@[k],
        decreases pv.len() - i,
    {
        if pv[i] != sv[i] {
            assert(!prefix@.is_prefix_of(s@)) by {
                if prefix@.is_prefix_of(s@) {
                    assert(s@.subrange(0, prefix@.len() as int)[i as int] == sv@[i as int]);
                }
            }
            return None;
        }
        i = i + 1;
    }
    assert(prefix@ =~= s@.subrange(0, prefix@.len() as int));
    let rest = s.substring_char(pv.len(), sv.len());
    assert(rest@ =~= s@.skip(prefix@.len() as int));
    Some(rest.to_string())
}

} // verus!

verus! {

/// Whether two texts are equal.
pub fn text_eq(a: &str, b: &str) -> (r: bool)
    ensures
        r == (a@ == b@),
{
    let av = chars_of(a);
    let bv = chars_of(b);
    if av.len() != bv.len() {
        return false;
    }
    let mut i: usize = 0;
    while i < av.len()
        invariant
            av@ == a@,
            bv@ == b@,
            av.len() == bv.len(),
            i <= av.len(),
            forall|k: int| 0 <= k < i ==> av@[k] == bv@[k],
        decreases av.len() - i,
    {
        if av[i] != bv[i] {
            return false;
        }
        i = i + 1;
    }
    assert(a@ =~= b@);
    true
}

/// The decimal digit character of `d < 10`.
pub open spec fn digit_char(d: nat) -> char {
    ((48 + d) as u32) as char
}

/// Decimal text of `n`, without leading zeros.
pub open spec fn decimal_text(n: nat) -> Seq<char>
    decreases n,
{
    if n < 10 {
        seq![digit_char(n)]
    } else {
        decimal_text(n / 10).push(digit_char(n % 10))
    }
}

fn digit_text(d: u64) -> (r: &'static str)
    requires
        d < 10,
    ensures
        r@ == seq![digit_char(d as nat)],
{
    proof {
        reveal_strlit("0");
        reveal_strlit("1");
        reveal_strlit("2");
        reveal_strlit("3");
        reveal_strlit("4");
        reveal_strlit("5");
        reveal_strlit("6");
        reveal_strlit("7");
        reveal_strlit("8");
        reveal_strlit("9");
    }
    let r = match d {
        0 => "0",
        1 => "1",
        2 => "2",
        3 => "3",
        4 => "4",
        5 => "5",
        6 => "6",
        7 => "7",
        8 => "8",
        _ => "9",
    };
    assert(r@ =~= seq![digit_char(d as nat)]);
    r
}

/// Decimal text of `n`, as `n.to_string()` writes it.
pub fn decimal(n: u64) -> (r: String)
    ensures
        r@ == decimal_text(n as nat),
    decreases n,
{
    if n < 10 {
        String::from_str(digit_text(n))
    } else {
        let high = decimal(n / 10);
        high.concat(digit_text(n % 10))
    }
}

} // verus!

verus! {

/// Every character of `s` is a decimal digit, and there is at least one.
pub open spec fn all_digits(s: Seq<char>) -> bool {
    s.len() > 0 && forall|i: int| 0 <= i < s.len() ==> '0' <= #[trigger] s[i] <= '9'
}

/// The number the decimal digits `s` spell.
pub open spec fn digits_value(s: Seq<char>) -> nat
    decreases s.len(),
{
    if s.len() == 0 {
        0
    } else {
        digits_value(s.drop_last()) * 10 + ((s.last() as int - 48) as nat)
    }
}

/// What `u16::from_str` reads from `s`: an optional `+` and then decimal digits whose
/// value fits in 16 bits.
pub open spec fn parsed_u16(s: Seq<char>) -> Option<u16> {
    let d = if s.len() > 0 && s[0] == '+' { s.drop_first() } else { s };
    if all_digits(d) && digits_value(d) <= 65535 {
        Some(digits_value(d) as u16)
    } else {
        None
    }
}

/// Reads a `u16` in decimal, as `str::parse::<u16>` does.
pub fn parse_u16(s: &str) -> (r: Option<u16>)
    ensures
        r == parsed_u16(s@),
{
    let v = chars_of(s);
    let start: usize = if v.len() > 0 && v[0] == '+' { 1 } else { 0 };
    let ghost d = if s@.len() > 0 && s@[0] == '+' { s@.drop_first() } else { s@ };
    assert(d =~= v@.skip(start as int));
    if start >= v.len() {
        return None;
    }
    let mut acc: u64 = 0;
    let mut i: usize = start;
    while i < v.len()
        invariant
            v@ == s@,
            start <= i <= v.len(),
            d == (if s@.len() > 0 && s@[0] == '+' { s@.drop_first() } else { s@ }),
            d =~= v@.skip(start as int),
            forall|k: int| start <= k < i ==> '0' <= #[trigger] v@[k] <= '9',
            acc as int == if digits_value(v@.subrange(start as int, i as int)) > 65535 { 65536 } else {
                digits_value(v@.subrange(start as int, i as int)) as int
            },
        decreases v.len() - i,
    {
        let c = v[i];
        if c < '0' || c > '9' {
            assert(d[i - start] == c);
            assert(!('0' <= d[i - start] <= '9'));
            assert(!all_digits(d));
            return None;
        }
        let ghost prefix = v@.subrange(start as int, i as int);
        assert(v@.subrange(start as int, i + 1).drop_last() =~= prefix);
        let digit = (c as u64) - 48;
        if acc > 65535 {
            acc = 65536;
        } else {
            acc = acc * 10 + digit;
            if acc > 65535 {
                acc = 65536;
            }
        }
        i = i + 1;
    }
    assert(v@.subrange(start as int, v.len() as int) =~= d);
    if acc > 65535 {
        None
    } else {
        Some(acc as u16)
    }
}

/// The fields of `fields`, each followed by a comma.
pub open spec fn comma_terminated(fields: Seq<Seq<char>>) -> Seq<char>
    decreases fields.len(),
{
    if fields.len() == 0 {
        Seq::empty()
    } else {
        comma_terminated(fields.drop_last()) + fields.last() + seq![',']
    }
}

/// The fields joined with commas.
pub open spec fn comma_joined(fields: Seq<Seq<char>>) -> Seq<char> {
    if fields.len() == 0 {
        Seq::empty()
    } else {
        comma_terminated(fields.drop_last()) + fields.last()
    }
}

/// Splits `s` at every comma, as `str::split(',')` does: the fields hold no comma and,
/// joined with commas, give `s` back.
pub fn split_commas(s: &str) -> (r: Vec<String>)
    ensures
        r.len() >= 1,
        forall|i: int| 0 <= i < r.len() ==> !(#[trigger] r@[i]@).contains(','),
        comma_joined(texts(r@)) == s@,
{
    let v = chars_of(s);
    let mut out: Vec<String> = Vec::new();
    let mut start: usize = 0;
    let mut i: usize = 0;
    while i < v.len()
        invariant
            v@ == s@,
            start <= i <= v.len(),
            comma_terminated(texts(out@)) == s@.take(start as int),
            forall|k: int| 0 <= k < out.len() ==> !(#[trigger] out@[k]@).contains(','),
            forall|k: int| start <= k < i ==> v@[k] != ',',
        decreases v.len() - i,
    {
        if v[i] == ',' {
            let field = s.substring_char(start, i);
            let ghost before = out@;
            out.push(field.to_string());
            proof {
                assert(texts(out@).drop_last() =~= texts(before));
                assert(texts(out@).last() == s@.subrange(start as int, i as int));
                assert(s@.take(i + 1) =~= s@.take(start as int) + s@.subrange(start as int, i as int) + seq![',']);
                assert forall|k: int| 0 <= k < out.len() implies !(#[trigger] out@[k]@).contains(',') by {
                    if k == out.len() - 1 {
                        if out@[k]@.contains(',') {
                            let j = choose|j: int| 0 <= j < out@[k]@.len() && out@[k]@[j] == ',';
                            assert(v@[start + j] == ',');
                        }
                    }
                }
            }
            start = i + 1;
        }
        i = i + 1;
    }
    let last = s.substring_char(start, v.len());
    let ghost before = out@;
    out.push(last.to_string());
    proof {
        assert(texts(out@).drop_last() =~= texts(before));
        assert(s@ =~= s@.take(start as int) + s@.subrange(start as int, v.len() as int));
        assert forall|k: int| 0 <= k < out.len() implies !(#[trigger] out@[k]@).contains(',') by {
            if k == out.len() - 1 {
                if out@[k]@.contains(',') {
                    let j = choose|j: int| 0 <= j < out@[k]@.len() && out@[k]@[j] == ',';
                    assert(v@[start + j] == ',');
                }
            }
        }
    }
    out
}

} // verus!
