use vstd::prelude::*;

verus! {

/// The number that `bytes` spell in big-endian order.
pub open spec fn be_value(bytes: Seq<u8>) -> nat
    decreases bytes.len(),
{
    if bytes.len() == 0 {
        0
    } else {
        be_value(bytes.drop_last()) * 256 + bytes.last() as nat
    }
}

pub open spec fn pow256(k: nat) -> nat
    decreases k,
{
    if k == 0 {
        1
    } else {
        256 * pow256((k - 1) as nat)
    }
}

proof fn lemma_be_value_prepend(b: u8, low: Seq<u8>)
    ensures
        be_value(seq![b] + low) == b * pow256(low.len()) + be_value(low),
    decreases low.len(),
{
    let s = seq![b] + low;
    if low.len() == 0 {
        assert(s.drop_last() =~= Seq::<u8>::empty());
        assert(be_value(s) == be_value(s.drop_last()) * 256 + s.last() as nat);
        assert(pow256(0) == 1);
    } else {
        let rest = low.drop_last();
        assert(s.drop_last() =~= seq![b] + rest);
        assert(s.last() == low.last());
        lemma_be_value_prepend(b, rest);
        let p = pow256(rest.len());
        assert(pow256(low.len()) == 256 * p);
        let (x, y, bb): (int, int, int) = (be_value(rest) as int, be_value(low) as int, b as int);
        assert(be_value(s) == be_value(s.drop_last()) * 256 + s.last() as nat);
        assert(y == x * 256 + low.last() as int);
        assert((bb * p + x) * 256 + low.last() == bb * (256 * p) + (x * 256 + low.last()))
            by (nonlinear_arith);
    }
}

/// The eight big-endian bytes of `sequence`: the identity part of the key of
/// an outbound entry.
pub fn sequence_seed(sequence: u64) -> (r: Vec<u8>)
    ensures
        r@.len() == 8,
        be_value(r@) == sequence,
{
    let mut low: Vec<u8> = Vec::new();
    let mut v: u64 = sequence;
    let mut k: usize = 0;
    assert(pow256(0) == 1);
    assert(sequence == v * pow256(0) + be_value(low@));
    while k < 8
        invariant
            k <= 8,
            low@.len() == k,
            sequence == v * pow256(k as nat) + be_value(low@),
        decreases 8 - k,
    {
        let b: u8 = (v % 256) as u8;
        let ghost old_low = low@;
        proof {
            lemma_be_value_prepend(b, old_low);
            let p = pow256(k as nat);
            let (vi, q, bi): (int, int, int) = (v as int, (v / 256) as int, b as int);
            assert(vi * p == q * (256 * p) + bi * p) by (nonlinear_arith)
                requires
                    vi == q * 256 + bi,
            ;
        }
        low.insert(0, b);
        assert(low@ =~= seq![b] + old_low);
        v = v / 256;
        k = k + 1;
    }
    proof {
        reveal_with_fuel(pow256, 9);
        assert(v == 0) by (nonlinear_arith)
            requires
                sequence == v * pow256(8) + be_value(low@),
                pow256(8) == 0x1_0000_0000_0000_0000int,
                sequence <= u64::MAX,
        ;
    }
    low
}

/// The storage key of a record: its fixed prefix followed by its identity.
pub fn storage_key(prefix: &[u8], identity: &[u8]) -> (r: Vec<u8>)
    ensures
        r@ == prefix@ + identity@,
{
    let mut key: Vec<u8> = Vec::new();
    let mut i: usize = 0;
    while i < prefix.len()
        invariant
            i <= prefix@.len(),
            key@ == prefix@.subrange(0, i as int),
        decreases prefix@.len() - i,
    {
        key.push(prefix[i]);
        i = i + 1;
        assert(key@ =~= prefix@.subrange(0, i as int));
    }
    let mut j: usize = 0;
    while j < identity.len()
        invariant
            j <= identity@.len(),
            key@ == prefix@ + identity@.subrange(0, j as int),
        decreases identity@.len() - j,
    {
        key.push(identity[j]);
        j = j + 1;
        assert(key@ =~= prefix@ + identity@.subrange(0, j as int));
    }
    assert(identity@.subrange(0, identity@.len() as int) =~= identity@);
    key
}

} // verus!
