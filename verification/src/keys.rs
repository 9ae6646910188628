//! The order of storage keys: texts compared by their UTF-8 bytes, as a
//! storage map walks its keys.
use vstd::prelude::*;
use vstd::utf8::{encode_utf8, encode_utf8_decode_utf8};

verus! {

/// The bytes `x` come strictly before `y`: at the first place where they
/// differ the byte of `x` is lower, or `x` is a proper prefix of `y`.
pub open spec fn bytes_before(x: Seq<u8>, y: Seq<u8>) -> bool
    decreases x.len(),
{
    if x.len() == 0 {
        y.len() > 0
    } else if y.len() == 0 {
        false
    } else if x[0] != y[0] {
        x[0] < y[0]
    } else {
        bytes_before(x.drop_first(), y.drop_first())
    }
}

/// The text `a` comes strictly before `b`, comparing their UTF-8 bytes.
pub open spec fn key_before(a: Seq<char>, b: Seq<char>) -> bool {
    bytes_before(encode_utf8(a), encode_utf8(b))
}

/// No byte string comes before itself.
pub proof fn lemma_bytes_before_irreflexive(x: Seq<u8>)
    ensures
        !bytes_before(x, x),
    decreases x.len(),
{
    if x.len() > 0 {
        lemma_bytes_before_irreflexive(x.drop_first());
    }
}

/// Of two different byte strings, one comes before the other.
pub proof fn lemma_bytes_before_total(x: Seq<u8>, y: Seq<u8>)
    requires
        x != y,
    ensures
        bytes_before(x, y) || bytes_before(y, x),
    decreases x.len(),
{
    if x.len() == 0 {
        if y.len() == 0 {
            assert(x =~= y);
        }
    } else if y.len() > 0 && x[0] == y[0] {
        if x.drop_first() == y.drop_first() {
            assert(x =~= y) by {
                assert(x.drop_first().len() == y.drop_first().len());
                assert(x.len() == y.len());
                assert forall|i: int| 0 <= i < x.len() implies x[i] == y[i] by {
                    if i > 0 {
                        assert(x[i] == x.drop_first()[i - 1]);
                        assert(y[i] == y.drop_first()[i - 1]);
                    }
                }
            }
        }
        lemma_bytes_before_total(x.drop_first(), y.drop_first());
    }
}

/// Coming before is transitive.
pub proof fn lemma_bytes_before_transitive(x: Seq<u8>, y: Seq<u8>, z: Seq<u8>)
    requires
        bytes_before(x, y),
        bytes_before(y, z),
    ensures
        bytes_before(x, z),
    decreases x.len(),
{
    if x.len() > 0 && x[0] == y[0] && y[0] == z[0] {
        lemma_bytes_before_transitive(x.drop_first(), y.drop_first(), z.drop_first());
    }
}

/// No key comes before itself.
pub proof fn lemma_key_irreflexive(a: Seq<char>)
    ensures
        !key_before(a, a),
{
    lemma_bytes_before_irreflexive(encode_utf8(a));
}

/// Of two different keys, one comes before the other.
pub proof fn lemma_key_total(a: Seq<char>, b: Seq<char>)
    requires
        a != b,
    ensures
        key_before(a, b) || key_before(b, a),
{
    encode_utf8_decode_utf8(a);
    encode_utf8_decode_utf8(b);
    lemma_bytes_before_total(encode_utf8(a), encode_utf8(b));
}

/// Keys are ordered transitively.
pub proof fn lemma_key_transitive(a: Seq<char>, b: Seq<char>, c: Seq<char>)
    requires
        key_before(a, b),
        key_before(b, c),
    ensures
        key_before(a, c),
{
    lemma_bytes_before_transitive(encode_utf8(a), encode_utf8(b), encode_utf8(c));
}

/// Whether the key `a` comes strictly before `b`.
pub fn key_comes_before(a: &str, b: &str) -> (r: bool)
    ensures
        r == key_before(a@, b@),
{
    let x = a.as_bytes();
    let y = b.as_bytes();
    let mut i: usize = 0;
    assert(x@.skip(0) =~= x@);
    assert(y@.skip(0) =~= y@);
    while i < x.len() && i < y.len()
        invariant
            i <= x@.len(),
            i <= y@.len(),
            x@ == encode_utf8(a@),
            y@ == encode_utf8(b@),
            bytes_before(x@, y@) == bytes_before(x@.skip(i as int), y@.skip(i as int)),
        decreases x@.len() - i,
    {
        assert(x@.skip(i as int)[0] == x@[i as int]);
        assert(y@.skip(i as int)[0] == y@[i as int]);
        if x[i] != y[i] {
            return x[i] < y[i];
        }
        assert(x@.skip(i as int).drop_first() =~= x@.skip(i + 1));
        assert(y@.skip(i as int).drop_first() =~= y@.skip(i + 1));
        i = i + 1;
    }
    x.len() < y.len()
}

} // verus!
