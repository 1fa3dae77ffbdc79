//! The order of the keys of a manifest: the order of a dictionary over the
//! bytes of their UTF-8 encoding, which is the order of strings.

use vstd::prelude::*;
use vstd::string::*;
use vstd::utf8::*;

verus! {

/// How one key stands to another.
#[derive(Clone, Copy, Debug, PartialEq, Eq, Structural)]
pub enum KeyOrder {
    /// The first key stands before the second.
    Before,
    /// The keys are the same.
    Same,
    /// The first key stands after the second.
    After,
}

/// The two sequences hold the same bytes in their first `k` places.
pub open spec fn same_prefix(a: Seq<u8>, b: Seq<u8>, k: int) -> bool {
    &&& 0 <= k <= a.len()
    &&& k <= b.len()
    &&& forall|i: int| 0 <= i < k ==> a[i] == b[i]
}

/// `a` stands before `b`: where the two first differ `a` holds the smaller
/// byte, or `a` ends there and `b` goes on.
pub open spec fn bytes_before(a: Seq<u8>, b: Seq<u8>) -> bool {
    exists|k: int| #[trigger] same_prefix(a, b, k) && k < b.len() && (k == a.len() || a[k] < b[k])
}

/// The key `a` stands before the key `b`.
pub open spec fn key_before(a: Seq<char>, b: Seq<char>) -> bool {
    bytes_before(encode_utf8(a), encode_utf8(b))
}

/// Finds out how the key `a` stands to the key `b`.
pub fn key_order(a: &str, b: &str) -> (order: KeyOrder)
    ensures
        order is Before <==> key_before(a@, b@),
        order is Same <==> a@ == b@,
        order is After <==> key_before(b@, a@),
{
    let x = a.as_bytes();
    let y = b.as_bytes();
    proof {
        order_is_strict(x@, y@);
        encode_utf8_decode_utf8(a@);
        encode_utf8_decode_utf8(b@);
    }
    let mut i: usize = 0;
    while i < x.len() && i < y.len()
        invariant
            x@ == encode_utf8(a@),
            y@ == encode_utf8(b@),
            !bytes_before(x@, x@),
            !(bytes_before(x@, y@) && bytes_before(y@, x@)),
            a@ == b@ <==> x@ == y@,
            same_prefix(x@, y@, i as int),
            same_prefix(y@, x@, i as int),
        decreases x.len() - i,
    {
        if x[i] < y[i] {
            assert(same_prefix(x@, y@, i as int) && x@[i as int] < y@[i as int]);
            return KeyOrder::Before;
        }
        if y[i] < x[i] {
            assert(same_prefix(y@, x@, i as int) && y@[i as int] < x@[i as int]);
            return KeyOrder::After;
        }
        i += 1;
    }
    if i < y.len() {
        assert(same_prefix(x@, y@, i as int) && i == x@.len());
        KeyOrder::Before
    } else if i < x.len() {
        assert(same_prefix(y@, x@, i as int) && i == y@.len());
        KeyOrder::After
    } else {
        assert(x@ =~= y@);
        KeyOrder::Same
    }
}

/// The order is strict: no sequence stands before itself, and of two
/// sequences at most one stands before the other.
pub proof fn order_is_strict(a: Seq<u8>, b: Seq<u8>)
    ensures
        !bytes_before(a, a),
        !(bytes_before(a, b) && bytes_before(b, a)),
{
    if bytes_before(a, a) {
        let k = choose|k: int|
            #[trigger] same_prefix(a, a, k) && k < a.len() && (k == a.len() || a[k] < a[k]);
        assert(false);
    }
    if bytes_before(a, b) && bytes_before(b, a) {
        let k = choose|k: int|
            #[trigger] same_prefix(a, b, k) && k < b.len() && (k == a.len() || a[k] < b[k]);
        let m = choose|m: int|
            #[trigger] same_prefix(b, a, m) && m < a.len() && (m == b.len() || b[m] < a[m]);
        if k < m {
            assert(b[k] == a[k]);
        } else if m < k {
            assert(a[m] == b[m]);
        }
        assert(false);
    }
}

/// The order is total: of two different sequences one stands before the other.
pub proof fn order_is_total(a: Seq<u8>, b: Seq<u8>)
    ensures
        a == b || bytes_before(a, b) || bytes_before(b, a),
    decreases a.len(),
{
    if a.len() == 0 {
        if b.len() > 0 {
            assert(same_prefix(a, b, 0));
        } else {
            assert(a =~= b);
        }
    } else if b.len() == 0 {
        assert(same_prefix(b, a, 0));
    } else if a[0] < b[0] {
        assert(same_prefix(a, b, 0));
    } else if b[0] < a[0] {
        assert(same_prefix(b, a, 0));
    } else {
        let x = a.drop_first();
        let y = b.drop_first();
        order_is_total(x, y);
        if x == y {
            assert forall|i: int| 0 <= i < a.len() implies a[i] == b[i] by {
                if i > 0 {
                    assert(a[i] == x[i - 1]);
                    assert(b[i] == y[i - 1]);
                }
            }
            assert(a.len() == x.len() + 1 && b.len() == y.len() + 1);
            assert(a =~= b);
        } else if bytes_before(x, y) {
            let k = choose|k: int|
                #[trigger] same_prefix(x, y, k) && k < y.len() && (k == x.len() || x[k] < y[k]);
            assert(same_prefix(a, b, k + 1)) by {
                assert forall|i: int| 0 <= i < k + 1 implies a[i] == b[i] by {
                    if i > 0 {
                        assert(a[i] == x[i - 1]);
                        assert(b[i] == y[i - 1]);
                    }
                }
            }
            assert(k + 1 == a.len() || a[k + 1] == x[k]);
            assert(b[k + 1] == y[k]);
        } else {
            let k = choose|k: int|
                #[trigger] same_prefix(y, x, k) && k < x.len() && (k == y.len() || y[k] < x[k]);
            assert(same_prefix(b, a, k + 1)) by {
                assert forall|i: int| 0 <= i < k + 1 implies b[i] == a[i] by {
                    if i > 0 {
                        assert(a[i] == x[i - 1]);
                        assert(b[i] == y[i - 1]);
                    }
                }
            }
            assert(k + 1 == b.len() || b[k + 1] == y[k]);
            assert(a[k + 1] == x[k]);
        }
    }
}

/// The order is transitive.
pub proof fn order_is_transitive(a: Seq<u8>, b: Seq<u8>, c: Seq<u8>)
    requires
        bytes_before(a, b),
        bytes_before(b, c),
    ensures
        bytes_before(a, c),
{
    let k = choose|k: int|
        #[trigger] same_prefix(a, b, k) && k < b.len() && (k == a.len() || a[k] < b[k]);
    let m = choose|m: int|
        #[trigger] same_prefix(b, c, m) && m < c.len() && (m == b.len() || b[m] < c[m]);
    if k <= m {
        assert(same_prefix(a, c, k));
        if k < m {
            assert(b[k] == c[k]);
        }
    } else {
        assert(same_prefix(a, c, m));
        assert(a[m] == b[m]);
    }
}

/// Keys are ordered as their encodings are: the order of keys is strict,
/// total and transitive.
pub proof fn keys_are_ordered(a: Seq<char>, b: Seq<char>, c: Seq<char>)
    ensures
        !key_before(a, a),
        !(key_before(a, b) && key_before(b, a)),
        a == b || key_before(a, b) || key_before(b, a),
        key_before(a, b) && key_before(b, c) ==> key_before(a, c),
{
    order_is_strict(encode_utf8(a), encode_utf8(a));
    order_is_strict(encode_utf8(a), encode_utf8(b));
    order_is_total(encode_utf8(a), encode_utf8(b));
    encode_utf8_decode_utf8(a);
    encode_utf8_decode_utf8(b);
    if key_before(a, b) && key_before(b, c) {
        order_is_transitive(encode_utf8(a), encode_utf8(b), encode_utf8(c));
    }
}

} // verus!
