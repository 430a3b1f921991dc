//! The order of symbols: byte-wise lexicographic over the UTF-8 encoding,
//! which is the order `str` itself uses.
use vstd::prelude::*;
use vstd::utf8::encode_utf8;

verus! {

broadcast use vstd::utf8::group_utf8_lib;

/// The UTF-8 bytes of a symbol.
pub open spec fn symbol_bytes(s: Seq<char>) -> Seq<u8> {
    encode_utf8(s)
}

/// The views of a sequence of strings.
pub open spec fn string_views(v: Seq<String>) -> Seq<Seq<char>> {
    v.map_values(|s: String| s@)
}

/// `a` sorts before `b`, looking at positions from `i` on.
pub open spec fn lt_from(a: Seq<u8>, b: Seq<u8>, i: int) -> bool
    decreases a.len() - i,
{
    if i < 0 || i >= b.len() {
        false
    } else if i >= a.len() {
        true
    } else if a[i] != b[i] {
        a[i] < b[i]
    } else {
        lt_from(a, b, i + 1)
    }
}

/// Strict lexicographic order on byte strings.
pub open spec fn bytes_lt(a: Seq<u8>, b: Seq<u8>) -> bool {
    lt_from(a, b, 0)
}

/// Strict order on symbols.
pub open spec fn symbol_lt(a: Seq<char>, b: Seq<char>) -> bool {
    bytes_lt(symbol_bytes(a), symbol_bytes(b))
}

proof fn lemma_lt_from_irreflexive(a: Seq<u8>, i: int)
    requires
        0 <= i,
    ensures
        !lt_from(a, a, i),
    decreases a.len() - i,
{
    if i < a.len() {
        lemma_lt_from_irreflexive(a, i + 1);
    }
}

proof fn lemma_lt_from_transitive(a: Seq<u8>, b: Seq<u8>, c: Seq<u8>, i: int)
    requires
        0 <= i,
        lt_from(a, b, i),
        lt_from(b, c, i),
    ensures
        lt_from(a, c, i),
    decreases a.len() - i,
{
    if i < a.len() && a[i] == b[i] && b[i] == c[i] {
        lemma_lt_from_transitive(a, b, c, i + 1);
    }
}

/// No symbol sorts before itself.
pub proof fn lemma_symbol_lt_irreflexive(a: Seq<char>)
    ensures
        !symbol_lt(a, a),
{
    lemma_lt_from_irreflexive(symbol_bytes(a), 0);
}

/// The order on symbols is transitive.
pub proof fn lemma_symbol_lt_transitive(a: Seq<char>, b: Seq<char>, c: Seq<char>)
    requires
        symbol_lt(a, b),
        symbol_lt(b, c),
    ensures
        symbol_lt(a, c),
{
    lemma_lt_from_transitive(symbol_bytes(a), symbol_bytes(b), symbol_bytes(c), 0);
}

/// Two symbols in order are different symbols.
pub proof fn lemma_symbol_lt_distinct(a: Seq<char>, b: Seq<char>)
    requires
        symbol_lt(a, b),
    ensures
        a != b,
{
    lemma_symbol_lt_irreflexive(a);
}

/// The symbols of `s` ascend strictly.
pub open spec fn ascending(s: Seq<Seq<char>>) -> bool {
    forall|i: int, j: int| 0 <= i < j < s.len() ==> symbol_lt(#[trigger] s[i], #[trigger] s[j])
}

/// Two strictly ascending sequences that hold the same symbols are equal.
pub proof fn lemma_ascending_unique(a: Seq<Seq<char>>, b: Seq<Seq<char>>)
    requires
        ascending(a),
        ascending(b),
        forall|k: Seq<char>| a.contains(k) <==> b.contains(k),
    ensures
        a == b,
    decreases a.len(),
{
    if a.len() == 0 {
        if b.len() > 0 {
            assert(b.contains(b[0]));
        }
        assert(a =~= b);
    } else if b.len() == 0 {
        assert(a.contains(a[0]));
    } else {
        if a[0] != b[0] {
            assert(a.contains(a[0]));
            let k = choose|k: int| 0 <= k < b.len() && b[k] == a[0];
            assert(symbol_lt(b[0], b[k]));
            assert(b.contains(b[0]));
            let m = choose|m: int| 0 <= m < a.len() && a[m] == b[0];
            assert(symbol_lt(a[0], a[m]));
            lemma_symbol_lt_transitive(a[0], b[0], a[0]);
            lemma_symbol_lt_irreflexive(a[0]);
        }
        let ta = a.drop_first();
        let tb = b.drop_first();
        assert forall|k: Seq<char>| ta.contains(k) <==> tb.contains(k) by {
            if ta.contains(k) {
                let i = choose|i: int| 0 <= i < ta.len() && ta[i] == k;
                assert(symbol_lt(a[0], a[i + 1]));
                lemma_symbol_lt_distinct(a[0], k);
                assert(a.contains(k));
                let j = choose|j: int| 0 <= j < b.len() && b[j] == k;
                assert(tb[j - 1] == k);
            }
            if tb.contains(k) {
                let i = choose|i: int| 0 <= i < tb.len() && tb[i] == k;
                assert(symbol_lt(b[0], b[i + 1]));
                lemma_symbol_lt_distinct(b[0], k);
                assert(b.contains(k));
                let j = choose|j: int| 0 <= j < a.len() && a[j] == k;
                assert(ta[j - 1] == k);
            }
        }
        assert forall|i: int, j: int| 0 <= i < j < ta.len() implies symbol_lt(#[trigger] ta[i], #[trigger] ta[j]) by {
            assert(symbol_lt(a[i + 1], a[j + 1]));
        }
        assert forall|i: int, j: int| 0 <= i < j < tb.len() implies symbol_lt(#[trigger] tb[i], #[trigger] tb[j]) by {
            assert(symbol_lt(b[i + 1], b[j + 1]));
        }
        lemma_ascending_unique(ta, tb);
        assert(a =~= b) by {
            assert forall|i: int| 0 <= i < a.len() implies a[i] == b[i] by {
                if i > 0 {
                    assert(a[i] == ta[i - 1]);
                    assert(b[i] == tb[i - 1]);
                }
            }
        }
    }
}

/// How two symbols compare.
#[derive(PartialEq, Eq, Structural, Clone, Copy, Debug)]
pub enum Comparison {
    Less,
    Equal,
    Greater,
}

/// Compares two symbols byte by byte.
pub fn compare_symbols(a: &String, b: &String) -> (r: Comparison)
    ensures
        r == Comparison::Less <==> symbol_lt(a@, b@),
        r == Comparison::Greater <==> symbol_lt(b@, a@),
        r == Comparison::Equal <==> a@ == b@,
{
    let x = a.as_str().as_bytes();
    let y = b.as_str().as_bytes();
    proof {
        lemma_lt_from_irreflexive(x@, 0);
    }
    let mut i: usize = 0;
    while i < x.len() && i < y.len()
        invariant
            x@ == symbol_bytes(a@),
            y@ == symbol_bytes(b@),
            i <= x@.len(),
            i <= y@.len(),
            forall|j: int| 0 <= j < i ==> x@[j] == y@[j],
            bytes_lt(x@, y@) == lt_from(x@, y@, i as int),
            bytes_lt(y@, x@) == lt_from(y@, x@, i as int),
        decreases x@.len() - i,
    {
        if x[i] < y[i] {
            proof {
                lemma_symbol_lt_distinct(a@, b@);
                lemma_symbol_lt_irreflexive(a@);
            }
            return Comparison::Less;
        } else if x[i] > y[i] {
            proof {
                lemma_symbol_lt_distinct(b@, a@);
            }
            return Comparison::Greater;
        }
        i = i + 1;
    }
    if x.len() < y.len() {
        proof {
            lemma_symbol_lt_distinct(a@, b@);
        }
        Comparison::Less
    } else if x.len() > y.len() {
        proof {
            lemma_symbol_lt_distinct(b@, a@);
        }
        Comparison::Greater
    } else {
        proof {
            assert(x@ =~= y@);
            lemma_symbol_lt_irreflexive(a@);
            assert(vstd::utf8::decode_utf8(x@) == a@);
            assert(vstd::utf8::decode_utf8(y@) == b@);
        }
        Comparison::Equal
    }
}

} // verus!
