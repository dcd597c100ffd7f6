//! Text as it is compared and cleaned up by the catalog: the dictionary order
//! on strings (by code point) and the removal of surrounding white space.

use vstd::prelude::*;
use vstd::string::*;

verus! {

/// Where one text stands relative to another in dictionary order.
#[derive(Clone, Copy, Debug, PartialEq, Eq, Structural)]
pub enum Place {
    Before,
    Same,
    After,
}

/// `a` and `b` agree on their first `k` characters, and at position `k` either
/// `a` has ended while `b` goes on, or `a` holds the smaller character.
pub open spec fn parts_at(a: Seq<char>, b: Seq<char>, k: int) -> bool {
    &&& 0 <= k <= a.len()
    &&& k <= b.len()
    &&& forall|i: int| 0 <= i < k ==> a[i] == b[i]
    &&& k < b.len()
    &&& k < a.len() ==> a[k] < b[k]
}

/// Strict dictionary order: `a` comes before `b`.
pub open spec fn lex_lt(a: Seq<char>, b: Seq<char>) -> bool {
    exists|k: int| parts_at(a, b, k)
}

/// Dictionary order: `a` is `b` or comes before it.
pub open spec fn lex_le(a: Seq<char>, b: Seq<char>) -> bool {
    a == b || lex_lt(a, b)
}

/// A text never comes before itself, and of two texts at most one comes
/// before the other.
pub proof fn lemma_lex_lt_asymmetric(a: Seq<char>, b: Seq<char>)
    requires
        lex_lt(a, b),
    ensures
        a != b,
        !lex_lt(b, a),
{
    let k = choose|k: int| parts_at(a, b, k);
    if a == b {
        assert(k < a.len() && a[k] < b[k]);
    }
    if lex_lt(b, a) {
        let m = choose|m: int| parts_at(b, a, m);
        if m < k {
            assert(a[m] == b[m]);
        } else if k < m {
            assert(b[k] == a[k]);
        }
    }
}

/// The dictionary order is transitive.
pub proof fn lemma_lex_lt_transitive(a: Seq<char>, b: Seq<char>, c: Seq<char>)
    requires
        lex_lt(a, b),
        lex_le(b, c),
    ensures
        lex_lt(a, c),
{
    if b != c {
        let k = choose|k: int| parts_at(a, b, k);
        let m = choose|m: int| parts_at(b, c, m);
        if k <= m {
            assert forall|i: int| 0 <= i < k implies a[i] == c[i] by {
                assert(a[i] == b[i]);
                assert(b[i] == c[i]);
            }
            assert(parts_at(a, c, k));
        } else {
            assert forall|i: int| 0 <= i < m implies a[i] == c[i] by {
                assert(a[i] == b[i]);
                assert(b[i] == c[i]);
            }
            assert(a[m] == b[m]);
            assert(parts_at(a, c, m));
        }
    }
}

/// Compares two texts in dictionary order.
pub fn place(a: &str, b: &str) -> (r: Place)
    ensures
        (r == Place::Before) == lex_lt(a@, b@),
        (r == Place::Same) == (a@ == b@),
        (r == Place::After) == lex_lt(b@, a@),
{
    let n: usize = a.unicode_len();
    let m: usize = b.unicode_len();
    let mut i: usize = 0;
    while i < n && i < m
        invariant
            n == a@.len(),
            m == b@.len(),
            i <= n,
            i <= m,
            forall|j: int| 0 <= j < i ==> a@[j] == b@[j],
        decreases n - i,
    {
        let x = a.get_char(i);
        let y = b.get_char(i);
        if x < y {
            proof {
                assert(parts_at(a@, b@, i as int));
                lemma_lex_lt_asymmetric(a@, b@);
            }
            return Place::Before;
        }
        if y < x {
            proof {
                assert(parts_at(b@, a@, i as int));
                lemma_lex_lt_asymmetric(b@, a@);
            }
            return Place::After;
        }
        i = i + 1;
    }
    if i < m {
        proof {
            assert(parts_at(a@, b@, i as int));
            lemma_lex_lt_asymmetric(a@, b@);
        }
        Place::Before
    } else if i < n {
        proof {
            assert(parts_at(b@, a@, i as int));
            lemma_lex_lt_asymmetric(b@, a@);
        }
        Place::After
    } else {
        proof {
            assert(a@ =~= b@);
            if lex_lt(a@, b@) {
                lemma_lex_lt_asymmetric(a@, b@);
            }
            if lex_lt(b@, a@) {
                lemma_lex_lt_asymmetric(b@, a@);
            }
        }
        Place::Same
    }
}

/// Whether two texts hold the same characters.
pub fn same_text(a: &str, b: &str) -> (r: bool)
    ensures
        r == (a@ == b@),
{
    place(a, b) == Place::Same
}

/// The characters that count as white space: those for which
/// `char::is_whitespace` answers yes.
pub uninterp spec fn white_space(c: char) -> bool;

/// Calls `char::is_whitespace` of the standard library. The answer depends on
/// the character alone, and this contract gives it the name `white_space`;
/// nothing is claimed about which characters those are.
#[verifier::external_body]
fn is_white_space(c: char) -> (r: bool)
    ensures
        r == white_space(c),
{
    c.is_whitespace()
}

/// The text without the white space it starts with.
pub open spec fn trim_start(s: Seq<char>) -> Seq<char>
    decreases s.len(),
{
    if s.len() > 0 && white_space(s[0]) {
        trim_start(s.drop_first())
    } else {
        s
    }
}

/// The text without the white space it ends with.
pub open spec fn trim_end(s: Seq<char>) -> Seq<char>
    decreases s.len(),
{
    if s.len() > 0 && white_space(s.last()) {
        trim_end(s.drop_last())
    } else {
        s
    }
}

/// The text without the white space around it.
pub open spec fn trimmed(s: Seq<char>) -> Seq<char> {
    trim_end(trim_start(s))
}

/// Removes the white space at both ends of a text.
pub fn trim(s: &str) -> (r: String)
    ensures
        r@ == trimmed(s@),
{
    let n: usize = s.unicode_len();
    let mut i: usize = 0;
    assert(s@.subrange(0, n as int) =~= s@);
    while i < n && is_white_space(s.get_char(i))
        invariant
            n == s@.len(),
            i <= n,
            trim_start(s@) == trim_start(s@.subrange(i as int, n as int)),
        decreases n - i,
    {
        proof {
            assert(s@.subrange(i as int, n as int).drop_first() =~= s@.subrange(
                i as int + 1,
                n as int,
            ));
        }
        i = i + 1;
    }
    let mut j: usize = n;
    while j > i && is_white_space(s.get_char(j - 1))
        invariant
            n == s@.len(),
            i <= j <= n,
            trimmed(s@) == trim_end(s@.subrange(i as int, j as int)),
        decreases j,
    {
        proof {
            assert(s@.subrange(i as int, j as int).drop_last() =~= s@.subrange(
                i as int,
                j as int - 1,
            ));
        }
        j = j - 1;
    }
    String::from_str(s.substring_char(i, j))
}

} // verus!
