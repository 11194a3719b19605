//! Deterministic ordering of stored test cases. Test files are named by
//! their stems; stems that are plain decimal numbers order first, by value,
//! and all other stems follow, ordered lexicographically by bytes. The
//! order is total, so repeated batch runs visit tests identically and
//! progress percentages are reproducible.

use vstd::multiset::Multiset;
use vstd::prelude::*;

verus! {

/// An ASCII decimal digit.
pub open spec fn is_digit(b: u8) -> bool {
    48 <= b && b <= 57
}

/// Every byte of the stem is a digit.
pub open spec fn all_digits(s: Seq<u8>) -> bool {
    forall|i: int| 0 <= i < s.len() ==> is_digit(#[trigger] s[i])
}

/// The numeric value of a digit string.
pub open spec fn digits_value(s: Seq<u8>) -> nat
    decreases s.len(),
{
    if s.len() == 0 {
        0
    } else {
        (digits_value(s.drop_last()) * 10 + (s.last() - 48)) as nat
    }
}

/// A stem counts as a numeric test id when it is one to eighteen digits:
/// long enough to hold any realistic id, short enough that its value always
/// fits the id type. Longer digit strings order lexicographically instead.
pub open spec fn spec_numeric(s: Seq<u8>) -> bool {
    1 <= s.len() <= 18 && all_digits(s)
}

/// Byte-wise lexicographic order on stems; a proper prefix orders first.
pub open spec fn lex_le(a: Seq<u8>, b: Seq<u8>) -> bool
    decreases a.len(),
{
    if a.len() == 0 {
        true
    } else if b.len() == 0 {
        false
    } else if a[0] < b[0] {
        true
    } else if a[0] > b[0] {
        false
    } else {
        lex_le(a.drop_first(), b.drop_first())
    }
}

/// The scan order on stems: numeric ids ascending, then the rest
/// lexicographically.
pub open spec fn name_le(a: Seq<u8>, b: Seq<u8>) -> bool {
    if spec_numeric(a) && spec_numeric(b) {
        digits_value(a) <= digits_value(b)
    } else if spec_numeric(a) {
        true
    } else if spec_numeric(b) {
        false
    } else {
        lex_le(a, b)
    }
}

/// Any two stems are comparable.
pub proof fn lemma_lex_le_total(a: Seq<u8>, b: Seq<u8>)
    ensures
        lex_le(a, b) || lex_le(b, a),
    decreases a.len(),
{
    if a.len() == 0 || b.len() == 0 {
    } else if a[0] == b[0] {
        lemma_lex_le_total(a.drop_first(), b.drop_first());
    }
}

/// The lexicographic order is transitive.
pub proof fn lemma_lex_le_trans(a: Seq<u8>, b: Seq<u8>, c: Seq<u8>)
    requires
        lex_le(a, b),
        lex_le(b, c),
    ensures
        lex_le(a, c),
    decreases a.len(),
{
    if a.len() == 0 {
    } else {
        assert(b.len() > 0);
        assert(c.len() > 0);
        if a[0] == b[0] && b[0] == c[0] {
            lemma_lex_le_trans(a.drop_first(), b.drop_first(), c.drop_first());
        }
    }
}

/// The scan order is total.
pub proof fn lemma_name_le_total(a: Seq<u8>, b: Seq<u8>)
    ensures
        name_le(a, b) || name_le(b, a),
{
    if !spec_numeric(a) && !spec_numeric(b) {
        lemma_lex_le_total(a, b);
    }
}

/// The scan order is transitive.
pub proof fn lemma_name_le_trans(a: Seq<u8>, b: Seq<u8>, c: Seq<u8>)
    requires
        name_le(a, b),
        name_le(b, c),
    ensures
        name_le(a, c),
{
    if !spec_numeric(a) && !spec_numeric(b) && !spec_numeric(c) {
        lemma_lex_le_trans(a, b, c);
    }
}

/// Ten to the `k`-th power.
pub open spec fn pow10(k: nat) -> nat
    decreases k,
{
    if k == 0 {
        1
    } else {
        pow10((k - 1) as nat) * 10
    }
}

/// `pow10` is positive.
pub proof fn lemma_pow10_pos(k: nat)
    ensures
        pow10(k) >= 1,
    decreases k,
{
    if k > 0 {
        lemma_pow10_pos((k - 1) as nat);
    }
}

/// `pow10` is monotone.
pub proof fn lemma_pow10_le(i: nat, j: nat)
    requires
        i <= j,
    ensures
        pow10(i) <= pow10(j),
    decreases j - i,
{
    if i < j {
        lemma_pow10_le(i, (j - 1) as nat);
        lemma_pow10_pos((j - 1) as nat);
        assert(pow10(j) == pow10((j - 1) as nat) * 10);
    }
}

/// Eighteen digits always fit in a `u64`.
pub proof fn lemma_pow10_18_fits()
    ensures
        pow10(18) == 1000000000000000000,
{
    assert(pow10(0) == 1);
    assert(pow10(1) == 10);
    assert(pow10(2) == 100);
    assert(pow10(3) == 1000);
    assert(pow10(4) == 10000);
    assert(pow10(5) == 100000);
    assert(pow10(6) == 1000000);
    assert(pow10(7) == 10000000);
    assert(pow10(8) == 100000000);
    assert(pow10(9) == 1000000000);
    assert(pow10(10) == 10000000000);
    assert(pow10(11) == 100000000000);
    assert(pow10(12) == 1000000000000);
    assert(pow10(13) == 10000000000000);
    assert(pow10(14) == 100000000000000);
    assert(pow10(15) == 1000000000000000);
    assert(pow10(16) == 10000000000000000);
    assert(pow10(17) == 100000000000000000);
    assert(pow10(18) == 1000000000000000000);
}

/// Parses a stem as a numeric test id: `Some` exactly for numeric stems,
/// holding the decimal value.
pub fn parse_id(name: &[u8]) -> (r: Option<u64>)
    ensures
        r is Some <==> spec_numeric(name@),
        r matches Some(v) ==> v == digits_value(name@),
{
    let n = name.len();
    if n == 0 || n > 18 {
        return None;
    }
    let mut val: u64 = 0;
    let mut i: usize = 0;
    while i < n
        invariant
            i <= n,
            n == name@.len(),
            1 <= n <= 18,
            all_digits(name@.take(i as int)),
            val == digits_value(name@.take(i as int)),
            val < pow10(i as nat),
        decreases n - i,
    {
        let b = name[i];
        if b < 48 || b > 57 {
            proof {
                assert(!is_digit(name@[i as int]));
            }
            return None;
        }
        proof {
            assert(name@.take(i + 1).drop_last() =~= name@.take(i as int));
            assert(name@.take(i + 1).last() == name@[i as int]);
            assert(forall|j: int|
                0 <= j < i + 1 ==> is_digit(#[trigger] name@.take(i + 1)[j]));
            assert(val * 10 + (b - 48) < pow10((i + 1) as nat));
            lemma_pow10_le((i + 1) as nat, 18);
            lemma_pow10_18_fits();
        }
        val = val * 10 + ((b - 48) as u64);
        i += 1;
    }
    proof {
        assert(name@.take(n as int) =~= name@);
    }
    Some(val)
}

/// Decides the scan order between two stems.
pub fn name_le_exec(a: &[u8], b: &[u8]) -> (r: bool)
    ensures
        r == name_le(a@, b@),
{
    let ida = parse_id(a);
    let idb = parse_id(b);
    match (ida, idb) {
        (Some(x), Some(y)) => x <= y,
        (Some(_), None) => true,
        (None, Some(_)) => false,
        (None, None) => lex_le_exec(a, b),
    }
}

/// Decides the lexicographic order between two stems.
pub fn lex_le_exec(a: &[u8], b: &[u8]) -> (r: bool)
    ensures
        r == lex_le(a@, b@),
{
    let mut i: usize = 0;
    proof {
        assert(a@.skip(0) =~= a@);
        assert(b@.skip(0) =~= b@);
    }
    while i < a.len() && i < b.len()
        invariant
            i <= a@.len(),
            i <= b@.len(),
            lex_le(a@, b@) == lex_le(a@.skip(i as int), b@.skip(i as int)),
        decreases a@.len() - i,
    {
        let ca = a[i];
        let cb = b[i];
        proof {
            assert(a@.skip(i as int)[0] == a@[i as int]);
            assert(b@.skip(i as int)[0] == b@[i as int]);
            assert(a@.skip(i as int).drop_first() =~= a@.skip(i + 1));
            assert(b@.skip(i as int).drop_first() =~= b@.skip(i + 1));
        }
        if ca < cb {
            return true;
        }
        if ca > cb {
            return false;
        }
        i += 1;
    }
    proof {
        if i == a@.len() {
            assert(a@.skip(i as int).len() == 0);
        } else {
            assert(b@.skip(i as int).len() == 0);
            assert(a@.skip(i as int).len() > 0);
        }
    }
    i == a.len()
}

/// Whether a run of stems stands in scan order.
pub open spec fn sorted_names(s: Seq<Vec<u8>>) -> bool {
    forall|i: int, j: int| 0 <= i < j < s.len() ==> name_le(#[trigger] s[i]@, #[trigger] s[j]@)
}

/// Orders the scanned test stems deterministically: the result holds
/// exactly the given stems, in scan order. Repeated scans of the same
/// directory therefore visit tests identically.
pub fn scan_and_order(names: Vec<Vec<u8>>) -> (ordered: Vec<Vec<u8>>)
    ensures
        ordered@.to_multiset() == names@.to_multiset(),
        sorted_names(ordered@),
{
    broadcast use vstd::seq_lib::group_to_multiset_ensures;

    let mut rest = names;
    let mut ordered: Vec<Vec<u8>> = Vec::new();
    proof {
        assert(ordered@.to_multiset().add(rest@.to_multiset()) =~= names@.to_multiset());
    }
    while rest.len() > 0
        invariant
            ordered@.to_multiset().add(rest@.to_multiset()) == names@.to_multiset(),
            sorted_names(ordered@),
            forall|i: int, j: int|
                0 <= i < ordered@.len() && 0 <= j < rest@.len() ==> name_le(
                    #[trigger] ordered@[i]@,
                    #[trigger] rest@[j]@,
                ),
        decreases rest@.len(),
    {
        // find the least remaining stem
        let mut mi: usize = 0;
        let mut k: usize = 1;
        proof {
            lemma_name_le_total(rest@[0]@, rest@[0]@);
        }
        while k < rest.len()
            invariant
                mi < k <= rest@.len(),
                rest@.len() > 0,
                forall|j: int| 0 <= j < k ==> name_le(rest@[mi as int]@, #[trigger] rest@[j]@),
            decreases rest@.len() - k,
        {
            if !name_le_exec(rest[mi].as_slice(), rest[k].as_slice()) {
                proof {
                    lemma_name_le_total(rest@[mi as int]@, rest@[k as int]@);
                    assert forall|j: int| 0 <= j < k + 1 implies name_le(
                        rest@[k as int]@,
                        #[trigger] rest@[j]@,
                    ) by {
                        if j == k {
                            lemma_name_le_total(rest@[k as int]@, rest@[k as int]@);
                        } else {
                            lemma_name_le_trans(rest@[k as int]@, rest@[mi as int]@, rest@[j]@);
                        }
                    }
                }
                mi = k;
            }
            k += 1;
        }
        let ghost old_ordered = ordered@;
        let ghost old_rest = rest@;
        let m = rest.remove(mi);
        ordered.push(m);
        proof {
            assert(ordered@ == old_ordered.push(m));
            assert(rest@ == old_rest.remove(mi as int));
            old_ordered.to_multiset_ensures();
            old_rest.to_multiset_ensures();
            assert(old_ordered.push(m).to_multiset() =~= old_ordered.to_multiset().insert(m));
            assert(old_rest.remove(mi as int).to_multiset() =~= old_rest.to_multiset().remove(m));
            assert(old_rest.contains(m)) by {
                assert(old_rest[mi as int] == m);
            }
            assert(old_rest.to_multiset().count(m) > 0);
            assert(ordered@.to_multiset().add(rest@.to_multiset()) =~= old_ordered.to_multiset()
                .add(old_rest.to_multiset()));
            assert forall|i: int, j: int|
                0 <= i < ordered@.len() && 0 <= j < rest@.len() implies name_le(
                #[trigger] ordered@[i]@,
                #[trigger] rest@[j]@,
            ) by {
                let jj = if j < mi { j } else { j + 1 };
                assert(rest@[j] == old_rest[jj]);
                if i < old_ordered.len() {
                    assert(name_le(old_ordered[i]@, old_rest[jj]@));
                } else {
                    assert(ordered@[i] == m);
                    assert(name_le(m@, old_rest[jj]@));
                }
            }
            assert forall|i: int, j: int|
                0 <= i < j < ordered@.len() implies name_le(
                #[trigger] ordered@[i]@,
                #[trigger] ordered@[j]@,
            ) by {
                if j == ordered@.len() - 1 {
                    assert(name_le(old_ordered[i]@, old_rest[mi as int]@));
                }
            }
        }
    }
    proof {
        assert(rest@.to_multiset() =~= Multiset::empty());
        assert(ordered@.to_multiset().add(Multiset::empty()) =~= ordered@.to_multiset());
    }
    ordered
}

} // verus!
