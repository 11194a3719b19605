//! Free-whitespace output comparison: two outputs are considered equal when
//! they hold the same sequence of whitespace-separated tokens, so runs of
//! spaces, tabs and line endings, as well as leading and trailing
//! whitespace, are ignored.

use vstd::prelude::*;

verus! {

/// Bytes treated as whitespace when comparing outputs:
/// space, tab, line feed, carriage return.
pub open spec fn is_ws(b: u8) -> bool {
    b == 32 || b == 9 || b == 10 || b == 13
}

/// One step of the tokenizing fold: whitespace closes the current token
/// (if one is open), any other byte extends it.
pub open spec fn tok_step(toks: Seq<Seq<u8>>, cur: Seq<u8>, b: u8) -> (Seq<Seq<u8>>, Seq<u8>) {
    if is_ws(b) {
        if cur.len() == 0 {
            (toks, cur)
        } else {
            (toks.push(cur), Seq::empty())
        }
    } else {
        (toks, cur.push(b))
    }
}

/// Folds the tokenizer over a byte string, yielding the closed tokens and
/// the still-open trailing token (empty if none is open).
pub open spec fn tok_scan(s: Seq<u8>) -> (Seq<Seq<u8>>, Seq<u8>)
    decreases s.len(),
{
    if s.len() == 0 {
        (Seq::empty(), Seq::empty())
    } else {
        let prev = tok_scan(s.drop_last());
        tok_step(prev.0, prev.1, s.last())
    }
}

/// The whitespace-separated tokens of a byte string.
pub open spec fn ws_tokens(s: Seq<u8>) -> Seq<Seq<u8>> {
    let scanned = tok_scan(s);
    if scanned.1.len() == 0 {
        scanned.0
    } else {
        scanned.0.push(scanned.1)
    }
}

/// Law: a string of nothing but whitespace holds no tokens, so it compares
/// equal to the empty string.
pub proof fn lemma_ws_only_has_no_tokens(s: Seq<u8>)
    requires
        forall|i: int| 0 <= i < s.len() ==> is_ws(#[trigger] s[i]),
    ensures
        ws_tokens(s) == Seq::<Seq<u8>>::empty(),
    decreases s.len(),
{
    if s.len() > 0 {
        lemma_ws_only_has_no_tokens(s.drop_last());
        assert(is_ws(s.last()));
    }
    assert(ws_tokens(s) =~= Seq::<Seq<u8>>::empty());
}

/// Law: trailing whitespace never changes the tokens, so line-ending
/// differences at the end of an output are ignored.
pub proof fn lemma_trailing_ws_ignored(s: Seq<u8>, b: u8)
    requires
        is_ws(b),
    ensures
        ws_tokens(s.push(b)) == ws_tokens(s),
{
    assert(s.push(b).drop_last() =~= s);
    assert(s.push(b).last() == b);
}

/// The view of each produced token.
pub open spec fn token_views(toks: Seq<Vec<u8>>) -> Seq<Seq<u8>> {
    toks.map_values(|t: Vec<u8>| t@)
}

/// Splits a byte string into its whitespace-separated tokens.
pub fn tokenize(s: &[u8]) -> (toks: Vec<Vec<u8>>)
    ensures
        token_views(toks@) == ws_tokens(s@),
{
    let mut toks: Vec<Vec<u8>> = Vec::new();
    let mut cur: Vec<u8> = Vec::new();
    let mut i: usize = 0;
    while i < s.len()
        invariant
            i <= s@.len(),
            token_views(toks@) == tok_scan(s@.take(i as int)).0,
            cur@ == tok_scan(s@.take(i as int)).1,
        decreases s@.len() - i,
    {
        let b = s[i];
        proof {
            assert(s@.take(i + 1).drop_last() =~= s@.take(i as int));
            assert(s@.take(i + 1).last() == s@[i as int]);
        }
        if b == 32 || b == 9 || b == 10 || b == 13 {
            if cur.len() > 0 {
                let ghost old_toks = token_views(toks@);
                toks.push(cur);
                cur = Vec::new();
                proof {
                    assert(token_views(toks@) =~= old_toks.push(toks@.last()@));
                }
            }
        } else {
            cur.push(b);
        }
        i += 1;
    }
    proof {
        assert(s@.take(i as int) =~= s@);
    }
    if cur.len() > 0 {
        let ghost old_toks = token_views(toks@);
        toks.push(cur);
        proof {
            assert(token_views(toks@) =~= old_toks.push(toks@.last()@));
        }
    }
    toks
}

/// Compares two byte strings for exact equality.
pub fn bytes_equal(a: &[u8], b: &[u8]) -> (r: bool)
    ensures
        r == (a@ == b@),
{
    if a.len() != b.len() {
        return false;
    }
    let mut i: usize = 0;
    while i < a.len()
        invariant
            i <= a@.len(),
            a@.len() == b@.len(),
            forall|j: int| 0 <= j < i ==> a@[j] == b@[j],
        decreases a@.len() - i,
    {
        if a[i] != b[i] {
            return false;
        }
        i += 1;
    }
    proof {
        assert(a@ =~= b@);
    }
    true
}

/// True iff the two byte strings hold the same whitespace-separated tokens.
pub fn ws_tokens_equal(a: &[u8], b: &[u8]) -> (r: bool)
    ensures
        r == (ws_tokens(a@) == ws_tokens(b@)),
{
    let ta = tokenize(a);
    let tb = tokenize(b);
    if ta.len() != tb.len() {
        return false;
    }
    let mut i: usize = 0;
    while i < ta.len()
        invariant
            i <= ta@.len(),
            ta@.len() == tb@.len(),
            token_views(ta@) == ws_tokens(a@),
            token_views(tb@) == ws_tokens(b@),
            forall|j: int| 0 <= j < i ==> ta@[j]@ == tb@[j]@,
        decreases ta@.len() - i,
    {
        if !bytes_equal(ta[i].as_slice(), tb[i].as_slice()) {
            proof {
                assert(token_views(ta@)[i as int] != token_views(tb@)[i as int]);
            }
            return false;
        }
        i += 1;
    }
    proof {
        assert(token_views(ta@) =~= token_views(tb@));
    }
    true
}

} // verus!
