//! Selecting Flint tests by name with a simple glob: `*` alone matches every
//! name, `prefix*` the names that start with `prefix`, `*suffix` the names that
//! end with `suffix`, and any other pattern only the name equal to it.
use vstd::prelude::*;
use vstd::string::StringSliceAdditionalSpecFns;

verus! {

/// The byte `*`.
pub const STAR: u8 = 0x2a;

/// Whether `s` starts with `prefix`.
pub open spec fn spec_starts_with(s: Seq<u8>, prefix: Seq<u8>) -> bool {
    prefix.len() <= s.len() && s.subrange(0, prefix.len() as int) == prefix
}

/// Whether `s` ends with `suffix`.
pub open spec fn spec_ends_with(s: Seq<u8>, suffix: Seq<u8>) -> bool {
    suffix.len() <= s.len() && s.subrange(s.len() - suffix.len(), s.len() as int) == suffix
}

/// Whether the (UTF-8 bytes of the) test name `name` matches `pattern`.
pub open spec fn spec_matches_pattern(name: Seq<u8>, pattern: Seq<u8>) -> bool {
    if pattern == seq![STAR] {
        true
    } else if pattern.len() > 0 && pattern.last() == STAR {
        spec_starts_with(name, pattern.drop_last())
    } else if pattern.len() > 0 && pattern[0] == STAR {
        spec_ends_with(name, pattern.drop_first())
    } else {
        name == pattern
    }
}

/// What matching means, byte by byte, for a name `n` and a pattern `p`:
/// `*` alone matches everything; a pattern ending in `*` matches the names
/// whose first bytes are the pattern's other bytes; a pattern starting (but not
/// ending) with `*` matches the names whose last bytes are the pattern's other
/// bytes, so never a name shorter than those; any other pattern matches only
/// the name equal to it.
pub proof fn lemma_matches_pattern(n: Seq<u8>, p: Seq<u8>)
    ensures
        p.len() == 1 && p[0] == STAR ==> spec_matches_pattern(n, p),
        p.len() > 1 && p[p.len() - 1] == STAR ==> (spec_matches_pattern(n, p) <==> (
            n.len() >= p.len() - 1 && forall|i: int| 0 <= i < p.len() - 1 ==> #[trigger] n[i] == p[i])),
        p.len() > 0 && p[0] == STAR && p[p.len() - 1] != STAR ==> (spec_matches_pattern(n, p) <==> (
            n.len() >= p.len() - 1 && forall|i: int| 0 <= i < p.len() - 1 ==> #[trigger] n[n.len() - (p.len() - 1) + i] == p[1 + i])),
        (p.len() == 0 || (p[0] != STAR && p[p.len() - 1] != STAR)) ==> (spec_matches_pattern(n, p) <==> n == p),
{
    if p.len() == 1 && p[0] == STAR {
        assert(p =~= seq![STAR]);
    }
    if p.len() > 1 && p[p.len() - 1] == STAR {
        assert(p != seq![STAR]);
        let q = p.drop_last();
        if spec_matches_pattern(n, p) {
            assert forall|i: int| 0 <= i < p.len() - 1 implies #[trigger] n[i] == p[i] by {
                assert(n.subrange(0, q.len() as int)[i] == q[i]);
            }
        }
        if n.len() >= p.len() - 1 && forall|i: int| 0 <= i < p.len() - 1 ==> #[trigger] n[i] == p[i] {
            assert(n.subrange(0, q.len() as int) =~= q);
        }
    }
    if p.len() > 0 && p[0] == STAR && p[p.len() - 1] != STAR {
        assert(p != seq![STAR]);
        let q = p.drop_first();
        if spec_matches_pattern(n, p) {
            assert forall|i: int| 0 <= i < p.len() - 1 implies #[trigger] n[n.len() - (p.len() - 1) + i] == p[1 + i] by {
                assert(n.subrange(n.len() - q.len(), n.len() as int)[i] == q[i]);
            }
        }
        if n.len() >= p.len() - 1 && forall|i: int| 0 <= i < p.len() - 1 ==> #[trigger] n[n.len() - (p.len() - 1) + i] == p[1 + i] {
            assert forall|i: int| 0 <= i < q.len() implies #[trigger] n.subrange(n.len() - q.len(), n.len() as int)[i] == q[i] by {
                assert(n[n.len() - (p.len() - 1) + i] == p[1 + i]);
            }
            assert(n.subrange(n.len() - q.len(), n.len() as int) =~= q);
        }
    }
    if p.len() > 0 && p[0] != STAR && p[p.len() - 1] != STAR {
        assert(p != seq![STAR]);
    }
}

/// Whether `s[from..from + len]` equals `t[at..at + len]`.
fn bytes_equal_at(s: &[u8], from: usize, t: &[u8], at: usize, len: usize) -> (b: bool)
    requires
        from + len <= s@.len(),
        at + len <= t@.len(),
    ensures
        b == (s@.subrange(from as int, from + len) == t@.subrange(at as int, at + len)),
{
    let sl = s.len();
    let tl = t.len();
    let mut i: usize = 0;
    while i < len
        invariant
            i <= len,
            sl == s@.len(),
            tl == t@.len(),
            from + len <= s@.len(),
            at + len <= t@.len(),
            forall|k: int| 0 <= k < i ==> #[trigger] s@.subrange(from as int, from + len)[k] == t@.subrange(at as int, at + len)[k],
        decreases len - i,
    {
        if s[from + i] != t[at + i] {
            assert(s@.subrange(from as int, from + len)[i as int] != t@.subrange(at as int, at + len)[i as int]);
            return false;
        }
        i = i + 1;
    }
    assert(s@.subrange(from as int, from + len) =~= t@.subrange(at as int, at + len));
    true
}

/// Simple glob matching of a test name against a pattern (see the module
/// description).
pub fn matches_pattern(name: &str, pattern: &str) -> (b: bool)
    ensures
        b == spec_matches_pattern(name.spec_bytes(), pattern.spec_bytes()),
        ({
            let n = name.spec_bytes();
            let p = pattern.spec_bytes();
            &&& p.len() == 1 && p[0] == STAR ==> b
            &&& p.len() > 1 && p[p.len() - 1] == STAR ==> (b <==> (
                n.len() >= p.len() - 1 && forall|i: int| 0 <= i < p.len() - 1 ==> #[trigger] n[i] == p[i]))
            &&& p.len() > 0 && p[0] == STAR && p[p.len() - 1] != STAR ==> (b <==> (
                n.len() >= p.len() - 1 && forall|i: int| 0 <= i < p.len() - 1 ==> #[trigger] n[n.len() - (p.len() - 1) + i] == p[1 + i]))
            &&& (p.len() == 0 || (p[0] != STAR && p[p.len() - 1] != STAR)) ==> (b <==> n == p)
        }),
{
    proof {
        lemma_matches_pattern(name.spec_bytes(), pattern.spec_bytes());
    }
    let n = name.as_bytes();
    let p = pattern.as_bytes();
    let nl = n.len();
    let pl = p.len();
    if pl == 1 && p[0] == STAR {
        assert(p@ =~= seq![STAR]);
        return true;
    }
    assert(p@ != seq![STAR]);
    if pl > 0 && p[pl - 1] == STAR {
        let plen = pl - 1;
        if plen > nl {
            return false;
        }
        let r = bytes_equal_at(n, 0, p, 0, plen);
        assert(p@.subrange(0, plen as int) =~= p@.drop_last());
        return r;
    }
    if pl > 0 && p[0] == STAR {
        let slen = pl - 1;
        if slen > nl {
            return false;
        }
        let r = bytes_equal_at(n, nl - slen, p, 1, slen);
        assert(p@.subrange(1, pl as int) =~= p@.drop_first());
        return r;
    }
    if pl != nl {
        return false;
    }
    let r = bytes_equal_at(n, 0, p, 0, pl);
    assert(n@.subrange(0, nl as int) =~= n@);
    assert(p@.subrange(0, pl as int) =~= p@);
    r
}

} // verus!
