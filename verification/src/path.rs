//! Normalization of a resolved path.
//!
//! Canonicalizing a path on the host platform may yield a verbatim form
//! carrying the marker `\\?\`, which the downstream file-open service
//! rejects.  The normalizer removes every occurrence of that marker,
//! scanning left to right without overlap, exactly as a replace-all with
//! the empty string would.

use vstd::prelude::*;

verus! {

/// Whether the verbatim marker `\\?\` occurs in `s` starting at position
/// `i`.
pub open spec fn marker_at(s: Seq<char>, i: int) -> bool {
    &&& 0 <= i
    &&& i + 4 <= s.len()
    &&& s[i] == '\\'
    &&& s[i + 1] == '\\'
    &&& s[i + 2] == '?'
    &&& s[i + 3] == '\\'
}

/// `s` with every occurrence of the verbatim marker removed, scanning left
/// to right without overlap.
pub open spec fn strip_verbatim(s: Seq<char>) -> Seq<char>
    decreases s.len(),
{
    if s.len() == 0 {
        s
    } else if marker_at(s, 0) {
        strip_verbatim(s.skip(4))
    } else {
        seq![s[0]] + strip_verbatim(s.skip(1))
    }
}

/// Unfolds one scanning step of `strip_verbatim` at position `i` of `s`:
/// what remains to be stripped either loses a whole marker or keeps its
/// first character.
proof fn lemma_strip_step(s: Seq<char>, i: int)
    requires
        0 <= i < s.len(),
    ensures
        marker_at(s, i) ==> strip_verbatim(s.skip(i)) == strip_verbatim(s.skip(i + 4)),
        !marker_at(s, i) ==> strip_verbatim(s.skip(i)) == seq![s[i]] + strip_verbatim(s.skip(i + 1)),
{
    let rest = s.skip(i);
    assert(rest.len() == s.len() - i);
    assert(rest[0] == s[i]);
    if marker_at(s, i) {
        assert(marker_at(rest, 0)) by {
            assert(rest[1] == s[i + 1]);
            assert(rest[2] == s[i + 2]);
            assert(rest[3] == s[i + 3]);
        }
        assert(rest.skip(4) =~= s.skip(i + 4));
    } else {
        assert(!marker_at(rest, 0)) by {
            if rest.len() >= 4 {
                assert(rest[1] == s[i + 1]);
                assert(rest[2] == s[i + 2]);
                assert(rest[3] == s[i + 3]);
            }
        }
        assert(rest.skip(1) =~= s.skip(i + 1));
    }
}

/// A path in which the verbatim marker occurs nowhere is left exactly as
/// it is by the normalizer.
pub proof fn lemma_unmarked_path_is_unchanged(s: Seq<char>)
    requires
        forall|i: int| !marker_at(s, i),
    ensures
        strip_verbatim(s) == s,
    decreases s.len(),
{
    if s.len() > 0 {
        assert(!marker_at(s, 0));
        let rest = s.skip(1);
        assert forall|i: int| !marker_at(rest, i) by {
            if 0 <= i && i + 4 <= rest.len() {
                assert(rest[i] == s[i + 1]);
                assert(rest[i + 1] == s[i + 2]);
                assert(rest[i + 2] == s[i + 3]);
                assert(rest[i + 3] == s[i + 4]);
                assert(!marker_at(s, i + 1));
            }
        }
        lemma_unmarked_path_is_unchanged(rest);
        assert(seq![s[0]] + rest =~= s);
    }
}

/// Normalizing never lengthens a path.
pub proof fn lemma_strip_never_grows(s: Seq<char>)
    ensures
        strip_verbatim(s).len() <= s.len(),
    decreases s.len(),
{
    if s.len() == 0 {
    } else if marker_at(s, 0) {
        lemma_strip_never_grows(s.skip(4));
    } else {
        lemma_strip_never_grows(s.skip(1));
    }
}

/// Removes every occurrence of the verbatim marker `\\?\` from `path`.
pub fn strip_verbatim_prefix(path: &str) -> (r: String)
    ensures
        r@ == strip_verbatim(path@),
{
    let n: usize = path.unicode_len();
    let mut out = String::new();
    let mut i: usize = 0;
    proof {
        assert(path@.skip(0) =~= path@);
    }
    while i < n
        invariant
            n == path@.len(),
            i <= n,
            strip_verbatim(path@) == out@ + strip_verbatim(path@.skip(i as int)),
        decreases n - i,
    {
        let marker_here: bool = n - i >= 4 && path.get_char(i) == '\\' && path.get_char(i + 1)
            == '\\' && path.get_char(i + 2) == '?' && path.get_char(i + 3) == '\\';
        if marker_here {
            proof {
                assert(marker_at(path@, i as int));
                lemma_strip_step(path@, i as int);
            }
            i = i + 4;
        } else {
            let piece: &str = path.substring_char(i, i + 1);
            out.append(piece);
            proof {
                assert(!marker_at(path@, i as int));
                lemma_strip_step(path@, i as int);
                assert(piece@ =~= seq![path@[i as int]]);
            }
            i = i + 1;
        }
    }
    proof {
        assert(path@.skip(n as int) =~= Seq::<char>::empty());
        assert(strip_verbatim(path@.skip(n as int)) =~= Seq::<char>::empty());
        assert(out@ =~= out@ + Seq::<char>::empty());
    }
    out
}

} // verus!
