//! Path-fragment text handling.
//!
//! The address bar stores the current view as a hash fragment such as
//! `#/project/7`.  This module trims the `#/` marker, splits the remainder
//! into `/`-separated segments (a single trailing separator is dropped,
//! as browsers leave one behind), and offers plain string equality, each
//! verified against a spec function over character sequences.

use vstd::prelude::*;
use vstd::string::StrSliceExecFns;

verus! {

/// Whether the character sequences `a` and `b` are equal, decided in
/// executable code.
pub fn str_eq(a: &str, b: &str) -> (r: bool)
    ensures
        r == (a@ == b@),
{
    let la = a.unicode_len();
    let lb = b.unicode_len();
    if la != lb {
        return false;
    }
    let mut i: usize = 0;
    while i < la
        invariant
            0 <= i <= la,
            la == a@.len(),
            la == b@.len(),
            forall|k: int| 0 <= k < i ==> a@[k] == b@[k],
        decreases la - i,
    {
        if a.get_char(i) != b.get_char(i) {
            return false;
        }
        i = i + 1;
    }
    proof {
        assert(a@ =~= b@);
    }
    true
}

/// The fragment with every leading `#/` marker removed.
pub open spec fn trim_route_prefix(s: Seq<char>) -> Seq<char>
    decreases s.len(),
{
    if s.len() >= 2 && s[0] == '#' && s[1] == '/' {
        trim_route_prefix(s.subrange(2, s.len() as int))
    } else {
        s
    }
}

/// The `/`-separated segments of `s`, one trailing separator dropped: an
/// empty fragment has no segments, and a fragment that ends in `/` yields
/// the same segments as without it.
pub open spec fn split_slash(s: Seq<char>) -> Seq<Seq<char>>
    decreases s.len(),
{
    if s.len() == 0 {
        Seq::empty()
    } else if s[0] == '/' {
        seq![Seq::<char>::empty()] + split_slash(s.subrange(1, s.len() as int))
    } else {
        let rest = split_slash(s.subrange(1, s.len() as int));
        if rest.len() == 0 {
            seq![seq![s[0]]]
        } else {
            seq![seq![s[0]] + rest[0]] + rest.skip(1)
        }
    }
}

/// A fragment that starts with an unbroken run of non-separator characters
/// up to a separator at `k` splits into that head segment and the split of
/// what follows the separator.
pub proof fn lemma_split_head(s: Seq<char>, k: int)
    requires
        0 <= k < s.len(),
        s[k] == '/',
        forall|i: int| 0 <= i < k ==> s[i] != '/',
    ensures
        split_slash(s) == seq![s.subrange(0, k)] + split_slash(
            s.subrange(k + 1, s.len() as int),
        ),
    decreases k,
{
    if k == 0 {
        assert(s.subrange(0, 0) =~= Seq::<char>::empty());
        assert(split_slash(s) =~= seq![s.subrange(0, 0)] + split_slash(
            s.subrange(1, s.len() as int),
        ));
    } else {
        let t = s.subrange(1, s.len() as int);
        lemma_split_head(t, k - 1);
        assert(t.subrange(k, t.len() as int) =~= s.subrange(k + 1, s.len() as int));
        let rest = split_slash(t);
        assert(rest == seq![t.subrange(0, k - 1)] + split_slash(t.subrange(k, t.len() as int)));
        assert(rest.len() >= 1);
        assert(rest[0] == t.subrange(0, k - 1));
        assert(seq![s[0]] + t.subrange(0, k - 1) =~= s.subrange(0, k));
        assert(rest.skip(1) =~= split_slash(s.subrange(k + 1, s.len() as int)));
        assert(split_slash(s) =~= seq![s.subrange(0, k)] + split_slash(
            s.subrange(k + 1, s.len() as int),
        ));
    }
}

/// A fragment without separators is its own single segment (or nothing,
/// when empty).
pub proof fn lemma_split_unbroken(s: Seq<char>)
    requires
        forall|i: int| 0 <= i < s.len() ==> s[i] != '/',
    ensures
        split_slash(s) == if s.len() == 0 {
            Seq::<Seq<char>>::empty()
        } else {
            seq![s]
        },
    decreases s.len(),
{
    if s.len() > 0 {
        let t = s.subrange(1, s.len() as int);
        lemma_split_unbroken(t);
        if t.len() == 0 {
            assert(seq![s[0]] =~= s);
        } else {
            assert(seq![s[0]] + t =~= s);
            assert(split_slash(s) =~= seq![s]);
        }
    }
}

/// The segments of the fragment `raw`, after trimming the leading `#/`
/// marker: what the router consumes.
pub fn split_hash_path(raw: &str) -> (segs: Vec<String>)
    ensures
        segs.deep_view() == split_slash(trim_route_prefix(raw@)),
{
    let len = raw.unicode_len();
    let mut start: usize = 0;
    proof {
        assert(raw@.subrange(0, len as int) =~= raw@);
    }
    while start < len
        invariant
            0 <= start <= len,
            len == raw@.len(),
            trim_route_prefix(raw@) == trim_route_prefix(raw@.subrange(start as int, len as int)),
        ensures
            0 <= start <= len,
            len == raw@.len(),
            trim_route_prefix(raw@) == trim_route_prefix(raw@.subrange(start as int, len as int)),
            len - start >= 2 ==> !(raw@[start as int] == '#' && raw@[start as int + 1] == '/'),
        decreases len - start,
    {
        if start + 1 >= len {
            break;
        }
        let c0 = raw.get_char(start);
        let c1 = raw.get_char(start + 1);
        if !(c0 == '#' && c1 == '/') {
            break;
        }
        proof {
            let cur = raw@.subrange(start as int, len as int);
            assert(cur.subrange(2, cur.len() as int) =~= raw@.subrange(
                start + 2,
                len as int,
            ));
        }
        start = start + 2;
    }
    proof {
        let cur = raw@.subrange(start as int, len as int);
        assert(!(cur.len() >= 2 && cur[0] == '#' && cur[1] == '/'));
        assert(trim_route_prefix(cur) == cur);
    }
    let rest = raw.substring_char(start, len);
    split_slash_str(rest)
}

/// The `/`-separated segments of `s`, as owned strings.
fn split_slash_str(s: &str) -> (segs: Vec<String>)
    ensures
        segs.deep_view() == split_slash(s@),
{
    let len = s.unicode_len();
    let mut segs: Vec<String> = Vec::new();
    let mut seg_start: usize = 0;
    let mut j: usize = 0;
    proof {
        assert(s@.subrange(0, len as int) =~= s@);
        assert(segs.deep_view() =~= Seq::<Seq<char>>::empty());
        assert(segs.deep_view() + split_slash(s@) =~= split_slash(s@));
    }
    while j < len
        invariant
            0 <= seg_start <= j <= len,
            len == s@.len(),
            forall|i: int| seg_start <= i < j ==> s@[i] != '/',
            split_slash(s@) == segs.deep_view() + split_slash(
                s@.subrange(seg_start as int, len as int),
            ),
        decreases len - j,
    {
        let c = s.get_char(j);
        if c == '/' {
            let piece = s.substring_char(seg_start, j).to_owned();
            proof {
                let tail = s@.subrange(seg_start as int, len as int);
                lemma_split_head(tail, j - seg_start);
                assert(tail.subrange(0, j - seg_start) =~= s@.subrange(
                    seg_start as int,
                    j as int,
                ));
                assert(tail.subrange(j - seg_start + 1, tail.len() as int) =~= s@.subrange(
                    j + 1,
                    len as int,
                ));
            }
            let ghost old_dv = segs.deep_view();
            segs.push(piece);
            proof {
                assert(segs.deep_view() =~= old_dv.push(piece@));
                assert(old_dv.push(piece@) =~= old_dv + seq![piece@]);
                assert(split_slash(s@) =~= segs.deep_view() + split_slash(
                    s@.subrange(j + 1, len as int),
                ));
            }
            seg_start = j + 1;
        }
        j = j + 1;
    }
    if seg_start < len {
        let piece = s.substring_char(seg_start, len).to_owned();
        proof {
            lemma_split_unbroken(s@.subrange(seg_start as int, len as int));
        }
        let ghost old_dv = segs.deep_view();
        segs.push(piece);
        proof {
            assert(segs.deep_view() =~= old_dv.push(piece@));
            assert(segs.deep_view() =~= split_slash(s@));
        }
    } else {
        proof {
            assert(s@.subrange(seg_start as int, len as int) =~= Seq::<char>::empty());
            assert(segs.deep_view() =~= segs.deep_view() + split_slash(
                s@.subrange(seg_start as int, len as int),
            ));
        }
    }
    segs
}

} // verus!
