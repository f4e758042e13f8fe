//! Filesystem-path texts and their canonical form.
//!
//! A path source is identified by its text after lexical normalization:
//! empty segments (from doubled separators) and `.` segments say nothing
//! about the location, so they are dropped before two paths are compared.
//! `..` segments are kept as written: folding them away lexically could
//! identify two paths that name different directories once symbolic links
//! are involved, so no claim is made about them.
//!
//! Only absolute paths are normalized; a relative text is left as it is,
//! and the descriptor constructors refuse it up front.

use vstd::prelude::*;

verus! {

/// Whether a path text is absolute: it starts at the filesystem root.
pub open spec fn is_abs(s: Seq<char>) -> bool {
    s.len() > 0 && s[0] == '/'
}

/// The segments of a path text: the pieces between `/` separators, in
/// order.  A text with `n` separators has `n + 1` segments, so leading,
/// trailing and doubled separators contribute empty segments.
pub open spec fn segs(s: Seq<char>) -> Seq<Seq<char>>
    decreases s.len(),
{
    if s.len() == 0 {
        seq![Seq::<char>::empty()]
    } else if s.last() == '/' {
        segs(s.drop_last()).push(Seq::<char>::empty())
    } else {
        let r = segs(s.drop_last());
        r.update(r.len() - 1, r.last().push(s.last()))
    }
}

/// Whether a segment contributes to the identity of a path.  Empty
/// segments and `.` segments do not.
pub open spec fn keep_seg(seg: Seq<char>) -> bool {
    seg.len() > 0 && seg != seq!['.']
}

/// The segments that contribute to the identity of a path, in order.
pub open spec fn kept_segs(ss: Seq<Seq<char>>) -> Seq<Seq<char>>
    decreases ss.len(),
{
    if ss.len() == 0 {
        Seq::<Seq<char>>::empty()
    } else {
        let r = kept_segs(ss.drop_last());
        if keep_seg(ss.last()) {
            r.push(ss.last())
        } else {
            r
        }
    }
}

/// The text that a list of segments renders to: each segment preceded by
/// one separator.
pub open spec fn render_segs(ss: Seq<Seq<char>>) -> Seq<char>
    decreases ss.len(),
{
    if ss.len() == 0 {
        Seq::<char>::empty()
    } else {
        render_segs(ss.drop_last()) + seq!['/'] + ss.last()
    }
}

/// The canonical form of an absolute path text: its kept segments rendered
/// back, or the bare root when nothing is kept.
pub open spec fn norm_path(s: Seq<char>) -> Seq<char> {
    if kept_segs(segs(s)).len() == 0 {
        seq!['/']
    } else {
        render_segs(kept_segs(segs(s)))
    }
}

/// The canonical form of any path text: absolute texts are normalized,
/// relative texts are left as written.
pub open spec fn canon_path(s: Seq<char>) -> Seq<char> {
    if is_abs(s) {
        norm_path(s)
    } else {
        s
    }
}

/// A path text always has at least one segment.
pub proof fn lemma_segs_nonempty(s: Seq<char>)
    ensures
        segs(s).len() >= 1,
    decreases s.len(),
{
    if s.len() > 0 {
        lemma_segs_nonempty(s.drop_last());
    }
}

/// Splitting distributes over a separator: the segments of `a / b` are the
/// segments of `a` followed by the segments of `b`.
pub proof fn lemma_segs_concat(a: Seq<char>, b: Seq<char>)
    ensures
        segs(a + seq!['/'] + b) == segs(a) + segs(b),
    decreases b.len(),
{
    lemma_segs_nonempty(a);
    if b.len() == 0 {
        let w = a + seq!['/'] + b;
        assert(w =~= (a + seq!['/']));
        assert((a + seq!['/']).last() == '/');
        assert((a + seq!['/']).drop_last() =~= a);
        assert(segs(w) =~= segs(a) + segs(b));
    } else {
        lemma_segs_concat(a, b.drop_last());
        lemma_segs_nonempty(b.drop_last());
        let w = a + seq!['/'] + b;
        let w0 = a + seq!['/'] + b.drop_last();
        assert(w.drop_last() =~= w0);
        assert(w.last() == b.last());
        if b.last() == '/' {
            assert(segs(w) == segs(w0).push(Seq::<char>::empty()));
            assert(segs(b) == segs(b.drop_last()).push(Seq::<char>::empty()));
            assert(segs(w) =~= segs(a) + segs(b));
        } else {
            let r = segs(w0);
            let rb = segs(b.drop_last());
            assert(r == segs(a) + rb);
            assert(r.last() == rb.last());
            assert(segs(w) == r.update(r.len() - 1, r.last().push(b.last())));
            assert(segs(b) == rb.update(rb.len() - 1, rb.last().push(b.last())));
            assert(segs(w) =~= segs(a) + segs(b));
        }
    }
}

/// Keeping distributes over concatenation of segment lists.
pub proof fn lemma_kept_concat(a: Seq<Seq<char>>, b: Seq<Seq<char>>)
    ensures
        kept_segs(a + b) == kept_segs(a) + kept_segs(b),
    decreases b.len(),
{
    if b.len() == 0 {
        assert(a + b =~= a);
        assert(kept_segs(a + b) =~= kept_segs(a) + kept_segs(b));
    } else {
        lemma_kept_concat(a, b.drop_last());
        let w = a + b;
        assert(w.drop_last() =~= a + b.drop_last());
        assert(w.last() == b.last());
        assert(kept_segs(a + b) =~= kept_segs(a) + kept_segs(b));
    }
}

/// A lone segment that does not matter keeps nothing.
proof fn lemma_kept_single_dropped(seg: Seq<char>)
    requires
        !keep_seg(seg),
    ensures
        kept_segs(seq![seg]) == Seq::<Seq<char>>::empty(),
{
    let one = seq![seg];
    assert(one.last() == seg);
    assert(one.drop_last() =~= Seq::<Seq<char>>::empty());
    assert(kept_segs(Seq::<Seq<char>>::empty()) == Seq::<Seq<char>>::empty());
    assert(kept_segs(one) == kept_segs(one.drop_last()));
}

/// Law: a `.` segment in a path never changes its canonical form.  Writing
/// a location as `base/./rest` or as `base/rest` under the same absolute
/// base yields the same normalized path, hence the same source identity.
pub proof fn lemma_dot_segment_irrelevant(base: Seq<char>, rest: Seq<char>)
    ensures
        norm_path(base + seq!['/'] + (seq!['.', '/'] + rest)) == norm_path(base + seq!['/'] + rest),
{
    let dot = seq!['.'];
    let lhs = base + seq!['/'] + (seq!['.', '/'] + rest);
    assert(lhs =~= (base + seq!['/'] + dot) + seq!['/'] + rest);
    lemma_segs_concat(base + seq!['/'] + dot, rest);
    lemma_segs_concat(base, dot);
    assert(segs(dot) =~= seq![dot]) by {
        assert(dot.drop_last() =~= Seq::<char>::empty());
        assert(segs(dot) == segs(Seq::<char>::empty()).update(0, Seq::<char>::empty().push('.')));
        assert(Seq::<char>::empty().push('.') =~= dot);
    }
    assert(segs(lhs) == (segs(base) + seq![dot]) + segs(rest));
    lemma_segs_concat(base, rest);
    lemma_kept_concat(segs(base) + seq![dot], segs(rest));
    lemma_kept_concat(segs(base), seq![dot]);
    lemma_kept_concat(segs(base), segs(rest));
    assert(!keep_seg(dot));
    lemma_kept_single_dropped(dot);
    assert(kept_segs(segs(lhs)) == kept_segs(segs(base + seq!['/'] + rest)));
}

/// Law: an empty segment (a doubled separator) in a path never changes its
/// canonical form.
pub proof fn lemma_empty_segment_irrelevant(base: Seq<char>, rest: Seq<char>)
    ensures
        norm_path(base + seq!['/'] + (seq!['/'] + rest)) == norm_path(base + seq!['/'] + rest),
{
    let lhs = base + seq!['/'] + (seq!['/'] + rest);
    assert(lhs =~= (base + seq!['/'] + Seq::<char>::empty()) + seq!['/'] + rest);
    lemma_segs_concat(base + seq!['/'] + Seq::<char>::empty(), rest);
    lemma_segs_concat(base, Seq::<char>::empty());
    assert(segs(Seq::<char>::empty()) =~= seq![Seq::<char>::empty()]);
    assert(segs(lhs) == (segs(base) + seq![Seq::<char>::empty()]) + segs(rest));
    lemma_segs_concat(base, rest);
    lemma_kept_concat(segs(base) + seq![Seq::<char>::empty()], segs(rest));
    lemma_kept_concat(segs(base), seq![Seq::<char>::empty()]);
    lemma_kept_concat(segs(base), segs(rest));
    assert(!keep_seg(Seq::<char>::empty()));
    lemma_kept_single_dropped(Seq::<char>::empty());
    assert(kept_segs(segs(lhs)) == kept_segs(segs(base + seq!['/'] + rest)));
}

/// Relies on `String::push`: appends exactly the given character to the
/// string.
#[verifier::external_body]
fn push_char(s: &mut String, c: char)
    ensures
        final(s)@ == old(s)@.push(c),
{
    s.push(c);
}

/// The characters of a text, as a vector.
fn chars_vec(s: &str) -> (r: Vec<char>)
    ensures
        r@ == s@,
{
    broadcast use vstd::string::axiom_spec_iter;

    let mut out: Vec<char> = Vec::new();
    for c in it: s.chars()
        invariant
            it.seq() == s@,
            out@ == it.seq().take(it.index()),
    {
        out.push(c);
    }
    proof {
        assert(out@ =~= s@);
    }
    out
}

/// Whether a path text is absolute.
pub fn text_is_abs(s: &str) -> (b: bool)
    ensures
        b == is_abs(s@),
{
    let cs = chars_vec(s);
    cs.len() > 0 && cs[0] == '/'
}

/// The canonical form of a path text: an absolute path is rewritten
/// without empty and `.` segments, a relative path is returned unchanged.
#[verifier::loop_isolation(false)]
pub fn canonical_path_text(p: &str) -> (r: String)
    ensures
        r@ == canon_path(p@),
{
    let cs = chars_vec(p);
    if !(cs.len() > 0 && cs[0] == '/') {
        return p.to_owned();
    }
    let mut kept: Vec<Vec<char>> = Vec::new();
    let mut cur: Vec<char> = Vec::new();
    let ghost mut done: Seq<Seq<char>> = Seq::empty();
    proof {
        assert(cs@.take(0) =~= Seq::<char>::empty());
        assert(segs(cs@.take(0)) =~= done.push(cur@));
        assert(kept.deep_view() =~= kept_segs(done));
    }
    for i in 0..cs.len()
        invariant
            segs(cs@.take(i as int)) == done.push(cur@),
            kept.deep_view() == kept_segs(done),
    {
        let c = cs[i];
        proof {
            assert(cs@.take(i + 1).drop_last() =~= cs@.take(i as int));
            assert(cs@.take(i + 1).last() == c);
        }
        if c == '/' {
            let keep_it = seg_matters(&cur);
            proof {
                assert(segs(cs@.take(i + 1)) =~= (done.push(cur@)).push(Seq::<char>::empty()));
                assert((done.push(cur@)).drop_last() =~= done);
                assert(kept_segs(done.push(cur@)) == if keep_seg(cur@) {
                    kept_segs(done).push(cur@)
                } else {
                    kept_segs(done)
                });
            }
            if keep_it {
                let ghost pre = kept.deep_view();
                kept.push(cur);
                proof {
                    assert(cur.deep_view() =~= cur@);
                    assert(kept.deep_view() =~= pre.push(cur@));
                }
            }
            proof {
                done = done.push(cur@);
            }
            cur = Vec::new();
        } else {
            let ghost old_cur = cur@;
            cur.push(c);
            proof {
                let full = done.push(old_cur);
                assert(segs(cs@.take(i + 1)) == full.update(full.len() - 1, full.last().push(c)));
                assert(full.update(full.len() - 1, full.last().push(c)) =~= done.push(old_cur.push(c)));
            }
        }
    }
    proof {
        assert(cs@.take(cs@.len() as int) =~= cs@);
    }
    let keep_last = seg_matters(&cur);
    proof {
        assert((done.push(cur@)).drop_last() =~= done);
        assert(kept_segs(done.push(cur@)) == if keep_seg(cur@) {
            kept_segs(done).push(cur@)
        } else {
            kept_segs(done)
        });
    }
    if keep_last {
        let ghost pre = kept.deep_view();
        kept.push(cur);
        proof {
            assert(cur.deep_view() =~= cur@);
            assert(kept.deep_view() =~= pre.push(cur@));
        }
    }
    proof {
        assert(kept.deep_view() == kept_segs(segs(p@)));
    }
    let mut out: Vec<char> = Vec::new();
    if kept.len() == 0 {
        out.push('/');
    } else {
        for j in 0..kept.len()
            invariant
                out@ == render_segs(kept.deep_view().take(j as int)),
        {
            proof {
                assert(kept.deep_view().take(j + 1).drop_last() =~= kept.deep_view().take(j as int));
                assert(kept.deep_view().take(j + 1).last() == kept.deep_view()[j as int]);
            }
            out.push('/');
            let ghost before_seg = out@;
            let seg_len = kept[j].len();
            for k in 0..seg_len
                invariant
                    out@ == before_seg + kept.deep_view()[j as int].take(k as int),
            {
                out.push(kept[j][k]);
                proof {
                    assert(kept.deep_view()[j as int].take(k + 1) =~= kept.deep_view()[j as int].take(k as int).push(kept[j as int]@[k as int]));
                }
            }
            proof {
                assert(kept.deep_view()[j as int].take(seg_len as int) =~= kept.deep_view()[j as int]);
                assert(out@ =~= render_segs(kept.deep_view().take(j + 1)));
            }
        }
        proof {
            assert(kept.deep_view().take(kept.deep_view().len() as int) =~= kept.deep_view());
        }
    }
    let mut rendered = String::new();
    for idx in 0..out.len()
        invariant
            rendered@ == out@.take(idx as int),
    {
        push_char(&mut rendered, out[idx]);
        proof {
            assert(out@.take(idx + 1) =~= out@.take(idx as int).push(out@[idx as int]));
        }
    }
    proof {
        assert(out@.take(out@.len() as int) =~= out@);
    }
    rendered
}

/// Whether a finished segment contributes to the identity of a path.
fn seg_matters(seg: &Vec<char>) -> (b: bool)
    ensures
        b == keep_seg(seg@),
{
    if seg.len() == 0 {
        false
    } else if seg.len() == 1 && seg[0] == '.' {
        proof {
            assert(seg@ =~= seq!['.']);
        }
        false
    } else {
        proof {
            if seg@.len() == 1 {
                assert(seg@[0] != '.');
                assert(seg@ != seq!['.']);
            } else {
                assert(seg@.len() != seq!['.'].len());
            }
        }
        true
    }
}

} // verus!
