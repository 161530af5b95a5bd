//! Spec-level building blocks of the wire text: a quoted bare tag
//! (`"Tag"`), a single-key tagged object (`{"Tag":<middle>}`), and the
//! partial inverses that recover the middle part from such a text.
use vstd::prelude::*;

verus! {

/// `"tag"` — the form a payload-free message kind takes on the wire.
pub open spec fn quoted(tag: Seq<char>) -> Seq<char> {
    seq!['"'] + tag + seq!['"']
}

/// `{"tag":` — the opening of a single-key tagged object.
pub open spec fn header(tag: Seq<char>) -> Seq<char> {
    seq!['{', '"'] + tag + seq!['"', ':']
}

/// `{"tag":mid}` — the form a payload-carrying message kind takes on the wire.
pub open spec fn tagged(tag: Seq<char>, mid: Seq<char>) -> Seq<char> {
    header(tag) + mid + seq!['}']
}

/// Recovers the middle part of `tagged(tag, mid)`; `None` on any text that
/// does not open with `{"tag":` and close with `}`.
pub open spec fn strip_tagged(tag: Seq<char>, t: Seq<char>) -> Option<Seq<char>> {
    if t.len() >= tag.len() + 5 && t.subrange(0, tag.len() as int + 4) == header(tag) && t.last() == '}' {
        Some(t.subrange(tag.len() as int + 4, t.len() as int - 1))
    } else {
        None
    }
}

/// Drops a required literal prefix; `None` where the text does not start with it.
pub open spec fn strip_pre(p: Seq<char>, t: Seq<char>) -> Option<Seq<char>> {
    if t.len() >= p.len() && t.subrange(0, p.len() as int) == p {
        Some(t.subrange(p.len() as int, t.len() as int))
    } else {
        None
    }
}

pub proof fn lemma_strip_pre_concat(p: Seq<char>, rest: Seq<char>)
    ensures
        strip_pre(p, p + rest) == Some(rest),
{
    let t = p + rest;
    assert(t.subrange(0, p.len() as int) =~= p);
    assert(t.subrange(p.len() as int, t.len() as int) =~= rest);
}

/// Stripping the tag a text was built with yields exactly the middle part.
pub proof fn lemma_strip_tagged_some(tag: Seq<char>, mid: Seq<char>)
    ensures
        strip_tagged(tag, tagged(tag, mid)) == Some(mid),
{
    let t = tagged(tag, mid);
    assert(t.len() == tag.len() + 5 + mid.len());
    assert(t.subrange(0, tag.len() as int + 4) =~= header(tag));
    assert(t.last() == '}');
    assert(t.subrange(tag.len() as int + 4, t.len() as int - 1) =~= mid);
}

/// Stripping a different tag fails, witnessed by one position where the two
/// tags disagree.
pub proof fn lemma_strip_tagged_diff_at(a: Seq<char>, b: Seq<char>, mid: Seq<char>, k: int)
    requires
        0 <= k < a.len(),
        k < b.len(),
        a[k] != b[k],
    ensures
        strip_tagged(b, tagged(a, mid)) == None::<Seq<char>>,
{
    let t = tagged(a, mid);
    if strip_tagged(b, t) is Some {
        let pre = t.subrange(0, b.len() as int + 4);
        assert(pre == header(b));
        assert(pre[k + 2] == header(b)[k + 2]);
        assert(header(b)[k + 2] == b[k]);
        assert(t[k + 2] == a[k]);
        assert(pre[k + 2] == t[k + 2]);
    }
}

/// Stripping a strict extension of the tag a text was built with fails:
/// where the longer tag goes on, the text already holds a closing quote.
pub proof fn lemma_strip_tagged_longer(a: Seq<char>, b: Seq<char>, mid: Seq<char>)
    requires
        a.len() < b.len(),
        b[a.len() as int] != '"',
    ensures
        strip_tagged(b, tagged(a, mid)) == None::<Seq<char>>,
{
    let t = tagged(a, mid);
    let i = a.len() as int + 2;
    if strip_tagged(b, t) is Some {
        let pre = t.subrange(0, b.len() as int + 4);
        assert(pre == header(b));
        assert(pre[i] == header(b)[i]);
        assert(header(b)[i] == b[a.len() as int]);
        assert(t[i] == '"');
        assert(pre[i] == t[i]);
    }
}

/// Stripping a strict prefix of the tag a text was built with fails: the
/// shorter header demands a closing quote where the longer tag goes on.
pub proof fn lemma_strip_tagged_shorter(a: Seq<char>, b: Seq<char>, mid: Seq<char>)
    requires
        b.len() < a.len(),
        a[b.len() as int] != '"',
    ensures
        strip_tagged(b, tagged(a, mid)) == None::<Seq<char>>,
{
    let t = tagged(a, mid);
    let i = b.len() as int + 2;
    if strip_tagged(b, t) is Some {
        let pre = t.subrange(0, b.len() as int + 4);
        assert(pre == header(b));
        assert(pre[i] == header(b)[i]);
        assert(header(b)[i] == '"');
        assert(t[i] == a[b.len() as int]);
        assert(pre[i] == t[i]);
    }
}

/// A tagged object never equals a quoted bare tag: one opens with a brace,
/// the other with a quote.
pub proof fn lemma_tagged_ne_quoted(tag: Seq<char>, mid: Seq<char>, q: Seq<char>)
    ensures
        tagged(tag, mid) != quoted(q),
{
    assert(tagged(tag, mid)[0] == '{');
    assert(quoted(q)[0] == '"');
}

/// Two quoted bare tags are equal exactly when the tags are.
pub proof fn lemma_quoted_ne(a: Seq<char>, b: Seq<char>)
    requires
        a != b,
    ensures
        quoted(a) != quoted(b),
{
    if quoted(a) == quoted(b) {
        assert(quoted(a).len() == a.len() + 2);
        assert(quoted(b).len() == b.len() + 2);
        assert(a.len() == b.len());
        assert forall|i: int| 0 <= i < a.len() implies a[i] == b[i] by {
            assert(quoted(a)[i + 1] == a[i]);
            assert(quoted(b)[i + 1] == b[i]);
        }
        assert(a =~= b);
    }
}

} // verus!
