//! Substitution of the `{}` placeholder in a command template.
//!
//! Filename mode builds the command text by replacing every literal
//! occurrence of the two-character token `{}` in the template with the
//! file's path; no other part of the template is altered.
use vstd::prelude::*;

verus! {

/// The command text that results from replacing, left to right, every
/// occurrence of the two-character token `{}` in `t` with `p`.
pub open spec fn subst(t: Seq<char>, p: Seq<char>) -> Seq<char>
    decreases t.len(),
{
    if t.len() == 0 {
        Seq::empty()
    } else if t.len() >= 2 && t[0] == '{' && t[1] == '}' {
        p + subst(t.skip(2), p)
    } else {
        seq![t[0]] + subst(t.skip(1), p)
    }
}

/// Replace every occurrence of `{}` in `template` with `path`.
pub fn substitute(template: &str, path: &str) -> (r: String)
    ensures
        r@ == subst(template@, path@),
{
    let n = template.unicode_len();
    let mut out = String::new();
    proof {
        assert(template@.skip(0) =~= template@);
        assert(out@ + subst(template@, path@) =~= subst(template@, path@));
    }
    let mut i: usize = 0;
    while i < n
        invariant
            n == template@.len(),
            i <= n,
            out@ + subst(template@.skip(i as int), path@) == subst(template@, path@),
        decreases n - i,
    {
        let ghost t = template@;
        let ghost p = path@;
        let ghost prev = out@;
        if i + 1 < n && template.get_char(i) == '{' && template.get_char(i + 1) == '}' {
            out.append(path);
            proof {
                let s = t.skip(i as int);
                assert(s.len() >= 2);
                assert(s[0] == '{' && s[1] == '}');
                assert(s.skip(2) =~= t.skip(i + 2));
                assert(subst(s, p) == p + subst(t.skip(i + 2), p));
                assert((prev + p) + subst(t.skip(i + 2), p) =~= prev + (p + subst(
                    t.skip(i + 2),
                    p,
                )));
            }
            i = i + 2;
        } else {
            let piece = template.substring_char(i, i + 1);
            out.append(piece);
            proof {
                let s = t.skip(i as int);
                assert(s.len() >= 1);
                assert(s[0] == t[i as int]);
                assert(!(s.len() >= 2 && s[0] == '{' && s[1] == '}'));
                assert(s.skip(1) =~= t.skip(i + 1));
                assert(subst(s, p) == seq![t[i as int]] + subst(t.skip(i + 1), p));
                assert(piece@ =~= seq![t[i as int]]);
                assert((prev + piece@) + subst(t.skip(i + 1), p) =~= prev + (seq![t[i as int]]
                    + subst(t.skip(i + 1), p)));
            }
            i = i + 1;
        }
    }
    proof {
        assert(template@.skip(n as int) =~= Seq::<char>::empty());
        assert(out@ + Seq::<char>::empty() =~= out@);
    }
    out
}

/// A template that nowhere holds the token `{}` comes through substitution
/// unchanged: nothing but the placeholder is altered.
pub proof fn lemma_subst_no_placeholder(t: Seq<char>, p: Seq<char>)
    requires
        forall|i: int| 0 <= i < t.len() - 1 ==> !(#[trigger] t[i] == '{' && t[i + 1] == '}'),
    ensures
        subst(t, p) == t,
    decreases t.len(),
{
    if t.len() == 0 {
        assert(subst(t, p) =~= t);
    } else {
        assert(!(t.len() >= 2 && t[0] == '{' && t[1] == '}'));
        let rest = t.skip(1);
        assert(forall|i: int| 0 <= i < rest.len() - 1 ==> !(#[trigger] rest[i] == '{' && rest[i + 1] == '}'))
            by {
            assert(forall|i: int|
                0 <= i < rest.len() - 1 ==> #[trigger] rest[i] == t[i + 1] && rest[i + 1] == t[i + 2]);
        }
        lemma_subst_no_placeholder(rest, p);
        assert(seq![t[0]] + rest =~= t);
    }
}

/// A template that is exactly the token `{}` is replaced by the path whole.
pub proof fn lemma_subst_lone_placeholder(t: Seq<char>, p: Seq<char>)
    requires
        t.len() == 2,
        t[0] == '{',
        t[1] == '}',
    ensures
        subst(t, p) == p,
{
    assert(t.skip(2) =~= Seq::<char>::empty());
    assert(subst(t.skip(2), p) =~= Seq::<char>::empty());
    assert(p + Seq::<char>::empty() =~= p);
}

} // verus!
