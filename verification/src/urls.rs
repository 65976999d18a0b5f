//! Canonicalization of video links before they are handed to the helper:
//! a short `youtu.be/` link becomes a full watch link, and the short
//! link's query separator becomes an additional watch-URL parameter.

use vstd::prelude::*;
use vstd::string::StrSliceExecFns;
use vstd::string::StringExecFns;
use crate::text::{chars_of, extend_chars, range_eq_str, string_from_chars};

verus! {

/// The pattern stands at position `i` of `s`.
pub open spec fn occurs_at(s: Seq<char>, pat: Seq<char>, i: int) -> bool {
    0 <= i && i + pat.len() <= s.len() && s.subrange(i, i + pat.len()) == pat
}

/// The pattern stands somewhere in `s`.
pub open spec fn contains_seq(s: Seq<char>, pat: Seq<char>) -> bool {
    exists|i: int| occurs_at(s, pat, i)
}

/// Every occurrence of `pat` replaced by `to`, leftmost first and
/// without overlap, as the usual string replacement does it. An empty
/// pattern replaces nothing.
pub open spec fn replace_all(s: Seq<char>, pat: Seq<char>, to: Seq<char>) -> Seq<char>
    decreases s.len(),
{
    if pat.len() == 0 {
        s
    } else if s.len() < pat.len() {
        s
    } else if s.take(pat.len() as int) == pat {
        to + replace_all(s.skip(pat.len() as int), pat, to)
    } else {
        seq![s[0]] + replace_all(s.skip(1), pat, to)
    }
}

/// What the helper is handed: a link that names `youtu.be/` is rewritten
/// by first turning `?` into `&` and then `youtu.be/` into
/// `youtube.com/watch?v=`; any other link goes through unchanged.
pub open spec fn canonical_url(url: Seq<char>) -> Seq<char> {
    if contains_seq(url, "youtu.be/"@) {
        replace_all(replace_all(url, "?"@, "&"@), "youtu.be/"@, "youtube.com/watch?v="@)
    } else {
        url
    }
}

/// True when the pattern stands somewhere in the text.
fn contains_pat(v: &Vec<char>, pat: &str) -> (r: bool)
    requires
        pat@.len() > 0,
    ensures
        r == contains_seq(v@, pat@),
{
    let len: usize = v.len();
    let plen: usize = pat.unicode_len();
    if plen > len {
        proof {
            assert forall|j: int| !(#[trigger] occurs_at(v@, pat@, j)) by {};
        }
        return false;
    }
    let mut i: usize = 0;
    while i <= len - plen
        invariant
            plen == pat@.len(),
            1 <= plen <= len,
            len == v@.len(),
            i <= len - plen + 1,
            forall|j: int| 0 <= j < i ==> !(#[trigger] occurs_at(v@, pat@, j)),
        decreases len - plen + 1 - i,
    {
        if range_eq_str(v, i, i + plen, pat) {
            proof {
                assert(occurs_at(v@, pat@, i as int));
            }
            return true;
        }
        proof {
            assert(!occurs_at(v@, pat@, i as int));
        }
        i = i + 1;
    }
    proof {
        assert forall|j: int| !(#[trigger] occurs_at(v@, pat@, j)) by {
            if 0 <= j && j + pat@.len() <= v@.len() {
                assert(j < i);
            }
        };
    }
    false
}

/// Replaces every occurrence of `pat` in `v` by `to`, leftmost first.
fn replace_pat(v: &Vec<char>, pat: &str, to: &str) -> (r: Vec<char>)
    requires
        pat@.len() > 0,
    ensures
        r@ == replace_all(v@, pat@, to@),
{
    let len: usize = v.len();
    let plen: usize = pat.unicode_len();
    let mut out: Vec<char> = Vec::new();
    let mut i: usize = 0;
    proof {
        assert(v@.skip(0) =~= v@);
        assert(out@ + replace_all(v@, pat@, to@) =~= replace_all(v@, pat@, to@));
    }
    while i < len
        invariant
            plen == pat@.len(),
            plen > 0,
            len == v@.len(),
            i <= len,
            out@ + replace_all(v@.skip(i as int), pat@, to@) == replace_all(v@, pat@, to@),
        decreases len - i,
    {
        let ghost rest = v@.skip(i as int);
        if plen <= len - i && range_eq_str(v, i, i + plen, pat) {
            let ghost before = out@;
            extend_chars(&mut out, to);
            proof {
                assert(rest.take(plen as int) =~= v@.subrange(i as int, i + plen));
                assert(rest.take(plen as int) == pat@);
                assert(rest.skip(plen as int) =~= v@.skip(i + plen));
                assert(replace_all(rest, pat@, to@) == to@ + replace_all(
                    v@.skip(i + plen),
                    pat@,
                    to@,
                ));
                assert(out@ + replace_all(v@.skip(i + plen), pat@, to@) =~= before + replace_all(
                    rest,
                    pat@,
                    to@,
                ));
            }
            i = i + plen;
        } else {
            let ghost before = out@;
            out.push(v[i]);
            proof {
                if plen <= len - i {
                    assert(rest.take(plen as int) =~= v@.subrange(i as int, i + plen));
                    assert(rest.take(plen as int) != pat@);
                } else {
                    assert(rest.len() < pat@.len());
                }
                assert(rest.skip(1) =~= v@.skip(i + 1));
                assert(rest[0] == v@[i as int]);
                if rest.len() < pat@.len() {
                    assert(v@.skip(i + 1) =~= rest.skip(1));
                    assert(replace_all(rest, pat@, to@) == rest);
                    assert(replace_all(v@.skip(i + 1), pat@, to@) == v@.skip(i + 1));
                    assert(out@ + v@.skip(i + 1) =~= before + rest);
                } else {
                    assert(replace_all(rest, pat@, to@) == seq![rest[0]] + replace_all(
                        rest.skip(1),
                        pat@,
                        to@,
                    ));
                    assert(out@ + replace_all(v@.skip(i + 1), pat@, to@) =~= before + replace_all(
                        rest,
                        pat@,
                        to@,
                    ));
                }
            }
            i = i + 1;
        }
    }
    proof {
        assert(v@.skip(len as int) =~= Seq::<char>::empty());
        assert(out@ + replace_all(v@.skip(len as int), pat@, to@) =~= out@);
    }
    out
}

/// Canonicalizes a link for the helper: rewrites a short video link to
/// its watch form, hands every other link through unchanged.
pub fn canonicalize_url(url: &str) -> (r: String)
    ensures
        r@ == canonical_url(url@),
{
    let v = chars_of(url);
    proof {
        reveal_strlit("?");
        reveal_strlit("youtu.be/");
    }
    if contains_pat(&v, "youtu.be/") {
        let pass1 = replace_pat(&v, "?", "&");
        let pass2 = replace_pat(&pass1, "youtu.be/", "youtube.com/watch?v=");
        string_from_chars(&pass2)
    } else {
        String::from_str(url)
    }
}

/// Law: where no occurrence of the pattern stands, replacement changes
/// nothing.
pub proof fn lemma_replace_none(s: Seq<char>, pat: Seq<char>, to: Seq<char>)
    requires
        pat.len() > 0,
        forall|i: int| !(#[trigger] occurs_at(s, pat, i)),
    ensures
        replace_all(s, pat, to) == s,
    decreases s.len(),
{
    if s.len() < pat.len() {
    } else {
        assert(!occurs_at(s, pat, 0));
        assert(s.take(pat.len() as int) =~= s.subrange(0, 0int + pat.len()));
        assert(s.take(pat.len() as int) != pat);
        assert forall|i: int| !(#[trigger] occurs_at(s.skip(1), pat, i)) by {
            if 0 <= i && i + pat.len() <= s.skip(1).len() {
                assert(s.skip(1).subrange(i, i + pat.len()) =~= s.subrange(
                    i + 1,
                    (i + 1) + pat.len(),
                ));
                assert(!occurs_at(s, pat, i + 1));
            }
        }
        lemma_replace_none(s.skip(1), pat, to);
        assert(replace_all(s, pat, to) == seq![s[0]] + s.skip(1));
        assert(seq![s[0]] + s.skip(1) =~= s);
    }
}

/// Law: where the first occurrence of the pattern stands right after
/// `a`, replacement keeps `a`, writes `to` for the occurrence, and goes
/// on behind it.
pub proof fn lemma_replace_at(a: Seq<char>, pat: Seq<char>, b: Seq<char>, to: Seq<char>)
    requires
        pat.len() > 0,
        forall|i: int| 0 <= i < a.len() ==> !(#[trigger] occurs_at(a + pat + b, pat, i)),
    ensures
        replace_all(a + pat + b, pat, to) == a + to + replace_all(b, pat, to),
    decreases a.len(),
{
    let s = a + pat + b;
    if a.len() == 0 {
        assert(s.take(pat.len() as int) =~= pat);
        assert(s.skip(pat.len() as int) =~= b);
        assert(replace_all(s, pat, to) == to + replace_all(b, pat, to));
        assert(a + to + replace_all(b, pat, to) =~= to + replace_all(b, pat, to));
    } else {
        assert(!occurs_at(s, pat, 0));
        assert(s.take(pat.len() as int) =~= s.subrange(0, 0int + pat.len()));
        assert(s.take(pat.len() as int) != pat);
        let s1 = a.skip(1) + pat + b;
        assert(s.skip(1) =~= s1);
        assert forall|i: int|
            0 <= i < a.skip(1).len() implies !(#[trigger] occurs_at(s1, pat, i)) by {
            assert(s1.subrange(i, i + pat.len()) =~= s.subrange(i + 1, (i + 1) + pat.len()));
            assert(!occurs_at(s, pat, i + 1));
        }
        lemma_replace_at(a.skip(1), pat, b, to);
        assert(replace_all(s, pat, to) == seq![s[0]] + replace_all(s.skip(1), pat, to));
        assert(s[0] == a[0]);
        assert(seq![s[0]] + (a.skip(1) + to + replace_all(b, pat, to)) =~= a + to + replace_all(
            b,
            pat,
            to,
        ));
    }
}

/// True of the characters a video identifier is made of.
pub open spec fn id_char(c: char) -> bool {
    ('a' <= c && c <= 'z') || ('A' <= c && c <= 'Z') || ('0' <= c && c <= '9') || c == '-' || c
        == '_'
}

/// Law: a short video link `https://youtu.be/<ID>?t=42` canonicalizes to
/// `https://youtube.com/watch?v=<ID>&t=42`, for every identifier made of
/// the usual identifier characters.
pub proof fn lemma_short_url_canonical(id: Seq<char>)
    requires
        forall|i: int| 0 <= i < id.len() ==> id_char(#[trigger] id[i]),
    ensures
        canonical_url("https://youtu.be/"@ + id + "?t=42"@) == "https://youtube.com/watch?v="@ + id
            + "&t=42"@,
{
    reveal_strlit("https://youtu.be/");
    reveal_strlit("youtu.be/");
    reveal_strlit("?");
    reveal_strlit("&");
    reveal_strlit("?t=42");
    reveal_strlit("&t=42");
    reveal_strlit("t=42");
    reveal_strlit("https://");
    reveal_strlit("youtube.com/watch?v=");
    reveal_strlit("https://youtube.com/watch?v=");
    let u = "https://youtu.be/"@ + id + "?t=42"@;
    let q = "?"@;
    let amp = "&"@;
    let pat = "youtu.be/"@;
    let to = "youtube.com/watch?v="@;

    // the short link names youtu.be/ right after the scheme
    assert(u.subrange(8, 8int + pat.len()) =~= pat);
    assert(occurs_at(u, pat, 8));

    // first pass: the one query separator sits right after the identifier
    let a1 = "https://youtu.be/"@ + id;
    let b1 = "t=42"@;
    assert(u =~= a1 + q + b1);
    let s1 = a1 + q + b1;
    assert forall|i: int| 0 <= i < a1.len() implies !(#[trigger] occurs_at(s1, q, i)) by {
        assert(s1.subrange(i, i + q.len()) =~= seq![s1[i]]);
        if i < 17 {
            assert(s1[i] == "https://youtu.be/"@[i]);
            assert(s1[i] != '?');
        } else {
            assert(s1[i] == id[i - 17]);
            assert(id_char(id[i - 17]));
            assert(s1[i] != '?');
        }
        assert(seq![s1[i]][0] == s1[i]);
        assert(q[0] == '?');
        assert(s1.subrange(i, i + q.len()) != q);
    }
    assert forall|i: int| !(#[trigger] occurs_at(b1, q, i)) by {
        if 0 <= i && i + q.len() <= b1.len() {
            assert(b1.subrange(i, i + q.len()) =~= seq![b1[i]]);
            assert(b1[i] != '?');
            assert(seq![b1[i]][0] == b1[i]);
            assert(q[0] == '?');
            assert(b1.subrange(i, i + q.len()) != q);
        }
    }
    lemma_replace_none(b1, q, amp);
    lemma_replace_at(a1, q, b1, amp);
    let pass1 = replace_all(u, q, amp);
    assert(pass1 == a1 + amp + b1);

    // second pass: youtu.be/ stands once, right after the scheme
    let a2 = "https://"@;
    let b2 = id + "&t=42"@;
    assert(pass1 =~= a2 + pat + b2);
    let s2 = a2 + pat + b2;
    assert forall|i: int| 0 <= i < a2.len() implies !(#[trigger] occurs_at(s2, pat, i)) by {
        assert(s2.subrange(i, i + pat.len())[0] == s2[i]);
        assert(s2[i] == "https://"@[i]);
        assert(s2[i] != 'y');
        assert(pat[0] == 'y');
        assert(s2.subrange(i, i + pat.len()) != pat);
    }
    assert forall|i: int| !(#[trigger] occurs_at(b2, pat, i)) by {
        if 0 <= i && i + pat.len() <= b2.len() {
            assert(b2.subrange(i, i + pat.len())[5] == b2[i + 5]);
            if i + 5 < id.len() {
                assert(b2[i + 5] == id[i + 5]);
                assert(id_char(id[i + 5]));
                assert(b2[i + 5] != '.');
            } else {
                assert(b2[i + 5] == "&t=42"@[i + 5 - id.len()]);
                assert(b2[i + 5] != '.');
            }
            assert(pat[5] == '.');
            assert(b2.subrange(i, i + pat.len()) != pat);
        }
    }
    lemma_replace_none(b2, pat, to);
    lemma_replace_at(a2, pat, b2, to);
    assert(replace_all(pass1, pat, to) == a2 + to + b2);
    assert(a2 + to + b2 =~= "https://youtube.com/watch?v="@ + id + "&t=42"@);
}

} // verus!
