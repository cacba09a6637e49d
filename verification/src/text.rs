//! Character-level string building: conditional fragments, the comment
//! explainer, minimal rich-markup escaping, single-character replacement,
//! decimal rendering of integers, and substring containment.
use vstd::prelude::*;
use vstd::string::*;

verus! {

/// Relies on String::push: appends exactly the given character.
#[verifier::external_body]
pub(crate) fn push_char(s: &mut String, c: char)
    ensures
        final(s)@ == old(s)@ + seq![c],
{
    s.push(c);
}

/// Chooses between two fragments by a condition, as the optional-flag
/// rendering does at every call site.
pub fn cond_string(cond: bool, protagonist: &str, antagonist: &str) -> (r: String)
    ensures
        r@ == if cond {
            protagonist@
        } else {
            antagonist@
        },
{
    if cond {
        protagonist.to_owned()
    } else {
        antagonist.to_owned()
    }
}

/// Character-for-character string equality.
pub fn str_eq(a: &str, b: &str) -> (r: bool)
    ensures
        r == (a@ == b@),
{
    let na = a.unicode_len();
    let nb = b.unicode_len();
    if na != nb {
        return false;
    }
    let mut i: usize = 0;
    while i < na
        invariant
            na == a@.len(),
            na == b@.len(),
            i <= na,
            forall|j: int| 0 <= j < i ==> a@[j] == b@[j],
        decreases na - i,
    {
        if a.get_char(i) != b.get_char(i) {
            return false;
        }
        i = i + 1;
    }
    proof {
        assert(a@ =~= b@);
    }
    true
}

/// The comment clause of a wiki message: a fixed phrase for an empty
/// summary, the summary itself otherwise.
pub open spec fn spec_explain_comment(comment: Seq<char>) -> Seq<char> {
    if comment.len() == 0 {
        "without summary"@
    } else {
        "with summary: "@ + comment
    }
}

pub fn explain_comment(comment: &str) -> (r: String)
    ensures
        r@ == spec_explain_comment(comment@),
{
    if comment.is_empty() {
        "without summary".to_owned()
    } else {
        let mut r = "with summary: ".to_owned();
        r.append(comment);
        r
    }
}

/// The minimal entity map for rich markup: the five characters that the
/// destination renderer would otherwise read as markup.
pub open spec fn html_escaped_char(c: char) -> Seq<char> {
    if c == '"' {
        "&quot;"@
    } else if c == '&' {
        "&amp;"@
    } else if c == '\'' {
        "&#x27;"@
    } else if c == '<' {
        "&lt;"@
    } else if c == '>' {
        "&gt;"@
    } else {
        seq![c]
    }
}

pub open spec fn html_escaped(s: Seq<char>) -> Seq<char> {
    s.flat_map(|c: char| html_escaped_char(c))
}

/// Entity-escapes untrusted free text embedded in a rich-markup message.
pub fn htmlescape_str(msg: &str) -> (r: String)
    ensures
        r@ == html_escaped(msg@),
{
    let n = msg.unicode_len();
    let mut r = String::new();
    let mut i: usize = 0;
    proof {
        assert(msg@.take(0).flat_map(|c: char| html_escaped_char(c)) =~= Seq::<char>::empty());
    }
    while i < n
        invariant
            n == msg@.len(),
            i <= n,
            r@ == msg@.take(i as int).flat_map(|c: char| html_escaped_char(c)),
        decreases n - i,
    {
        let c = msg.get_char(i);
        if c == '"' {
            r.append("&quot;");
        } else if c == '&' {
            r.append("&amp;");
        } else if c == '\'' {
            r.append("&#x27;");
        } else if c == '<' {
            r.append("&lt;");
        } else if c == '>' {
            r.append("&gt;");
        } else {
            push_char(&mut r, c);
        }
        proof {
            msg@.lemma_flat_map_take_append(|c: char| html_escaped_char(c), i as int);
        }
        i = i + 1;
    }
    proof {
        assert(msg@.take(n as int) =~= msg@);
    }
    r
}

/// One character of a single-character replacement.
pub open spec fn replaced_char(c: char, from: char, to: Seq<char>) -> Seq<char> {
    if c == from {
        to
    } else {
        seq![c]
    }
}

/// Every occurrence of `from` replaced by `to`.
pub open spec fn replaced(s: Seq<char>, from: char, to: Seq<char>) -> Seq<char> {
    s.flat_map(|c: char| replaced_char(c, from, to))
}

pub fn replace_char(s: &str, from: char, to: &str) -> (r: String)
    ensures
        r@ == replaced(s@, from, to@),
{
    let n = s.unicode_len();
    let mut r = String::new();
    let mut i: usize = 0;
    proof {
        assert(s@.take(0).flat_map(|c: char| replaced_char(c, from, to@)) =~= Seq::<char>::empty());
    }
    while i < n
        invariant
            n == s@.len(),
            i <= n,
            r@ == s@.take(i as int).flat_map(|c: char| replaced_char(c, from, to@)),
        decreases n - i,
    {
        let c = s.get_char(i);
        if c == from {
            r.append(to);
        } else {
            push_char(&mut r, c);
        }
        proof {
            s@.lemma_flat_map_take_append(|c: char| replaced_char(c, from, to@), i as int);
        }
        i = i + 1;
    }
    proof {
        assert(s@.take(n as int) =~= s@);
    }
    r
}

/// Replacement changes nothing when the replaced character does not occur.
pub proof fn lemma_replaced_absent(s: Seq<char>, from: char, to: Seq<char>)
    requires
        !s.contains(from),
    ensures
        replaced(s, from, to) == s,
    decreases s.len(),
{
    let f = |c: char| replaced_char(c, from, to);
    if s.len() == 0 {
        assert(s.flat_map(f) =~= s);
    } else {
        let t = s.drop_last();
        assert(forall|i: int| 0 <= i < t.len() ==> t[i] == s[i]);
        assert(!t.contains(from));
        lemma_replaced_absent(t, from, to);
        t.lemma_flat_map_push(f, s.last());
        assert(t.push(s.last()) =~= s);
        assert(s.flat_map(f) =~= s);
    }
}

/// The decimal digit for one value below ten.
pub open spec fn dec_digit(d: int) -> char {
    ((48 + d) as u8) as char
}

/// The decimal rendering of a natural number, most significant digit first.
pub open spec fn dec_str(n: nat) -> Seq<char>
    decreases n,
{
    if n < 10 {
        seq![dec_digit(n as int)]
    } else {
        dec_str(n / 10) + seq![dec_digit((n % 10) as int)]
    }
}

/// The decimal rendering of an integer, with a leading minus sign when
/// negative.
pub open spec fn dec_str_int(n: int) -> Seq<char> {
    if n < 0 {
        seq!['-'] + dec_str((-n) as nat)
    } else {
        dec_str(n as nat)
    }
}

/// Appends the decimal rendering of an unsigned number.
pub fn append_u64_dec(out: &mut String, n: u64)
    ensures
        final(out)@ == old(out)@ + dec_str(n as nat),
    decreases n,
{
    if n >= 10 {
        append_u64_dec(out, n / 10);
        push_char(out, ((48 + (n % 10)) as u8) as char);
        proof {
            assert(final(out)@ =~= old(out)@ + dec_str(n as nat));
        }
    } else {
        push_char(out, ((48 + n) as u8) as char);
        proof {
            assert(final(out)@ =~= old(out)@ + dec_str(n as nat));
        }
    }
}

/// Appends the decimal rendering of a signed number.
pub fn append_i64_dec(out: &mut String, n: i64)
    ensures
        final(out)@ == old(out)@ + dec_str_int(n as int),
{
    if n < 0 {
        push_char(out, '-');
        let m: u64 = (-(n as i128)) as u64;
        append_u64_dec(out, m);
        proof {
            assert(final(out)@ =~= old(out)@ + dec_str_int(n as int));
        }
    } else {
        append_u64_dec(out, n as u64);
    }
}

/// The decimal rendering of an unsigned number as a fresh string.
pub fn u64_dec_string(n: u64) -> (r: String)
    ensures
        r@ == dec_str(n as nat),
{
    let mut r = String::new();
    append_u64_dec(&mut r, n);
    proof {
        assert(r@ =~= dec_str(n as nat));
    }
    r
}

/// The decimal rendering of a signed number as a fresh string.
pub fn i64_dec_string(n: i64) -> (r: String)
    ensures
        r@ == dec_str_int(n as int),
{
    let mut r = String::new();
    append_i64_dec(&mut r, n);
    proof {
        assert(r@ =~= dec_str_int(n as int));
    }
    r
}

/// An anchor tag: the link markup every message wraps its names in.
pub open spec fn spec_link(url: Seq<char>, label: Seq<char>) -> Seq<char> {
    "<a href=\""@ + url + "\">"@ + label + "</a>"@
}

/// Appends an anchor tag around the given label.
pub fn append_link(out: &mut String, url: &str, label: &str)
    ensures
        final(out)@ == old(out)@ + spec_link(url@, label@),
{
    out.append("<a href=\"");
    out.append(url);
    out.append("\">");
    out.append(label);
    out.append("</a>");
    proof {
        assert(final(out)@ =~= old(out)@ + spec_link(url@, label@));
    }
}

/// `needle` occurs contiguously inside `hay`.
pub open spec fn contains_seq(hay: Seq<char>, needle: Seq<char>) -> bool {
    exists|i: int|
        0 <= i && i + needle.len() <= hay.len() && #[trigger] hay.subrange(
            i,
            i + needle.len(),
        ) == needle
}

/// A fragment is contained in any concatenation that carries it in the
/// middle.
pub proof fn lemma_contains_concat_mid(a: Seq<char>, b: Seq<char>, c: Seq<char>)
    ensures
        contains_seq(a + b + c, b),
{
    let h = a + b + c;
    assert(h.subrange(a.len() as int, a.len() + b.len() as int) =~= b);
}

/// A fragment is contained in any concatenation that starts with it.
pub proof fn lemma_contains_concat_left(b: Seq<char>, c: Seq<char>)
    ensures
        contains_seq(b + c, b),
{
    lemma_contains_concat_mid(Seq::empty(), b, c);
    assert(Seq::<char>::empty() + b + c =~= b + c);
}

/// A fragment is contained in any concatenation that ends with it.
pub proof fn lemma_contains_concat_right(a: Seq<char>, b: Seq<char>)
    ensures
        contains_seq(a + b, b),
{
    let h = a + b;
    assert(h.subrange(a.len() as int, h.len() as int) =~= b);
}

} // verus!
