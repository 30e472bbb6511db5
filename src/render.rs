//! The text of the generated file.

use vstd::prelude::*;

verus! {

/// The declaration up to its value.
pub open spec fn declaration_head() -> Seq<char> {
    "static GIT_BUILD_VERSION: Option<&'static str> = "@
}

/// Whether a character cannot stand as it is inside a string literal.
pub open spec fn needs_escape(c: char) -> bool {
    c == '"' || c == '\\' || c == '\n' || c == '\r'
}

/// How a character is written inside a string literal.
pub open spec fn escape_char(c: char) -> Seq<char> {
    if c == '"' {
        seq!['\\', '"']
    } else if c == '\\' {
        seq!['\\', '\\']
    } else if c == '\n' {
        seq!['\\', 'n']
    } else if c == '\r' {
        seq!['\\', 'r']
    } else {
        seq![c]
    }
}

/// A text written as the inside of a string literal that denotes it.
pub open spec fn escaped(v: Seq<char>) -> Seq<char>
    decreases v.len(),
{
    if v.len() == 0 {
        Seq::empty()
    } else {
        escape_char(v[0]) + escaped(v.drop_first())
    }
}

/// The text of the generated file for a describe result: a `Some` holding
/// a string literal that denotes the text, or `None`, then a newline.
pub open spec fn version_line(describe: Option<Seq<char>>) -> Seq<char> {
    match describe {
        Some(v) => declaration_head() + "Some(\""@ + escaped(v) + "\");\n"@,
        None => declaration_head() + "None;\n"@,
    }
}

proof fn lemma_escaped_concat(a: Seq<char>, b: Seq<char>)
    ensures
        escaped(a + b) == escaped(a) + escaped(b),
    decreases a.len(),
{
    if a.len() == 0 {
        assert(a + b =~= b);
        assert(escaped(a) + escaped(b) =~= escaped(b));
    } else {
        assert((a + b).drop_first() =~= a.drop_first() + b);
        lemma_escaped_concat(a.drop_first(), b);
        assert(escaped(a + b) =~= escaped(a) + escaped(b));
    }
}

proof fn lemma_escaped_plain(a: Seq<char>)
    requires
        forall|k: int| 0 <= k < a.len() ==> !needs_escape(#[trigger] a[k]),
    ensures
        escaped(a) == a,
    decreases a.len(),
{
    if a.len() > 0 {
        lemma_escaped_plain(a.drop_first());
        assert(escaped(a) =~= a);
    }
}

proof fn lemma_escaped_single(c: char)
    ensures
        escaped(seq![c]) == escape_char(c),
{
    let s = seq![c];
    assert(s.len() == 1 && s[0] == c);
    assert(s.drop_first() =~= Seq::<char>::empty());
    assert(escaped(s) == escape_char(c) + escaped(s.drop_first()));
    assert(escaped(Seq::<char>::empty()) == Seq::<char>::empty());
    assert(escape_char(c) + Seq::<char>::empty() =~= escape_char(c));
}

/// Escaping loses nothing: different texts are written differently.
pub proof fn lemma_escaped_injective(a: Seq<char>, b: Seq<char>)
    ensures
        (escaped(a) == escaped(b)) <==> (a == b),
    decreases a.len(),
{
    if escaped(a) == escaped(b) {
        if a.len() == 0 || b.len() == 0 {
            if a.len() != 0 {
                assert(escaped(a).len() > 0);
            }
            if b.len() != 0 {
                assert(escaped(b).len() > 0);
            }
            assert(a =~= b);
        } else {
            let ea = escape_char(a[0]);
            let eb = escape_char(b[0]);
            assert(escaped(a)[0] == ea[0]);
            assert(escaped(b)[0] == eb[0]);
            if ea[0] == '\\' {
                assert(escaped(a)[1] == ea[1]);
                assert(escaped(b)[1] == eb[1]);
            }
            assert(a[0] == b[0]);
            assert(escaped(a.drop_first()) =~= escaped(a).subrange(ea.len() as int, escaped(a).len() as int));
            assert(escaped(b.drop_first()) =~= escaped(b).subrange(eb.len() as int, escaped(b).len() as int));
            lemma_escaped_injective(a.drop_first(), b.drop_first());
            assert(a =~= seq![a[0]] + a.drop_first());
            assert(b =~= seq![b[0]] + b.drop_first());
        }
    }
}

/// Appends `v` to `content`, written as the inside of a string literal.
fn append_escaped(content: &mut String, v: &str)
    ensures
        final(content)@ == old(content)@ + escaped(v@),
{
    let n = v.unicode_len();
    let mut start: usize = 0;
    let mut i: usize = 0;
    while i < n
        invariant
            n == v@.len(),
            start <= i <= n,
            content@ == old(content)@ + escaped(v@.subrange(0, start as int)),
            forall|k: int| start <= k < i ==> !needs_escape(#[trigger] v@[k]),
        decreases n - i,
    {
        let c = v.get_char(i);
        if c == '"' || c == '\\' || c == '\n' || c == '\r' {
            let run = v.substring_char(start, i);
            content.append(run);
            if c == '"' {
                content.append("\\\"");
            } else if c == '\\' {
                content.append("\\\\");
            } else if c == '\n' {
                content.append("\\n");
            } else {
                content.append("\\r");
            }
            proof {
                reveal_strlit("\\\"");
                reveal_strlit("\\\\");
                reveal_strlit("\\n");
                reveal_strlit("\\r");
                let done = v@.subrange(0, start as int);
                let plain = v@.subrange(start as int, i as int);
                assert(v@.subrange(0, i + 1) =~= done + plain + seq![c]);
                lemma_escaped_concat(done + plain, seq![c]);
                lemma_escaped_concat(done, plain);
                lemma_escaped_plain(plain);
                lemma_escaped_single(c);
                assert(content@ =~= old(content)@ + escaped(v@.subrange(0, i + 1)));
            }
            start = i + 1;
        }
        i = i + 1;
    }
    let run = v.substring_char(start, n);
    content.append(run);
    proof {
        let done = v@.subrange(0, start as int);
        let plain = v@.subrange(start as int, n as int);
        assert(v@ =~= done + plain);
        lemma_escaped_concat(done, plain);
        lemma_escaped_plain(plain);
    }
}

/// Renders the content of the generated file for `describe`.
pub fn render_content(describe: Option<&str>) -> (r: String)
    ensures
        r@ == version_line(describe.deep_view()),
{
    let mut content = String::from_str("static GIT_BUILD_VERSION: Option<&'static str> = ");
    match describe {
        Some(v) => {
            content.append("Some(\"");
            append_escaped(&mut content, v);
            content.append("\");\n");
        },
        None => {
            content.append("None;\n");
        },
    }
    content
}

/// Rendering is deterministic and loses nothing: two describe results give
/// the same file content exactly when they are the same result, the absent
/// one included.
pub proof fn lemma_version_line_injective(d1: Option<Seq<char>>, d2: Option<Seq<char>>)
    ensures
        (version_line(d1) == version_line(d2)) <==> (d1 == d2),
{
    reveal_strlit("static GIT_BUILD_VERSION: Option<&'static str> = ");
    reveal_strlit("Some(\"");
    reveal_strlit("\");\n");
    reveal_strlit("None;\n");
    let h = declaration_head();
    let n: int = h.len() as int;
    if version_line(d1) == version_line(d2) {
        let l1 = version_line(d1);
        let l2 = version_line(d2);
        assert(l1[h.len() as int] == l2[h.len() as int]);
        match (d1, d2) {
            (Some(v1), Some(v2)) => {
                let e1 = escaped(v1);
                let e2 = escaped(v2);
                assert(l1.len() == n + 10 + e1.len());
                assert(l2.len() == n + 10 + e2.len());
                assert(e1 =~= l1.subrange(n + 6, n + 6 + e1.len()));
                assert(e2 =~= l2.subrange(n + 6, n + 6 + e2.len()));
                lemma_escaped_injective(v1, v2);
            },
            (Some(v1), None) => {
                assert(l1[h.len() as int] == 'S');
                assert(l2[h.len() as int] == 'N');
            },
            (None, Some(v2)) => {
                assert(l1[h.len() as int] == 'N');
                assert(l2[h.len() as int] == 'S');
            },
            (None, None) => {},
        }
    }
}

} // verus!
