//! Text for XML documents.

use vstd::prelude::*;

verus! {

/// What a character becomes when it is escaped: the five characters that
/// mean something in XML become entities, every other character stays.
pub open spec fn escaped_char(c: char) -> Seq<char> {
    if c == '&' {
        "&amp;"@
    } else if c == '<' {
        "&lt;"@
    } else if c == '>' {
        "&gt;"@
    } else if c == '"' {
        "&quot;"@
    } else if c == '\'' {
        "&apos;"@
    } else {
        seq![c]
    }
}

/// A text with every character escaped.
pub open spec fn escaped(s: Seq<char>) -> Seq<char>
    decreases s.len(),
{
    if s.len() == 0 {
        Seq::empty()
    } else {
        escaped(s.drop_last()) + escaped_char(s.last())
    }
}

/// Whether a character stands for itself in XML.
pub open spec fn is_plain(c: char) -> bool {
    c != '&' && c != '<' && c != '>' && c != '"' && c != '\''
}

/// A run of plain characters is its own escape.
pub proof fn lemma_escaped_plain(s: Seq<char>)
    requires
        forall|i: int| 0 <= i < s.len() ==> is_plain(#[trigger] s[i]),
    ensures
        escaped(s) == s,
    decreases s.len(),
{
    if s.len() > 0 {
        lemma_escaped_plain(s.drop_last());
        assert(s.drop_last().push(s.last()) =~= s);
        assert(escaped(s) =~= s);
    }
}

/// The escape of two texts joined is their escapes joined.
pub proof fn lemma_escaped_concat(a: Seq<char>, b: Seq<char>)
    ensures
        escaped(a + b) == escaped(a) + escaped(b),
    decreases b.len(),
{
    if b.len() == 0 {
        assert(a + b =~= a);
        assert(escaped(a) + escaped(b) =~= escaped(a));
    } else {
        lemma_escaped_concat(a, b.drop_last());
        assert((a + b).drop_last() =~= a + b.drop_last());
        assert((a + b).last() == b.last());
        assert(escaped(a + b) =~= escaped(a) + escaped(b));
    }
}

/// The escape of a text of one character is the escape of the character.
pub proof fn lemma_escaped_single(c: char)
    ensures
        escaped(seq![c]) == escaped_char(c),
{
    let s = seq![c];
    assert(s.drop_last() =~= Seq::<char>::empty());
    assert(s.last() == c);
    assert(escaped(s.drop_last()) =~= Seq::<char>::empty());
    assert(escaped(s) =~= escaped_char(c));
}

/// Escapes a text for use in an XML document.
pub fn escape_xml(s: &str) -> (out: String)
    ensures
        out@ == escaped(s@),
{
    let mut out = String::new();
    let n: usize = s.unicode_len();
    let mut start: usize = 0;
    let mut i: usize = 0;
    proof {
        reveal_strlit("&amp;");
        reveal_strlit("&lt;");
        reveal_strlit("&gt;");
        reveal_strlit("&quot;");
        reveal_strlit("&apos;");
    }
    assert(s@.subrange(0, 0) =~= Seq::<char>::empty());
    for c in it: s.chars()
        invariant
            0 <= start <= i <= n,
            i == it.index(),
            it.seq() == s@,
            n == s@.len(),
            forall|k: int| start <= k < i ==> is_plain(#[trigger] s@[k]),
            out@ == escaped(s@.subrange(0, start as int)),
    {
        let entity: Option<&'static str> = if c == '&' {
            Some("&amp;")
        } else if c == '<' {
            Some("&lt;")
        } else if c == '>' {
            Some("&gt;")
        } else if c == '"' {
            Some("&quot;")
        } else if c == '\'' {
            Some("&apos;")
        } else {
            None
        };
        match entity {
            Some(e) => {
                let run: &str = s.substring_char(start, i);
                proof {
                    let done = s@.subrange(0, start as int);
                    let plain = s@.subrange(start as int, i as int);
                    lemma_escaped_plain(plain);
                    lemma_escaped_concat(done, plain);
                    lemma_escaped_concat(done + plain, seq![c]);
                    assert(done + plain + seq![c] =~= s@.subrange(0, i + 1));
                    lemma_escaped_single(c);
                    assert(e@ == escaped_char(c));
                }
                out.append(run);
                out.append(e);
                start = i + 1;
            },
            None => {},
        }
        i = i + 1;
    }
    let run: &str = s.substring_char(start, n);
    proof {
        let done = s@.subrange(0, start as int);
        let plain = s@.subrange(start as int, n as int);
        lemma_escaped_plain(plain);
        lemma_escaped_concat(done, plain);
        assert(done + plain =~= s@);
    }
    out.append(run);
    out
}

} // verus!
