use vstd::prelude::*;

verus! {

/// The escape sequence that stands for `c` inside a quoted CSS string, if
/// `c` cannot stand there as itself: a quote or backslash would end or bend
/// the string, a line break is not allowed in it, and `<` could close the
/// `<style>` element that holds the stylesheet.
pub open spec fn escape_sequence(c: char) -> Option<Seq<char>> {
    if c == '"' {
        Some("\\\""@)
    } else if c == '\\' {
        Some("\\\\"@)
    } else if c == '\n' {
        Some("\\a "@)
    } else if c == '\r' {
        Some("\\d "@)
    } else if c == '\u{c}' {
        Some("\\c "@)
    } else if c == '<' {
        Some("\\3c "@)
    } else {
        None
    }
}

/// What `c` becomes inside a quoted CSS string.
pub open spec fn css_escape_char(c: char) -> Seq<char> {
    match escape_sequence(c) {
        Some(e) => e,
        None => seq![c],
    }
}

/// `s` escaped, character by character, for a quoted CSS string.
pub open spec fn css_escaped(s: Seq<char>) -> Seq<char>
    decreases s.len(),
{
    if s.len() == 0 {
        Seq::empty()
    } else {
        css_escaped(s.drop_last()) + css_escape_char(s.last())
    }
}

fn escape_of(c: char) -> (r: Option<&'static str>)
    ensures
        match r {
            Some(e) => escape_sequence(c) == Some(e@),
            None => escape_sequence(c) is None,
        },
{
    if c == '"' {
        Some("\\\"")
    } else if c == '\\' {
        Some("\\\\")
    } else if c == '\n' {
        Some("\\a ")
    } else if c == '\r' {
        Some("\\d ")
    } else if c == '\u{c}' {
        Some("\\c ")
    } else if c == '<' {
        Some("\\3c ")
    } else {
        None
    }
}

/// Appends `s`, escaped for a quoted CSS string, to `out`.
pub(crate) fn push_css_escaped(s: &str, out: &mut String)
    ensures
        final(out)@ == old(out)@ + css_escaped(s@),
{
    let n = s.unicode_len();
    let ghost start = out@;
    let mut i: usize = 0;
    while i < n
        invariant
            n == s@.len(),
            i <= n,
            out@ == start + css_escaped(s@.subrange(0, i as int)),
        decreases n - i,
    {
        let c = s.get_char(i);
        match escape_of(c) {
            Some(e) => out.append(e),
            None => {
                let one = s.substring_char(i, i + 1);
                assert(one@ =~= seq![c]);
                out.append(one);
            },
        }
        assert(s@.subrange(0, i + 1).drop_last() =~= s@.subrange(0, i as int));
        assert(out@ =~= start + css_escaped(s@.subrange(0, i + 1)));
        i += 1;
    }
    assert(s@.subrange(0, n as int) =~= s@);
}

/// Escaping leaves a source with no character to escape as it is.
pub proof fn lemma_escape_plain(s: Seq<char>)
    requires
        forall|i: int| 0 <= i < s.len() ==> escape_sequence(#[trigger] s[i]) is None,
    ensures
        css_escaped(s) == s,
    decreases s.len(),
{
    if s.len() > 0 {
        lemma_escape_plain(s.drop_last());
        assert(css_escaped(s) =~= s);
    }
}

} // verus!
