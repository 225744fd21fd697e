//! Free-text feedback attached to a decision: the blankness test that decides
//! whether a feedback block is appended to the transcript, and the splitting
//! of feedback into transcript lines.

use vstd::prelude::*;

verus! {

/// A whitespace character: the Unicode White_Space set, the one
/// `char::is_whitespace` recognizes.
pub open spec fn is_space(c: char) -> bool {
    ||| c == ' '
    ||| c == '\t'
    ||| c == '\n'
    ||| c == '\u{b}'
    ||| c == '\u{c}'
    ||| c == '\r'
    ||| c == '\u{85}'
    ||| c == '\u{a0}'
    ||| c == '\u{1680}'
    ||| c == '\u{2000}'
    ||| c == '\u{2001}'
    ||| c == '\u{2002}'
    ||| c == '\u{2003}'
    ||| c == '\u{2004}'
    ||| c == '\u{2005}'
    ||| c == '\u{2006}'
    ||| c == '\u{2007}'
    ||| c == '\u{2008}'
    ||| c == '\u{2009}'
    ||| c == '\u{200a}'
    ||| c == '\u{2028}'
    ||| c == '\u{2029}'
    ||| c == '\u{202f}'
    ||| c == '\u{205f}'
    ||| c == '\u{3000}'
}

/// Whether the character is whitespace.
fn is_space_char(c: char) -> (r: bool)
    ensures
        r == is_space(c),
{
    c == ' ' || c == '\t' || c == '\n' || c == '\u{b}' || c == '\u{c}' || c == '\r'
        || c == '\u{85}' || c == '\u{a0}' || c == '\u{1680}' || c == '\u{2000}'
        || c == '\u{2001}' || c == '\u{2002}' || c == '\u{2003}' || c == '\u{2004}'
        || c == '\u{2005}' || c == '\u{2006}' || c == '\u{2007}' || c == '\u{2008}'
        || c == '\u{2009}' || c == '\u{200a}' || c == '\u{2028}' || c == '\u{2029}'
        || c == '\u{202f}' || c == '\u{205f}' || c == '\u{3000}'
}

/// Whether the text holds nothing but whitespace.
pub open spec fn spec_is_blank(s: Seq<char>) -> bool {
    forall|i: int| 0 <= i < s.len() ==> is_space(#[trigger] s[i])
}

/// Whether the string holds nothing but whitespace.
pub fn is_blank(s: &String) -> (r: bool)
    ensures
        r == spec_is_blank(s@),
{
    let st = s.as_str();
    let n = st.unicode_len();
    let mut i: usize = 0;
    while i < n
        invariant
            i <= n,
            n == s@.len(),
            st@ == s@,
            forall|j: int| 0 <= j < i ==> is_space(#[trigger] s@[j]),
        decreases n - i,
    {
        let c = st.get_char(i);
        if !is_space_char(c) {
            return false;
        }
        i += 1;
    }
    true
}

/// The index of the first newline in the text, or its length if it has none.
pub open spec fn first_nl(s: Seq<char>) -> nat
    decreases s.len(),
{
    if s.len() == 0 {
        0
    } else if s[0] == '\n' {
        0
    } else {
        1 + first_nl(s.drop_first())
    }
}

proof fn lemma_first_nl_at(s: Seq<char>, k: int)
    requires
        0 <= k < s.len(),
        s[k] == '\n',
        forall|j: int| 0 <= j < k ==> s[j] != '\n',
    ensures
        first_nl(s) == k,
    decreases k,
{
    if k > 0 {
        let t = s.drop_first();
        assert(forall|j: int| 0 <= j < k - 1 ==> t[j] == s[j + 1] && s[j + 1] != '\n');
        lemma_first_nl_at(t, k - 1);
    }
}

proof fn lemma_first_nl_none(s: Seq<char>)
    requires
        forall|j: int| 0 <= j < s.len() ==> s[j] != '\n',
    ensures
        first_nl(s) == s.len(),
    decreases s.len(),
{
    if s.len() > 0 {
        let t = s.drop_first();
        assert(forall|j: int| 0 <= j < t.len() ==> t[j] == s[j + 1] && s[j + 1] != '\n');
        lemma_first_nl_none(t);
    }
}

/// A segment with one carriage return stripped from its end, as a `\r\n`
/// line ending leaves one there.
pub open spec fn strip_cr(s: Seq<char>) -> Seq<char> {
    if s.len() > 0 && s.last() == '\r' {
        s.drop_last()
    } else {
        s
    }
}

/// The text split into transcript lines: segments end at newlines, a
/// carriage return just before a newline is dropped, a trailing newline adds
/// no empty segment, and empty text has no lines at all.
pub open spec fn spec_lines_of(s: Seq<char>) -> Seq<Seq<char>>
    decreases s.len(),
{
    if s.len() == 0 {
        Seq::empty()
    } else {
        let i = first_nl(s) as int;
        if i >= s.len() {
            seq![s]
        } else {
            seq![strip_cr(s.take(i))] + spec_lines_of(s.skip(i + 1))
        }
    }
}

/// Splits feedback text into transcript lines.
pub fn split_lines(s: &String) -> (r: Vec<String>)
    ensures
        r.deep_view() == spec_lines_of(s@),
{
    let st = s.as_str();
    let n = st.unicode_len();
    let mut r: Vec<String> = Vec::new();
    let mut start: usize = 0;
    let mut i: usize = 0;
    proof {
        assert(r.deep_view() =~= Seq::<Seq<char>>::empty());
        assert(s@.skip(0) =~= s@);
        assert(Seq::<Seq<char>>::empty() + spec_lines_of(s@) =~= spec_lines_of(s@));
    }
    while i < n
        invariant
            start <= i <= n,
            n == s@.len(),
            st@ == s@,
            forall|j: int| start <= j < i ==> s@[j] != '\n',
            r.deep_view() + spec_lines_of(s@.skip(start as int)) == spec_lines_of(s@),
        decreases n - i,
    {
        let c = st.get_char(i);
        if c == '\n' {
            let ghost pre = r.deep_view();
            let ghost tail = s@.skip(start as int);
            let mut end: usize = i;
            if i > start && st.get_char(i - 1) == '\r' {
                end = i - 1;
            }
            let seg = String::from_str(st.substring_char(start, end));
            r.push(seg);
            proof {
                lemma_first_nl_at(tail, i - start as int);
                assert(tail.take(i - start as int) =~= s@.subrange(start as int, i as int));
                assert(tail.skip(i - start as int + 1) =~= s@.skip(i as int + 1));
                if end < i {
                    assert(s@.subrange(start as int, i as int).drop_last() =~= s@.subrange(
                        start as int,
                        end as int,
                    ));
                }
                assert(seg@ == strip_cr(s@.subrange(start as int, i as int)));
                assert(spec_lines_of(tail) == seq![seg@] + spec_lines_of(s@.skip(i as int + 1)));
                assert(r.deep_view() =~= pre.push(seg@));
                assert(r.deep_view() + spec_lines_of(s@.skip(i as int + 1)) =~= pre
                    + spec_lines_of(tail));
            }
            start = i + 1;
        }
        i += 1;
    }
    if start < n {
        let ghost pre = r.deep_view();
        let ghost tail = s@.skip(start as int);
        let seg = String::from_str(st.substring_char(start, n));
        r.push(seg);
        proof {
            lemma_first_nl_none(tail);
            assert(seg@ =~= tail);
            assert(spec_lines_of(tail) == seq![tail]);
            assert(r.deep_view() =~= pre.push(seg@));
            assert(r.deep_view() + spec_lines_of(Seq::<char>::empty()) =~= pre
                + spec_lines_of(tail));
            assert(s@.skip(n as int) =~= Seq::<char>::empty());
        }
    } else {
        proof {
            assert(s@.skip(start as int) =~= Seq::<char>::empty());
            assert(r.deep_view() + Seq::<Seq<char>>::empty() =~= r.deep_view());
        }
    }
    r
}

} // verus!
