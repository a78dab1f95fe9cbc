//! Buffer text as a sequence of lines, and its conversion from and to the
//! flat text of a file (lines separated by `'\n'`).
use vstd::prelude::*;

verus! {

/// The lines of `s`, split at every `'\n'`: a text with `k` newlines has
/// `k + 1` lines, so a trailing newline gives a trailing empty line.
pub open spec fn split_lines(s: Seq<char>) -> Seq<Seq<char>>
    decreases s.len(),
{
    if s.len() == 0 {
        seq![Seq::<char>::empty()]
    } else {
        let rest = split_lines(s.drop_last());
        if s.last() == '\n' {
            rest.push(Seq::<char>::empty())
        } else {
            rest.update(rest.len() - 1, rest.last().push(s.last()))
        }
    }
}

/// The lines of `t` joined with `'\n'` between each two of them.
pub open spec fn join_lines(t: Seq<Seq<char>>) -> Seq<char>
    decreases t.len(),
{
    if t.len() == 0 {
        Seq::<char>::empty()
    } else if t.len() == 1 {
        t[0]
    } else {
        join_lines(t.drop_last()) + seq!['\n'] + t.last()
    }
}

/// Splitting always yields at least one line, and no line holds a newline.
pub proof fn lemma_split_lines_shape(s: Seq<char>)
    ensures
        split_lines(s).len() >= 1,
        forall|i: int, j: int|
            0 <= i < split_lines(s).len() && 0 <= j < split_lines(s)[i].len()
                ==> #[trigger] split_lines(s)[i][j] != '\n',
    decreases s.len(),
{
    if s.len() > 0 {
        lemma_split_lines_shape(s.drop_last());
    }
}

proof fn lemma_join_extend_last(t: Seq<Seq<char>>, c: char)
    requires
        t.len() >= 1,
    ensures
        join_lines(t.update(t.len() - 1, t.last().push(c))) == join_lines(t).push(c),
{
    let u = t.update(t.len() - 1, t.last().push(c));
    if t.len() > 1 {
        assert(u.drop_last() =~= t.drop_last());
        assert(join_lines(u) =~= join_lines(t).push(c));
    }
}

/// Joining the lines of a text gives the text back: reading a file into a
/// buffer and writing it out unchanged reproduces it exactly.
pub proof fn lemma_join_split(s: Seq<char>)
    ensures
        join_lines(split_lines(s)) == s,
    decreases s.len(),
{
    if s.len() > 0 {
        let p = s.drop_last();
        lemma_join_split(p);
        lemma_split_lines_shape(p);
        let rest = split_lines(p);
        if s.last() == '\n' {
            let t = rest.push(Seq::<char>::empty());
            assert(t.drop_last() =~= rest);
            assert(join_lines(t) =~= s);
        } else {
            lemma_join_extend_last(rest, s.last());
            assert(p.push(s.last()) =~= s);
        }
    }
}

/// Relies on String::push: it appends one character at the end.
#[verifier::external_body]
fn push_char(s: &mut String, c: char)
    ensures
        final(s)@ == old(s)@.push(c),
{
    s.push(c)
}

/// The lines of `content`, split at every `'\n'`.
pub fn lines_of(content: &str) -> (r: Vec<Vec<char>>)
    ensures
        r@.map_values(|l: Vec<char>| l@) == split_lines(content@),
{
    let mut lines: Vec<Vec<char>> = Vec::new();
    let mut cur: Vec<char> = Vec::new();
    for c in it: content.chars()
        invariant
            it.seq() == content@,
            lines@.map_values(|l: Vec<char>| l@).push(cur@) == split_lines(it.seq().take(it.index() as int)),
    {
        proof {
            let k = it.index() as int;
            assert(it.seq().take(k + 1).drop_last() =~= it.seq().take(k));
        }
        if c == '\n' {
            lines.push(cur);
            cur = Vec::new();
        } else {
            cur.push(c);
        }
    }
    lines.push(cur);
    assert(content@.take(content@.len() as int) =~= content@);
    lines
}

/// The characters of `chars` as a string.
pub fn string_of(chars: &Vec<char>) -> (r: String)
    ensures
        r@ == chars@,
{
    let mut out = String::new();
    let mut j: usize = 0;
    while j < chars.len()
        invariant
            0 <= j <= chars.len(),
            out@ == chars@.take(j as int),
        decreases chars.len() - j,
    {
        push_char(&mut out, chars[j]);
        proof {
            assert(chars@.take(j as int + 1) =~= chars@.take(j as int).push(chars@[j as int]));
        }
        j += 1;
    }
    proof {
        assert(chars@.take(j as int) =~= chars@);
    }
    out
}

/// The lines joined with `'\n'` between each two of them.
pub fn text_of(lines: &Vec<Vec<char>>) -> (r: String)
    ensures
        r@ == join_lines(lines@.map_values(|l: Vec<char>| l@)),
{
    let ghost t = lines@.map_values(|l: Vec<char>| l@);
    let mut out = String::new();
    let mut i: usize = 0;
    while i < lines.len()
        invariant
            0 <= i <= lines.len(),
            t == lines@.map_values(|l: Vec<char>| l@),
            out@ == join_lines(t.take(i as int)),
        decreases lines.len() - i,
    {
        let ghost before = out@;
        if i > 0 {
            push_char(&mut out, '\n');
        }
        let line = &lines[i];
        let mut j: usize = 0;
        while j < line.len()
            invariant
                0 <= j <= line.len(),
                line@ == t[i as int],
                i > 0 ==> out@ == before + seq!['\n'] + line@.take(j as int),
                i == 0 ==> out@ == line@.take(j as int),
            decreases line.len() - j,
        {
            push_char(&mut out, line[j]);
            proof {
                assert(line@.take(j as int + 1) =~= line@.take(j as int).push(line@[j as int]));
            }
            j += 1;
        }
        proof {
            assert(line@.take(j as int) =~= line@);
            assert(t.take(i as int + 1).drop_last() =~= t.take(i as int));
            if i == 0 {
                assert(t.take(1) =~= seq![t[0]]);
            }
        }
        i += 1;
    }
    proof {
        assert(t.take(lines.len() as int) =~= t);
    }
    out
}

} // verus!
