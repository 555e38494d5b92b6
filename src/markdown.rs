use vstd::prelude::*;

use crate::text::{chars_of, push_char, push_chars, string_of, trim_of, trimmed};

verus! {

/// `line` without one trailing carriage return.
pub open spec fn without_cr(line: Seq<char>) -> Seq<char> {
    if line.len() > 0 && line.last() == '\r' {
        line.drop_last()
    } else {
        line
    }
}

/// The lines of `cur + s`, where `cur` is a line begun before `s`: split at
/// each `\n`, a `\r` before it dropped, and no empty line after a final `\n`.
pub open spec fn lines_from(cur: Seq<char>, s: Seq<char>) -> Seq<Seq<char>>
    decreases s.len(),
{
    if s.len() == 0 {
        if cur.len() == 0 {
            Seq::empty()
        } else {
            seq![cur]
        }
    } else if s[0] == '\n' {
        seq![without_cr(cur)] + lines_from(Seq::empty(), s.drop_first())
    } else {
        lines_from(cur.push(s[0]), s.drop_first())
    }
}

/// The lines of a text, as `str::lines` yields them.
pub open spec fn lines_of(s: Seq<char>) -> Seq<Seq<char>> {
    lines_from(Seq::empty(), s)
}

/// How many characters of `s` are `#`.
pub open spec fn hash_count(s: Seq<char>) -> nat
    decreases s.len(),
{
    if s.len() == 0 {
        0
    } else {
        hash_count(s.drop_last()) + if s.last() == '#' {
            1nat
        } else {
            0nat
        }
    }
}

/// The heading level of a line: the number of `#` among its first six
/// characters.
pub open spec fn heading_level(line: Seq<char>) -> nat {
    hash_count(line.take(if line.len() < 6 {
        line.len() as int
    } else {
        6
    }))
}

/// What goes before the title of a heading of level `n`: a colour and a bar
/// for the first four levels, nothing for the others.
pub open spec fn heading_prefix(n: nat) -> Seq<char> {
    if n == 1 {
        "\x1b[1;32m██ "@
    } else if n == 2 {
        "\x1b[1;36m▓▓▓ "@
    } else if n == 3 {
        "\x1b[1;33m▒▒▒▒ "@
    } else if n == 4 {
        "\x1b[1;35m░░░░░ "@
    } else {
        Seq::empty()
    }
}

/// What goes after the title of a heading of level `n`: a colour reset for
/// the first four levels, then the end of the line.
pub open spec fn heading_suffix(n: nat) -> Seq<char> {
    if 1 <= n <= 4 {
        "\x1b[0m\n"@
    } else {
        "\n"@
    }
}

/// A line as shown in the preview. A line that starts with `#` is a heading:
/// its level's many first characters are dropped, the rest trimmed and
/// framed; any other line is kept. Each ends with `\n`.
pub open spec fn shown_line(line: Seq<char>) -> Seq<char> {
    if line.len() > 0 && line[0] == '#' {
        let n = heading_level(line);
        heading_prefix(n) + trim_of(line.skip(n as int)) + heading_suffix(n)
    } else {
        line.push('\n')
    }
}

/// The shown lines of `lines`, one after the other.
pub open spec fn shown_lines(lines: Seq<Seq<char>>) -> Seq<char>
    decreases lines.len(),
{
    if lines.len() == 0 {
        Seq::empty()
    } else {
        shown_lines(lines.drop_last()) + shown_line(lines.last())
    }
}

/// The number of `#` among the first `k` characters of `line`.
fn count_hashes(line: &Vec<char>, k: usize) -> (r: usize)
    requires
        k <= line@.len(),
    ensures
        r == hash_count(line@.take(k as int)),
        r <= k,
{
    let mut r: usize = 0;
    let mut i: usize = 0;
    while i < k
        invariant
            i <= k <= line@.len(),
            r == hash_count(line@.take(i as int)),
            r <= i,
        decreases k - i,
    {
        assert(line@.take(i + 1).drop_last() =~= line@.take(i as int));
        if line[i] == '#' {
            r = r + 1;
        }
        i = i + 1;
    }
    r
}

/// Appends the shown form of `line` to `out`.
fn push_shown_line(out: &mut String, line: &Vec<char>)
    ensures
        final(out)@ == old(out)@ + shown_line(line@),
{
    if line.len() == 0 || line[0] != '#' {
        push_chars(out, line, 0, line.len());
        push_char(out, '\n');
        assert(line@.subrange(0, line@.len() as int) =~= line@);
        assert(final(out)@ =~= old(out)@ + shown_line(line@)) by {
            assert(out@ =~= old(out)@ + line@.push('\n'));
        }
        return;
    }
    let k: usize = if line.len() < 6 {
        line.len()
    } else {
        6
    };
    let n = count_hashes(line, k);
    let mut rest_chars: Vec<char> = Vec::new();
    let mut i: usize = n;
    while i < line.len()
        invariant
            n <= i <= line@.len(),
            rest_chars@ == line@.subrange(n as int, i as int),
        decreases line@.len() - i,
    {
        rest_chars.push(line[i]);
        i = i + 1;
        assert(rest_chars@ =~= line@.subrange(n as int, i as int));
    }
    let rest = string_of(&rest_chars);
    let title = chars_of(trimmed(rest.as_str()));
    if n == 1 {
        out.append("\x1b[1;32m██ ");
    } else if n == 2 {
        out.append("\x1b[1;36m▓▓▓ ");
    } else if n == 3 {
        out.append("\x1b[1;33m▒▒▒▒ ");
    } else if n == 4 {
        out.append("\x1b[1;35m░░░░░ ");
    }
    let ghost mid = out@;
    push_chars(out, &title, 0, title.len());
    assert(title@.subrange(0, title@.len() as int) =~= title@);
    if 1 <= n && n <= 4 {
        out.append("\x1b[0m\n");
    } else {
        out.append("\n");
    }
    proof {
        assert(line@.skip(n as int) =~= rest_chars@);
        assert(old(out)@ + heading_prefix(n as nat) == mid);
        assert(out@ =~= old(out)@ + shown_line(line@));
    }
}

/// Turns the Markdown headings of `content` into coloured lines for the
/// issue preview; other lines are kept. Each line of the result ends with
/// `\n`.
pub fn parse_markdown_headers(content: &str) -> (r: String)
    ensures
        r@ == shown_lines(lines_of(content@)),
{
    let cs = chars_of(content);
    let mut out = String::new();
    let mut cur: Vec<char> = Vec::new();
    let ghost mut done: Seq<Seq<char>> = Seq::empty();
    let mut i: usize = 0;
    assert(cs@.skip(0) =~= cs@);
    while i < cs.len()
        invariant
            i <= cs@.len(),
            done + lines_from(cur@, cs@.skip(i as int)) == lines_of(cs@),
            out@ == shown_lines(done),
            cs@ == content@,
        decreases cs@.len() - i,
    {
        let c = cs[i];
        let ghost rest = cs@.skip(i as int);
        assert(rest.drop_first() =~= cs@.skip(i + 1));
        if c == '\n' {
            let mut line = cur;
            if line.len() > 0 && line[line.len() - 1] == '\r' {
                line.pop();
            }
            assert(line@ =~= without_cr(cur@));
            push_shown_line(&mut out, &line);
            proof {
                let next = done.push(line@);
                assert(next.drop_last() =~= done);
                assert(next + lines_from(Seq::empty(), cs@.skip(i + 1)) =~= done + (seq![
                    line@,
                ] + lines_from(Seq::empty(), cs@.skip(i + 1))));
                done = next;
            }
            cur = Vec::new();
            assert(cur@ =~= Seq::<char>::empty());
        } else {
            cur.push(c);
        }
        i = i + 1;
    }
    assert(cs@.skip(i as int) =~= Seq::<char>::empty());
    if cur.len() > 0 {
        push_shown_line(&mut out, &cur);
        proof {
            let next = done.push(cur@);
            assert(next.drop_last() =~= done);
            assert(next =~= done + seq![cur@]);
            done = next;
        }
    } else {
        assert(done + Seq::<Seq<char>>::empty() =~= done);
    }
    out
}

} // verus!
