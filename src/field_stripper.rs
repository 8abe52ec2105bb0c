//! Stripping leading fields from log lines.
//!
//! A field is a run of non-separator characters; fields are separated by runs of separator
//! characters. The separator is a given character, or any whitespace.

use vstd::prelude::*;

verus! {

/// The characters with the Unicode `White_Space` property.
pub open spec fn is_white_space(c: char) -> bool {
    ('\u{9}' <= c && c <= '\u{d}') || c == ' ' || c == '\u{85}' || c == '\u{a0}' || c
        == '\u{1680}' || ('\u{2000}' <= c && c <= '\u{200a}') || c == '\u{2028}' || c
        == '\u{2029}' || c == '\u{202f}' || c == '\u{205f}' || c == '\u{3000}'
}

/// Relies on `char::is_whitespace`, documented to hold of the characters with the Unicode
/// `White_Space` property.
#[verifier::external_body]
fn char_is_whitespace(c: char) -> (r: bool)
    ensures
        r == is_white_space(c),
{
    c.is_whitespace()
}

/// Whether `c` separates fields: it is `sep` if one is given, else whitespace.
pub open spec fn is_separator(sep: Option<char>, c: char) -> bool {
    match sep {
        Some(s) => c == s,
        None => is_white_space(c),
    }
}

/// The first index at or after `pos` whose character is a separator if `want` is true, or not
/// one if `want` is false; the line's length if there is none.
pub open spec fn skip_to(line: Seq<char>, sep: Option<char>, pos: nat, want: bool) -> nat
    decreases line.len() - pos,
{
    if pos >= line.len() {
        line.len()
    } else if is_separator(sep, line[pos as int]) == want {
        pos
    } else {
        skip_to(line, sep, pos + 1, want)
    }
}

/// Where field number `n` (counting from 0) of `line` starts: past `n` fields and the
/// separators after each.
pub open spec fn field_start(line: Seq<char>, sep: Option<char>, n: nat) -> nat
    decreases n,
{
    if n == 0 {
        0
    } else {
        let p = field_start(line, sep, (n - 1) as nat);
        skip_to(line, sep, skip_to(line, sep, p, true), false)
    }
}

/// The line without its first `n` fields, or `None` if nothing is left.
pub open spec fn strip_fields(line: Seq<char>, sep: Option<char>, n: nat) -> Option<Seq<char>> {
    let p = field_start(line, sep, n);
    if p < line.len() {
        Some(line.subrange(p as int, line.len() as int))
    } else {
        None
    }
}

/// What reading `lines` to the end gives: the stripped lines up to the first line with nothing
/// left, or the first read error met before.
pub open spec fn collect_lines<E>(lines: Seq<Result<String, E>>, sep: Option<char>, n: nat) -> Result<
    Seq<Seq<char>>,
    E,
>
    decreases lines.len(),
{
    if lines.len() == 0 {
        Ok(seq![])
    } else {
        match lines[0] {
            Err(e) => Err(e),
            Ok(line) => match strip_fields(line@, sep, n) {
                None => Ok(seq![]),
                Some(s) => match collect_lines(lines.drop_first(), sep, n) {
                    Ok(rest) => Ok(seq![s] + rest),
                    Err(e) => Err(e),
                },
            },
        }
    }
}

/// `prefix` followed by the lines of `r`, or the error of `r`.
pub open spec fn prepend<E>(prefix: Seq<Seq<char>>, r: Result<Seq<Seq<char>>, E>) -> Result<
    Seq<Seq<char>>,
    E,
> {
    match r {
        Ok(rest) => Ok(prefix + rest),
        Err(e) => Err(e),
    }
}

proof fn lemma_skip_to_bounds(line: Seq<char>, sep: Option<char>, pos: nat, want: bool)
    requires
        pos <= line.len(),
    ensures
        pos <= skip_to(line, sep, pos, want) <= line.len(),
    decreases line.len() - pos,
{
    if pos < line.len() && is_separator(sep, line[pos as int]) != want {
        lemma_skip_to_bounds(line, sep, pos + 1, want);
    }
}

proof fn lemma_field_start_bounds(line: Seq<char>, sep: Option<char>, n: nat)
    ensures
        field_start(line, sep, n) <= line.len(),
    decreases n,
{
    if n > 0 {
        let p = field_start(line, sep, (n - 1) as nat);
        lemma_field_start_bounds(line, sep, (n - 1) as nat);
        lemma_skip_to_bounds(line, sep, p, true);
        lemma_skip_to_bounds(line, sep, skip_to(line, sep, p, true), false);
    }
}

/// Advances from `pos` to the first separator (`want` true) or non-separator (`want` false).
fn skip(line: &str, len: usize, sep: Option<char>, pos: usize, want: bool) -> (r: usize)
    requires
        len == line@.len(),
        pos <= len,
    ensures
        r == skip_to(line@, sep, pos as nat, want),
{
    let mut i = pos;
    while i < len
        invariant
            len == line@.len(),
            pos <= i <= len,
            skip_to(line@, sep, pos as nat, want) == skip_to(line@, sep, i as nat, want),
        decreases len - i,
    {
        let c = line.get_char(i);
        let is_sep = match sep {
            Some(s) => c == s,
            None => char_is_whitespace(c),
        };
        if is_sep == want {
            return i;
        }
        i = i + 1;
    }
    i
}

/// The line without its first `field` fields, or `None` if nothing is left.
pub fn strip_line(line: &str, sep: Option<char>, field: usize) -> (r: Option<String>)
    ensures
        match strip_fields(line@, sep, field as nat) {
            Some(rest) => r matches Some(s) && s@ == rest,
            None => r is None,
        },
{
    let len = line.unicode_len();
    let mut pos: usize = 0;
    let mut n: usize = 0;
    while n < field
        invariant
            len == line@.len(),
            n <= field,
            pos == field_start(line@, sep, n as nat),
            pos <= len,
        decreases field - n,
    {
        proof {
            lemma_skip_to_bounds(line@, sep, pos as nat, true);
        }
        let after_field = skip(line, len, sep, pos, true);
        proof {
            lemma_skip_to_bounds(line@, sep, after_field as nat, false);
        }
        pos = skip(line, len, sep, after_field, false);
        n = n + 1;
    }
    if pos < len {
        Some(line.substring_char(pos, len).to_owned())
    } else {
        None
    }
}

/// A filter that strips the first `field` fields from each line it reads.
pub struct FieldStripper<E> {
    lines: Vec<Result<String, E>>,
    separator: Option<char>,
    field: usize,
}

impl<E> FieldStripper<E> {
    /// The lines still to be read.
    pub closed spec fn remaining(&self) -> Seq<Result<String, E>> {
        self.lines@
    }

    pub closed spec fn spec_separator(&self) -> Option<char> {
        self.separator
    }

    pub closed spec fn spec_field(&self) -> nat {
        self.field as nat
    }

    /// Creates a field stripper over `lines` that removes the first `field` fields, separated by
    /// `separator` or, if there is none, by whitespace.
    pub fn new(separator: Option<char>, field: usize, lines: Vec<Result<String, E>>) -> (r: Self)
        ensures
            r.remaining() == lines@,
            r.spec_separator() == separator,
            r.spec_field() == field,
    {
        FieldStripper { lines, separator, field }
    }

    /// Reads the next line: a read error is passed on; a line is returned without its leading
    /// fields. `None` when the lines are exhausted or a line has nothing left after stripping.
    pub fn next(&mut self) -> (r: Option<Result<String, E>>)
        ensures
            final(self).spec_separator() == old(self).spec_separator(),
            final(self).spec_field() == old(self).spec_field(),
            old(self).remaining().len() == 0 ==> r is None && final(self).remaining()
                == old(self).remaining(),
            old(self).remaining().len() > 0 ==> final(self).remaining() == old(
                self,
            ).remaining().drop_first() && match old(self).remaining()[0] {
                Err(e) => r == Some(Err::<String, E>(e)),
                Ok(line) => match strip_fields(
                    line@,
                    old(self).spec_separator(),
                    old(self).spec_field(),
                ) {
                    Some(rest) => r matches Some(Ok(s)) && s@ == rest,
                    None => r is None,
                },
            },
    {
        if self.lines.len() == 0 {
            return None;
        }
        let first = self.lines.remove(0);
        assert(self.lines@ =~= old(self).lines@.drop_first());
        match first {
            Err(e) => Some(Err(e)),
            Ok(line) => match strip_line(line.as_str(), self.separator, self.field) {
                Some(rest) => Some(Ok(rest)),
                None => None,
            },
        }
    }

    /// Reads lines until they are exhausted or one has nothing left after stripping, and
    /// returns the stripped lines; the first read error met instead, if any.
    pub fn collect(self) -> (r: Result<Vec<String>, E>)
        ensures
            match (r, collect_lines(self.remaining(), self.spec_separator(), self.spec_field())) {
                (Ok(v), Ok(w)) => v@.map_values(|s: String| s@) == w,
                (Err(e1), Err(e2)) => e1 == e2,
                _ => false,
            },
    {
        let ghost sep = self.spec_separator();
        let ghost n = self.spec_field();
        let ghost all = collect_lines(self.remaining(), sep, n);
        let mut this = self;
        let mut out: Vec<String> = Vec::new();
        loop
            invariant
                sep == self.spec_separator(),
                n == self.spec_field(),
                all == collect_lines(self.remaining(), sep, n),
                this.spec_separator() == sep,
                this.spec_field() == n,
                all == prepend(
                    out@.map_values(|s: String| s@),
                    collect_lines(this.remaining(), sep, n),
                ),
            decreases this.remaining().len(),
        {
            if this.lines.len() == 0 {
                assert(collect_lines(this.remaining(), sep, n) == Ok::<Seq<Seq<char>>, E>(seq![]));
                assert(out@.map_values(|s: String| s@) + seq![] =~= out@.map_values(
                    |s: String| s@,
                ));
                return Ok(out);
            }
            let ghost before = this.remaining();
            let ghost prefix = out@.map_values(|s: String| s@);
            match this.next() {
                Some(Ok(line)) => {
                    out.push(line);
                    assert(out@.map_values(|s: String| s@) =~= prefix + seq![line@]);
                    proof {
                        match collect_lines(this.remaining(), sep, n) {
                            Ok(rest) => {
                                assert(prefix + (seq![line@] + rest) =~= (prefix + seq![line@])
                                    + rest);
                            },
                            Err(_) => {},
                        }
                    }
                },
                Some(Err(e)) => {
                    assert(collect_lines(before, sep, n) == Err::<Seq<Seq<char>>, E>(e));
                    return Err(e);
                },
                None => {
                    assert(collect_lines(before, sep, n) == Ok::<Seq<Seq<char>>, E>(seq![]));
                    assert(prefix + seq![] =~= prefix);
                    return Ok(out);
                },
            }
        }
    }
}

} // verus!
