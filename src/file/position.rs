use std::rc::Rc;
use vstd::prelude::*;

use super::file_info::FileInfo;
use super::text::{chars_of, decimal, push_decimal, push_str, string_of};

verus! {

/// The `k`-th line (counting from 0) of `s`, without its line break; empty
/// when `s` has fewer lines.
pub open spec fn line_of(s: Seq<char>, k: nat) -> Seq<char>
    decreases s.len(),
{
    if s.len() == 0 {
        Seq::empty()
    } else if s[0] == '\n' {
        if k == 0 {
            Seq::empty()
        } else {
            line_of(s.drop_first(), (k - 1) as nat)
        }
    } else if k == 0 {
        seq![s[0]] + line_of(s.drop_first(), 0)
    } else {
        line_of(s.drop_first(), k)
    }
}

/// `n` spaces.
pub open spec fn spaces(n: nat) -> Seq<char>
    decreases n,
{
    if n == 0 {
        Seq::empty()
    } else {
        spaces((n - 1) as nat).push(' ')
    }
}

/// The three-line diagnostic for a place: `name:line`, the text of the line,
/// and a caret under the column.
pub open spec fn diagnostic(name: Seq<char>, line: nat, code: Seq<char>, column: nat) -> Seq<char> {
    name + seq![':'] + decimal(line) + seq!['\n'] + code + seq!['\n'] + spaces((column - 1) as nat)
        + seq!['^', '\n']
}

/// A place in a compiled unit: 1-based line and column, with a shared handle
/// to the unit for rendering diagnostics.
#[derive(Debug)]
pub struct Position {
    pub file_info: Rc<FileInfo>,
    pub line: usize,
    pub column: usize,
}

impl Clone for Position {
    fn clone(&self) -> (r: Self)
        ensures
            r == *self,
    {
        Position { file_info: self.file_info.clone(), line: self.line, column: self.column }
    }
}

impl Position {
    /// The start of the unit: line 1, column 1.
    pub fn new(file_info: Rc<FileInfo>) -> (r: Position)
        ensures
            r.file_info == file_info,
            r.line == 1,
            r.column == 1,
    {
        Position { file_info, line: 1, column: 1 }
    }

    /// Moves one column to the right.
    pub fn add_column(&mut self)
        requires
            old(self).column < usize::MAX,
        ensures
            final(self).file_info == old(self).file_info,
            final(self).line == old(self).line,
            final(self).column == old(self).column + 1,
    {
        self.column = self.column + 1;
    }

    /// Moves to the first column of the next line.
    pub fn new_line(&mut self)
        requires
            old(self).line < usize::MAX,
        ensures
            final(self).file_info == old(self).file_info,
            final(self).line == old(self).line + 1,
            final(self).column == 1,
    {
        self.column = 1;
        self.line = self.line + 1;
    }

    /// Renders the diagnostic that points at this place.
    pub fn render(&self) -> (r: String)
        requires
            self.line >= 1,
            self.column >= 1,
        ensures
            r@ == diagnostic(
                (*self.file_info).name(),
                self.line as nat,
                line_of((*self.file_info).code(), (self.line - 1) as nat),
                self.column as nat,
            ),
    {
        let (name, line, code, column) = self.get_position();
        let mut out: Vec<char> = Vec::new();
        push_str(&mut out, name.as_str());
        out.push(':');
        push_decimal(&mut out, line as u64);
        out.push('\n');
        push_str(&mut out, code.as_str());
        out.push('\n');
        let ghost before = out@;
        let mut i: usize = 1;
        while i < column
            invariant
                1 <= i <= column,
                out@ == before + spaces((i - 1) as nat),
            decreases column - i,
        {
            out.push(' ');
            i = i + 1;
            assert(spaces((i - 1) as nat) == spaces((i - 2) as nat).push(' '));
        }
        out.push('^');
        out.push('\n');
        let ghost n = name@;
        assert(out@ =~= diagnostic(n, line as nat, code@, column as nat));
        string_of(&out)
    }

    /// The unit's name, the line number, the text of that line and the column.
    pub fn get_position(&self) -> (r: (String, usize, String, usize))
        requires
            self.line >= 1,
        ensures
            r.0@ == (*self.file_info).name(),
            r.1 == self.line,
            r.2@ == line_of((*self.file_info).code(), (self.line - 1) as nat),
            r.3 == self.column,
    {
        let code = chars_of(self.file_info.get_code());
        let ghost s = code@;
        let mut k: usize = self.line - 1;
        let mut acc: Vec<char> = Vec::new();
        let mut i: usize = 0;
        let mut done = false;
        assert(s.subrange(0, s.len() as int) =~= s);
        assert(acc@ + line_of(s, k as nat) =~= line_of(s, k as nat));
        while i < code.len() && !done
            invariant
                s == code@,
                i <= s.len(),
                s == (*self.file_info).code(),
                k > 0 ==> acc@.len() == 0,
                done ==> line_of(s, (self.line - 1) as nat) == acc@,
                !done ==> line_of(s, (self.line - 1) as nat) == acc@ + line_of(s.subrange(i as int, s.len() as int), k as nat),
            decreases s.len() - i,
        {
            let c = code[i];
            let ghost rest = s.subrange(i as int, s.len() as int);
            assert(rest[0] == c);
            assert(rest.drop_first() == s.subrange(i + 1, s.len() as int));
            if c == '\n' {
                if k == 0 {
                    assert(line_of(rest, 0) == Seq::<char>::empty());
                    assert(acc@ + Seq::<char>::empty() =~= acc@);
                    done = true;
                } else {
                    k = k - 1;
                }
            } else if k == 0 {
                let ghost prev = acc@;
                acc.push(c);
                assert(line_of(rest, 0) == seq![c] + line_of(rest.drop_first(), 0));
                assert(prev + (seq![c] + line_of(rest.drop_first(), 0)) == acc@ + line_of(rest.drop_first(), 0));
            }
            i = i + 1;
        }
        assert(line_of(s, (self.line - 1) as nat) == acc@) by {
            if !done {
                let ghost e = s.subrange(i as int, s.len() as int);
                assert(e.len() == 0);
                assert(line_of(e, k as nat) == Seq::<char>::empty());
                assert(acc@ + Seq::<char>::empty() =~= acc@);
            }
        }
        let name = string_of(&chars_of(self.file_info.get_name()));
        (name, self.line, string_of(&acc), self.column)
    }
}

} // verus!
