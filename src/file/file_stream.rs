use std::rc::Rc;
use vstd::math::min;
use vstd::prelude::*;

use super::file_info::FileInfo;
use super::position::Position;
use super::text::chars_of;

verus! {

/// Line and column (both from 1) of the character at index `i` of `s`.
pub open spec fn line_col(s: Seq<char>, i: nat) -> (nat, nat)
    decreases i,
{
    if i == 0 {
        (1, 1)
    } else {
        let (l, c) = line_col(s, (i - 1) as nat);
        if s[i - 1] == '\n' {
            (l + 1, 1)
        } else {
            (l, c + 1)
        }
    }
}

/// `p` is the position of the character at index `k` of the unit `fi`.
pub open spec fn placed(p: Position, fi: Rc<FileInfo>, k: int) -> bool {
    &&& p.file_info == fi
    &&& k >= 0
    &&& (p.line as nat, p.column as nat) == line_col(fi.code(), k as nat)
}

/// The characters of a unit, each with its position, ending in a `'\0'`
/// sentinel; a cursor marks the next one. The sentinel is never consumed.
pub struct FileStream {
    chars: Vec<(Position, char)>,
    index: usize,
}

impl FileStream {
    /// The characters not yet consumed, the sentinel included.
    pub closed spec fn rest(&self) -> Seq<char> {
        self.chars@.subrange(self.index as int, self.chars@.len() as int).map_values(
            |p: (Position, char)| p.1,
        )
    }

    /// The position of the `k`-th character not yet consumed.
    pub closed spec fn position_at(&self, k: int) -> Position {
        self.chars@[self.index + k].0
    }

    /// Every character of the unit with its position, the sentinel last.
    pub closed spec fn all(&self) -> Seq<(Position, char)> {
        self.chars@
    }

    /// The index in `all` of the next character.
    pub closed spec fn cursor(&self) -> nat {
        self.index as nat
    }

    /// The characters not yet consumed are those of `all` from the cursor on.
    pub proof fn lemma_layout(&self)
        requires
            self.wf(),
        ensures
            self.cursor() < self.all().len(),
            self.rest().len() == self.all().len() - self.cursor(),
            forall|k: int|
                0 <= k < self.rest().len() ==> #[trigger] self.rest()[k] == self.all()[self.cursor() + k].1
                    && self.position_at(k) == self.all()[self.cursor() + k].0,
    {
    }

    pub closed spec fn wf(&self) -> bool {
        &&& self.index < self.chars@.len()
        &&& self.chars@.last().1 == '\0'
    }

    /// Splits the unit's text into positioned characters and appends the
    /// sentinel at the position after the last one.
    /// Splits the unit's text into positioned characters and appends the
    /// sentinel at the position after the last one.
    pub fn new(file_info: Rc<FileInfo>) -> (r: FileStream)
        requires
            file_info.code().len() + 2 < usize::MAX,
        ensures
            r.wf(),
            r.rest() == file_info.code().push('\0'),
            forall|k: int|
                0 <= k < r.rest().len() ==> #[trigger] placed(r.position_at(k), file_info, k),
    {
        let code = chars_of(file_info.get_code());
        let ghost s = code@;
        let mut position = Position::new(file_info.clone());
        let mut chars: Vec<(Position, char)> = Vec::new();
        let mut i: usize = 0;
        while i < code.len()
            invariant
                s == code@,
                s == file_info.code(),
                s.len() + 2 < usize::MAX,
                i <= s.len(),
                chars@.len() == i,
                placed(position, file_info, i as int),
                position.line <= i + 1,
                position.column <= i + 1,
                forall|k: int| 0 <= k < i ==> #[trigger] chars@[k].1 == s[k],
                forall|k: int| 0 <= k < i ==> #[trigger] placed(chars@[k].0, file_info, k),
            decreases s.len() - i,
        {
            let c = code[i];
            let ghost before = chars@;
            let ghost at = position;
            chars.push((position.clone(), c));
            if c == '\n' {
                position.new_line();
            } else {
                position.add_column();
            }
            i = i + 1;
            assert forall|k: int| 0 <= k < i implies #[trigger] chars@[k].1 == s[k] && placed(chars@[k].0, file_info, k) by {
                if k < i - 1 {
                    assert(chars@[k] == before[k]);
                } else {
                    assert(chars@[k] == (at, c));
                }
            }
        }
        let ghost pre = chars@;
        let ghost pos = position;
        chars.push((position, '\0'));
        let r = FileStream { chars, index: 0 };
        assert forall|k: int| 0 <= k < s.len() + 1 implies #[trigger] placed(r.position_at(k), file_info, k) by {
            if k < s.len() {
                assert(chars@[k] == pre[k]);
            } else {
                assert(chars@[k] == (pos, '\0'));
            }
        }
        assert forall|k: int| 0 <= k < s.len() + 1 implies #[trigger] r.rest()[k] == s.push('\0')[k] by {
            if k < s.len() {
                assert(chars@[k] == pre[k]);
            }
        }
        assert(r.rest() =~= s.push('\0'));
        r
    }

    /// Consumes one character, unless only the sentinel is left.
    fn next(&mut self)
        requires
            old(self).wf(),
        ensures
            final(self).wf(),
            final(self).chars == old(self).chars,
            old(self).rest().len() <= 1 ==> final(self).index == old(self).index,
            old(self).rest().len() > 1 ==> final(self).index == old(self).index + 1,
    {
        if self.chars.len() - self.index > 1 {
            self.index = self.index + 1;
        }
    }

    /// The next character with its position.
    pub fn peek(&self) -> (r: Option<(Position, char)>)
        requires
            self.wf(),
        ensures
            r is Some,
            r->Some_0.1 == self.rest()[0],
            r->Some_0.0 == self.position_at(0),
    {
        let p = &self.chars[self.index];
        Some((p.0.clone(), p.1))
    }

    /// Whether only the sentinel is left.
    pub fn is_empty(&self) -> (r: bool)
        requires
            self.wf(),
        ensures
            r == (self.rest().len() <= 1),
    {
        self.chars.len() - self.index <= 1
    }

    /// Whether the characters not yet consumed start with `prefix`.
    pub fn starts_with(&self, prefix: &str) -> (r: bool)
        requires
            self.wf(),
        ensures
            r == (prefix@.len() <= self.rest().len() && self.rest().subrange(0, prefix@.len() as int)
                == prefix@),
    {
        let p = chars_of(prefix);
        assert(self.rest().len() == self.chars@.len() - self.index);
        let total = self.chars.len();
        if self.chars.len() - self.index < p.len() {
            return false;
        }
        let mut i: usize = 0;
        while i < p.len()
            invariant
                self.wf(),
                p@ == prefix@,
                p@.len() <= self.rest().len(),
                self.rest().len() == self.chars@.len() - self.index,
                total == self.chars@.len(),
                i <= p@.len(),
                forall|k: int| 0 <= k < i ==> self.rest()[k] == p@[k],
            decreases p@.len() - i,
        {
            assert(i < self.rest().len());
            assert(self.index + i < self.chars@.len());
            if self.chars[self.index + i].1 != p[i] {
                assert(self.rest()[i as int] != p@[i as int]);
                return false;
            }
            i = i + 1;
        }
        assert(self.rest().subrange(0, prefix@.len() as int) =~= prefix@);
        true
    }

    pub fn starts_with_white_space(&self) -> (r: bool)
        requires
            self.wf(),
        ensures
            r == (self.rest()[0] == ' ' || self.rest()[0] == '\t' || self.rest()[0] == '\n'),
    {
        let c = self.chars[self.index].1;
        c == ' ' || c == '\t' || c == '\n'
    }

    pub fn starts_with_underscore(&self) -> (r: bool)
        requires
            self.wf(),
        ensures
            r == (self.rest()[0] == '_'),
    {
        self.chars[self.index].1 == '_'
    }

    /// The characters not yet consumed end with the sentinel.
    pub proof fn lemma_sentinel(&self)
        requires
            self.wf(),
        ensures
            self.rest().len() >= 1,
            self.rest().last() == '\0',
    {
    }

    pub fn starts_with_number(&self) -> (r: bool)
        requires
            self.wf(),
        ensures
            r == is_digit(self.rest()[0]),
    {
        let c = self.chars[self.index].1;
        '0' <= c && c <= '9'
    }

    pub fn starts_with_alphabet(&self) -> (r: bool)
        requires
            self.wf(),
        ensures
            r == is_alphabet(self.rest()[0]),
    {
        let c = self.chars[self.index].1;
        ('a' <= c && c <= 'z') || ('A' <= c && c <= 'Z')
    }

    /// Consumes up to `times` characters, never the sentinel, and returns the
    /// first of them with its position.
    pub fn advance(&mut self, times: usize) -> (r: Option<(Position, char)>)
        requires
            old(self).wf(),
        ensures
            final(self).wf(),
            final(self).all() == old(self).all(),
            r is Some,
            r->Some_0.1 == old(self).rest()[0],
            r->Some_0.0 == old(self).position_at(0),
            final(self).rest() == old(self).rest().subrange(
                min(times as int, old(self).rest().len() - 1),
                old(self).rest().len() as int,
            ),
            forall|k: int|
                0 <= k < final(self).rest().len() ==> #[trigger] final(self).position_at(k)
                    == old(self).position_at(k + min(times as int, old(self).rest().len() - 1)),
    {
        let c = self.peek();
        let mut i: usize = 0;
        while i < times
            invariant
                self.wf(),
                self.chars == old(self).chars,
                i <= times,
                self.index == old(self).index + min(i as int, old(self).rest().len() - 1),
            decreases times - i,
        {
            self.next();
            i = i + 1;
        }
        assert(self.rest() =~= old(self).rest().subrange(
            min(times as int, old(self).rest().len() - 1),
            old(self).rest().len() as int,
        ));
        c
    }
}

pub open spec fn is_digit(c: char) -> bool {
    '0' <= c && c <= '9'
}

pub open spec fn is_alphabet(c: char) -> bool {
    ('a' <= c && c <= 'z') || ('A' <= c && c <= 'Z')
}

} // verus!
