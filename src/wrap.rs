use vstd::prelude::*;

use crate::pos::Position;

verus! {

// Greedy word wrap. A line is chosen from the text that remains, given
// `widths`, where `widths[i]` is the pixel width of the first `i` characters
// laid out on their own (so `widths[0]` is the width of nothing).

/// The smallest `i >= start` whose prefix is wider than `max`.
pub open spec fn first_over(widths: Seq<i32>, max: i32, start: nat) -> Option<nat>
    decreases widths.len() - start,
{
    if start >= widths.len() {
        None
    } else if widths[start as int] > max {
        Some(start)
    } else {
        first_over(widths, max, start + 1)
    }
}

/// The position of the last space among the first `end` characters.
pub open spec fn last_space_before(chars: Seq<char>, end: nat) -> Option<nat>
    decreases end,
{
    if end == 0 {
        None
    } else if chars[end - 1] == ' ' {
        Some((end - 1) as nat)
    } else {
        last_space_before(chars, (end - 1) as nat)
    }
}

/// How many characters the next line takes. All of them when the whole
/// text fits. Otherwise, where the first `o` characters are the shortest
/// prefix that is too wide, the line ends after the last space that leaves
/// it narrow enough; with no such space the word is cut before character
/// `o - 1`, and a line always takes at least one character.
pub open spec fn spec_break(chars: Seq<char>, widths: Seq<i32>, max: i32) -> nat {
    match first_over(widths, max, 1) {
        None => chars.len(),
        Some(o) => match last_space_before(chars, (o - 1) as nat) {
            Some(j) => j + 1,
            None => if o >= 2 {
                (o - 1) as nat
            } else {
                1
            },
        },
    }
}

proof fn lemma_first_over_bounds(widths: Seq<i32>, max: i32, start: nat)
    ensures
        match first_over(widths, max, start) {
            Some(o) => start <= o < widths.len() && widths[o as int] > max && forall|i: int|
                start <= i < o ==> widths[i] <= max,
            None => forall|i: int| start <= i < widths.len() ==> widths[i] <= max,
        },
    decreases widths.len() - start,
{
    if start < widths.len() && widths[start as int] <= max {
        lemma_first_over_bounds(widths, max, start + 1);
    }
}

proof fn lemma_last_space_bounds(chars: Seq<char>, end: nat)
    ensures
        match last_space_before(chars, end) {
            Some(j) => j < end && chars[j as int] == ' ',
            None => true,
        },
    decreases end,
{
    if end > 0 && chars[end - 1] != ' ' {
        lemma_last_space_bounds(chars, (end - 1) as nat);
    }
}

/// A line takes at least one character and no more than there are, so
/// wrapping always ends; and the line is no wider than `max` unless it is a
/// single character that alone is too wide.
pub proof fn lemma_break_progress(chars: Seq<char>, widths: Seq<i32>, max: i32)
    requires
        chars.len() >= 1,
        widths.len() == chars.len() + 1,
    ensures
        1 <= spec_break(chars, widths, max) <= chars.len(),
        spec_break(chars, widths, max) >= 2 || first_over(widths, max, 1) is None ==> widths[spec_break(
            chars,
            widths,
            max,
        ) as int] <= max,
{
    lemma_first_over_bounds(widths, max, 1);
    match first_over(widths, max, 1) {
        Some(o) => {
            lemma_last_space_bounds(chars, (o - 1) as nat);
        },
        None => {},
    }
}

/// Chooses how many characters of `chars` the next line takes; see
/// `spec_break`.
pub fn break_line(chars: &Vec<char>, widths: &Vec<i32>, max_width: i32) -> (k: usize)
    requires
        chars@.len() >= 1,
        widths@.len() == chars@.len() + 1,
    ensures
        k == spec_break(chars@, widths@, max_width),
        1 <= k <= chars@.len(),
{
    proof {
        lemma_break_progress(chars@, widths@, max_width);
    }
    let mut o: usize = 1;
    while o < widths.len() && widths[o] <= max_width
        invariant
            1 <= o <= widths@.len(),
            first_over(widths@, max_width, 1) == first_over(widths@, max_width, o as nat),
        decreases widths@.len() - o,
    {
        o = o + 1;
    }
    if o == widths.len() {
        return chars.len();
    }
    let mut e: usize = o - 1;
    while e > 0 && chars[e - 1] != ' '
        invariant
            e <= o - 1,
            o < widths@.len(),
            widths@.len() == chars@.len() + 1,
            last_space_before(chars@, (o - 1) as nat) == last_space_before(chars@, e as nat),
        decreases e,
    {
        e = e - 1;
    }
    if e > 0 {
        e
    } else if o >= 2 {
        o - 1
    } else {
        1
    }
}

/// The progress of wrapping one block of text into lines: how much of the
/// text is placed, how many lines were made and how wide the widest was.
pub struct LineWrapper {
    origin: Position,
    max_height: Option<i32>,
    line_gap: i32,
    total: usize,
    consumed: usize,
    lines: usize,
    used_width: i32,
}

impl LineWrapper {
    pub closed spec fn spec_origin(&self) -> Position {
        self.origin
    }

    pub closed spec fn spec_max_height(&self) -> Option<i32> {
        self.max_height
    }

    pub closed spec fn spec_line_gap(&self) -> i32 {
        self.line_gap
    }

    pub closed spec fn spec_total(&self) -> nat {
        self.total as nat
    }

    pub closed spec fn spec_consumed(&self) -> nat {
        self.consumed as nat
    }

    pub closed spec fn spec_lines(&self) -> nat {
        self.lines as nat
    }

    pub closed spec fn spec_used_width(&self) -> i32 {
        self.used_width
    }

    pub open spec fn wf(&self) -> bool {
        &&& self.spec_consumed() <= self.spec_total() <= i32::MAX
        &&& self.spec_lines() <= self.spec_consumed()
    }

    /// The vertical distance from the origin to the next line.
    pub open spec fn spec_offset(&self) -> int {
        self.spec_lines() * self.spec_line_gap()
    }

    /// Where the next line goes, if one does: text must remain, the next
    /// line must start inside `max_height` and its position must be a pixel
    /// coordinate.
    pub open spec fn spec_next_origin(&self) -> Option<Position> {
        if self.spec_consumed() == self.spec_total() {
            None
        } else if self.spec_max_height() is Some && self.spec_offset()
            >= self.spec_max_height()->Some_0 {
            None
        } else if self.spec_origin().y + self.spec_offset() > i32::MAX || self.spec_origin().y
            + self.spec_offset() < i32::MIN {
            None
        } else {
            Some(
                Position {
                    x: self.spec_origin().x,
                    y: (self.spec_origin().y + self.spec_offset()) as i32,
                },
            )
        }
    }

    /// Starts wrapping `total` characters into lines below `origin`, each
    /// `line_gap` pixels under the one before, within `max_height` if given.
    pub fn new(total: usize, origin: Position, max_height: Option<i32>, line_gap: i32) -> (w: Self)
        requires
            total <= i32::MAX,
        ensures
            w.wf(),
            w.spec_total() == total,
            w.spec_origin() == origin,
            w.spec_max_height() == max_height,
            w.spec_line_gap() == line_gap,
            w.spec_consumed() == 0,
            w.spec_lines() == 0,
            w.spec_used_width() == 0,
    {
        LineWrapper { origin, max_height, line_gap, total, consumed: 0, lines: 0, used_width: 0 }
    }

    /// How many characters are placed already.
    pub fn consumed(&self) -> (n: usize)
        ensures
            n == self.spec_consumed(),
    {
        self.consumed
    }

    /// Where the next line goes, or `None` when wrapping is over.
    pub fn next_origin(&self) -> (p: Option<Position>)
        requires
            self.wf(),
        ensures
            p == self.spec_next_origin(),
    {
        if self.consumed == self.total {
            return None;
        }
        proof {
            assert(self.lines as int * self.line_gap as int <= i32::MAX as int * i32::MAX as int)
                by (nonlinear_arith)
                requires
                    0 <= self.lines <= i32::MAX,
                    self.line_gap as int <= i32::MAX,
                    self.line_gap as int >= i32::MIN,
            ;
            assert(self.lines as int * self.line_gap as int >= i32::MAX as int * i32::MIN as int)
                by (nonlinear_arith)
                requires
                    0 <= self.lines <= i32::MAX,
                    self.line_gap as int <= i32::MAX,
                    self.line_gap as int >= i32::MIN,
            ;
        }
        let offset: i64 = self.lines as i64 * self.line_gap as i64;
        match self.max_height {
            Some(h) => {
                if offset >= h as i64 {
                    return None;
                }
            },
            None => {},
        }
        let y = self.origin.y as i64 + offset;
        if y > i32::MAX as i64 || y < i32::MIN as i64 {
            return None;
        }
        Some(Position { x: self.origin.x, y: y as i32 })
    }

    /// Places the next line: `rest` is the text not yet placed and `widths`
    /// its prefix widths. Returns how many characters the line takes.
    pub fn take_line(&mut self, rest: &Vec<char>, widths: &Vec<i32>, max_width: i32) -> (k: usize)
        requires
            old(self).wf(),
            rest@.len() == old(self).spec_total() - old(self).spec_consumed(),
            rest@.len() >= 1,
            widths@.len() == rest@.len() + 1,
        ensures
            final(self).wf(),
            k == spec_break(rest@, widths@, max_width),
            final(self).spec_consumed() == old(self).spec_consumed() + k,
            final(self).spec_consumed() > old(self).spec_consumed(),
            final(self).spec_lines() == old(self).spec_lines() + 1,
            final(self).spec_used_width() == if widths@[k as int] > old(self).spec_used_width() {
                widths@[k as int]
            } else {
                old(self).spec_used_width()
            },
            final(self).spec_total() == old(self).spec_total(),
            final(self).spec_origin() == old(self).spec_origin(),
            final(self).spec_max_height() == old(self).spec_max_height(),
            final(self).spec_line_gap() == old(self).spec_line_gap(),
    {
        let k = break_line(rest, widths, max_width);
        self.consumed = self.consumed + k;
        self.lines = self.lines + 1;
        if widths[k] > self.used_width {
            self.used_width = widths[k];
        }
        k
    }

    /// The widest line's width and the vertical extent of the lines made.
    pub fn used(&self) -> (r: (i32, i64))
        requires
            self.wf(),
        ensures
            r.0 == self.spec_used_width(),
            r.1 == self.spec_offset(),
    {
        proof {
            assert(self.lines as int * self.line_gap as int <= i32::MAX as int * i32::MAX as int)
                by (nonlinear_arith)
                requires
                    0 <= self.lines <= i32::MAX,
                    self.line_gap as int <= i32::MAX,
                    self.line_gap as int >= i32::MIN,
            ;
            assert(self.lines as int * self.line_gap as int >= i32::MAX as int * i32::MIN as int)
                by (nonlinear_arith)
                requires
                    0 <= self.lines <= i32::MAX,
                    self.line_gap as int <= i32::MAX,
                    self.line_gap as int >= i32::MIN,
            ;
        }
        (self.used_width, self.lines as i64 * self.line_gap as i64)
    }
}

} // verus!
