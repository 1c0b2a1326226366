//! Incremental search: one list of matches per prefix of the query, the
//! match nearest to the cursor's line, and cycling through the matches.
use crate::buffer::{hits, Buffer};
use crate::commands::SearchCommand;
use crate::view::reconciled;
use crate::position::{Position, ScreenOffset, Size, RESERVED_ROWS};
use vstd::prelude::*;
use vstd::utf8::encode_utf8;

verus! {

/// Relies on `FromIterator<char> for String`: the string of the characters.
#[verifier::external_body]
fn string_from_chars(v: &Vec<char>) -> (r: String)
    ensures
        r@ == v@,
{
    v.iter().collect()
}

pub open spec fn dist(a: int, b: int) -> int {
    if a >= b {
        a - b
    } else {
        b - a
    }
}

/// The lines of the matches do not decrease.
pub open spec fn sorted_heights(ps: Seq<Position>) -> bool {
    forall|a: int, b: int| 0 <= a <= b < ps.len() ==> ps[a].height <= ps[b].height
}

/// `i` is the first of the matches whose line is nearest to `c`.
pub open spec fn is_nearest(ps: Seq<Position>, c: int, i: int) -> bool {
    &&& 0 <= i < ps.len()
    &&& forall|j: int| 0 <= j < ps.len() ==> dist(ps[i].height as int, c) <= dist(#[trigger] ps[j].height as int, c)
    &&& forall|j: int| 0 <= j < i ==> dist(ps[i].height as int, c) < dist(#[trigger] ps[j].height as int, c)
}

/// First index whose line is at least `v` (the length when there is none).
fn lower_bound(ps: &Vec<Position>, v: usize) -> (r: usize)
    requires
        sorted_heights(ps@),
    ensures
        r <= ps@.len(),
        forall|j: int| 0 <= j < r ==> (#[trigger] ps@[j]).height < v,
        forall|j: int| r <= j < ps@.len() ==> (#[trigger] ps@[j]).height >= v,
{
    let mut lo: usize = 0;
    let mut hi: usize = ps.len();
    while lo < hi
        invariant
            lo <= hi <= ps@.len(),
            sorted_heights(ps@),
            forall|j: int| 0 <= j < lo ==> (#[trigger] ps@[j]).height < v,
            forall|j: int| hi <= j < ps@.len() ==> (#[trigger] ps@[j]).height >= v,
        decreases hi - lo,
    {
        let mid = lo + (hi - lo) / 2;
        if ps[mid].height < v {
            lo = mid + 1;
        } else {
            hi = mid;
        }
    }
    lo
}

/// Index of the first match whose line is nearest to `curr_height`, the
/// lower line winning a tie; `None` when there are no matches.
pub fn nearest_match(ps: &Vec<Position>, curr_height: usize) -> (r: Option<usize>)
    requires
        sorted_heights(ps@),
    ensures
        r is None <==> ps@.len() == 0,
        r matches Some(i) ==> is_nearest(ps@, curr_height as int, i as int),
{
    let n = ps.len();
    if n == 0 {
        return None;
    }
    let k = lower_bound(ps, curr_height);
    if k == 0 {
        return Some(0);
    }
    let below = ps[k - 1].height;
    if k < n {
        let above = ps[k].height;
        if above - curr_height < curr_height - below {
            return Some(k);
        }
    }
    let first = lower_bound(ps, below);
    assert(ps@[first as int].height == below) by {
        assert(ps@[k - 1].height == below);
    }
    Some(first)
}

proof fn lemma_hits_sorted(t: Seq<crate::line::Line>, q: Seq<u8>, k: int)
    requires
        0 <= k,
    ensures
        forall|i: int| 0 <= i < hits(t, q, k).len() ==> 0 <= (#[trigger] hits(t, q, k)[i]).0 < k,
        forall|a: int, b: int|
            0 <= a <= b < hits(t, q, k).len() ==> hits(t, q, k)[a].0 <= hits(t, q, k)[b].0,
    decreases k,
{
    if k > 0 {
        lemma_hits_sorted(t, q, k - 1);
        let prev = hits(t, q, k - 1);
        let m = crate::buffer::matches_from(t[k - 1].bytes(), q, 0).map_values(|w: int| (k - 1, w));
        assert(hits(t, q, k) == prev + m);
        assert forall|i: int| 0 <= i < hits(t, q, k).len() implies 0 <= (#[trigger] hits(t, q, k)[i]).0 < k by {
            if i >= prev.len() {
                assert(hits(t, q, k)[i] == m[i - prev.len()]);
            }
        }
        assert forall|a: int, b: int| 0 <= a <= b < hits(t, q, k).len() implies hits(t, q, k)[a].0 <= hits(
            t,
            q,
            k,
        )[b].0 by {
            if b >= prev.len() {
                assert(hits(t, q, k)[b] == m[b - prev.len()]);
                if a >= prev.len() {
                    assert(hits(t, q, k)[a] == m[a - prev.len()]);
                }
            }
        }
    }
}

/// The matches of `query` in the buffer, sorted by line.
fn matches_of(buffer: &Buffer, query: &Vec<char>) -> (r: Vec<Position>)
    ensures
        r@.map_values(|p: Position| (p.height as int, p.width as int)) == hits(
            buffer.text@,
            encode_utf8(query@),
            buffer.text@.len() as int,
        ),
        sorted_heights(r@),
{
    let text = string_from_chars(query);
    let r = buffer.search(text.as_str());
    proof {
        let t = buffer.text@;
        let q = encode_utf8(query@);
        lemma_hits_sorted(t, q, t.len() as int);
        let f = |p: Position| (p.height as int, p.width as int);
        assert forall|a: int, b: int| 0 <= a <= b < r@.len() implies r@[a].height <= r@[b].height by {
            assert(r@.map_values(f)[a] == f(r@[a]));
            assert(r@.map_values(f)[b] == f(r@[b]));
        }
    }
    r
}

/// State of an incremental search: the query typed so far, one list of
/// matches for each of its prefixes, the match shown, and the view.
pub struct Search {
    pub index: usize,
    pub cursor_position: Position,
    pub screen_offset: ScreenOffset,
    pub stack: Vec<Vec<Position>>,
    pub string: Vec<char>,
}

impl Search {
    /// One list of matches per character of the query, each sorted by line,
    /// and the index names a match of the last list when it has any.
    pub open spec fn wf(&self) -> bool {
        &&& self.stack@.len() == self.string@.len()
        &&& self.stack_sorted()
        &&& self.stack@.len() > 0 && self.top().len() > 0 ==> self.index < self.top().len()
    }

    /// Every list of matches is sorted by line.
    pub open spec fn stack_sorted(&self) -> bool {
        forall|i: int| 0 <= i < self.stack@.len() ==> sorted_heights(#[trigger] self.stack@[i]@)
    }

    /// The matches of the whole query.
    pub open spec fn top(&self) -> Seq<Position> {
        self.stack@.last()@
    }

    /// A search that starts at the cursor and view it restores on cancel.
    pub fn new(pos: Position, offset: ScreenOffset) -> (r: Search)
        ensures
            r.wf(),
            r.index == 0,
            r.cursor_position == pos,
            r.screen_offset == offset,
            r.stack@.len() == 0,
            r.string@.len() == 0,
    {
        Search {
            index: 0,
            cursor_position: pos,
            screen_offset: offset,
            stack: Vec::new(),
            string: Vec::new(),
        }
    }

    /// Index of the first match of the whole query whose line is nearest to
    /// `curr_height`; `None` when the query or its matches are empty.
    pub fn find_relative_start(&self, curr_height: usize) -> (r: Option<usize>)
        requires
            self.stack_sorted(),
        ensures
            r is None <==> (self.stack@.len() == 0 || self.top().len() == 0),
            r matches Some(i) ==> is_nearest(self.top(), curr_height as int, i as int),
    {
        if self.stack.len() == 0 {
            return None;
        }
        let last = self.stack.len() - 1;
        assert(sorted_heights(self.stack@[last as int]@));
        nearest_match(&self.stack[last], curr_height)
    }

    /// Handles one command. Returns false once the search is over: on cancel
    /// the caller's cursor and view stay as they were; on accept they take
    /// the match shown. Otherwise the match nearest to the caller's line is
    /// shown (or the caller's cursor and view when nothing matches) and the
    /// view is scrolled to it.
    pub fn process(
        &mut self,
        command: SearchCommand,
        buffer: &Buffer,
        prev_pos: &mut Position,
        prev_offset: &mut ScreenOffset,
        size: &mut Size,
    ) -> (r: bool)
        requires
            old(self).wf(),
        ensures
            final(self).wf(),
            r == !(command is RevertState || command is AssumeState),
            command is AssumeState ==> *final(prev_pos) == old(self).cursor_position
                && *final(prev_offset) == old(self).screen_offset,
            !(command is AssumeState) ==> *final(prev_pos) == *old(prev_pos) && *final(prev_offset)
                == *old(prev_offset),
            command is RevertState ==> final(self).cursor_position == *old(prev_pos)
                && final(self).screen_offset == *old(prev_offset),
            match command {
                SearchCommand::Resize(s) => *final(size) == s,
                _ => *final(size) == *old(size),
            },
            match command {
                SearchCommand::Insert(c) => {
                    &&& final(self).string@ == old(self).string@.push(c)
                    &&& final(self).stack@.len() == old(self).stack@.len() + 1
                    &&& final(self).top().map_values(|p: Position| (p.height as int, p.width as int))
                        == hits(buffer.text@, encode_utf8(final(self).string@), buffer.text@.len() as int)
                },
                SearchCommand::BackSpace => if old(self).string@.len() > 0 {
                    &&& final(self).string@ == old(self).string@.drop_last()
                    &&& final(self).stack@ == old(self).stack@.drop_last()
                } else {
                    &&& final(self).string@ == old(self).string@
                    &&& final(self).stack@ == old(self).stack@
                },
                _ => final(self).string@ == old(self).string@ && final(self).stack@ == old(self).stack@,
            },
            (command is Insert || command is BackSpace) && final(self).stack@.len() > 0
                && final(self).top().len() > 0 ==> is_nearest(
                final(self).top(),
                old(prev_pos).height as int,
                final(self).index as int,
            ),
            command is Next && old(self).stack@.len() > 0 && old(self).top().len() > 0 ==> final(self).index == if old(self).index
                < old(self).top().len() - 1 {
                old(self).index + 1
            } else {
                0int
            },
            command is Previous && old(self).stack@.len() > 0 && old(self).top().len() > 0 ==> final(self).index == if old(self).index
                > 0 {
                old(self).index - 1
            } else {
                old(self).top().len() as int - 1
            },
            !(command is RevertState || command is AssumeState || command is NoAction) ==> if final(self).stack@.len() > 0 && final(self).top().len() > 0 {
                &&& final(self).cursor_position == final(self).top()[final(self).index as int]
                &&& final(self).screen_offset == reconciled(
                    if final(self).cursor_position.width < final(size).width {
                        ScreenOffset { height: old(self).screen_offset.height, width: 0 }
                    } else {
                        old(self).screen_offset
                    },
                    final(self).cursor_position,
                    *final(size),
                    buffer.text@.len() as usize,
                )
            } else {
                &&& final(self).cursor_position == *old(prev_pos)
                &&& final(self).screen_offset == *old(prev_offset)
            },
    {
        match command {
            SearchCommand::Insert(c) => {
                self.string.push(c);
                let found = matches_of(buffer, &self.string);
                self.stack.push(found);
                self.index = match self.find_relative_start(prev_pos.height) {
                    Some(i) => i,
                    None => 0,
                };
            },
            SearchCommand::Next => {
                if self.stack.len() > 0 {
                    let n = self.stack[self.stack.len() - 1].len();
                    self.index = if self.index < n.saturating_sub(1) {
                        self.index + 1
                    } else {
                        0
                    };
                }
            },
            SearchCommand::Previous => {
                if self.stack.len() > 0 {
                    let n = self.stack[self.stack.len() - 1].len();
                    self.index = if self.index > 0 {
                        self.index - 1
                    } else {
                        n.saturating_sub(1)
                    };
                }
            },
            SearchCommand::RevertState => {
                self.cursor_position = *prev_pos;
                self.screen_offset = *prev_offset;
                return false;
            },
            SearchCommand::AssumeState => {
                *prev_pos = self.cursor_position;
                *prev_offset = self.screen_offset;
                return false;
            },
            SearchCommand::BackSpace => {
                if self.string.len() > 0 {
                    self.string.pop();
                    self.stack.pop();
                    self.index = match self.find_relative_start(prev_pos.height) {
                        Some(i) => i,
                        None => 0,
                    };
                }
            },
            SearchCommand::Resize(new_size) => {
                *size = new_size;
            },
            SearchCommand::NoAction => {
                return true;
            },
        }
        if self.stack.len() == 0 || self.stack[self.stack.len() - 1].len() == 0 {
            self.cursor_position = *prev_pos;
            self.screen_offset = *prev_offset;
            return true;
        }
        let last = self.stack.len() - 1;
        self.cursor_position = self.stack[last][self.index];
        if self.cursor_position.width < size.width {
            self.screen_offset.width = 0;
        }
        let shown = self.cursor_position;
        let dis = shown.max_displacement_from_view(&self.screen_offset, size, RESERVED_ROWS);
        if dis == 1 {
            self.screen_offset.update_offset_single_move(&shown, size, RESERVED_ROWS);
        } else if dis > 1 {
            self.screen_offset.handle_offset_screen_snap(&shown, size, RESERVED_ROWS, buffer.len());
        }
        true
    }
}

} // verus!
