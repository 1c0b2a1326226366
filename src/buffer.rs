//! The text buffer: an ordered sequence of lines with the edits and queries
//! that the editing modes make on it.
use crate::line::{
    capped, char_string, chars_of_string, fragment_of, source_of,
    grapheme_clusters, next_word_at, next_word_start_at,
    next_word_start_spill, opt, prev_word_at, prev_word_spill, scan_fwd, text_of, word_end_at,
    word_end_spill, word_start_at, word_start_spill, FragmentView, GraphemeWidth, Line,
    TextFragment,
};
use crate::position::Position;
use vstd::prelude::*;
use vstd::utf8::encode_utf8;

verus! {

/// The ways a word motion continues on a neighbouring line.
pub enum Spill {
    NextWord,
    PrevWord,
    NextWordStart,
    WordStart,
    WordEnd,
}

/// Where a word motion lands on a line that it enters from a neighbour.
pub open spec fn spill(l: Line, kind: Spill) -> Option<int> {
    match kind {
        Spill::NextWord => if l.string@.len() == 0 {
            None
        } else {
            scan_fwd(l.bytes(), 0, false)
        },
        Spill::PrevWord => if l.string@.len() == 0 {
            None
        } else {
            prev_word_spill(l.bytes())
        },
        Spill::NextWordStart => if l.string@.len() == 0 {
            None
        } else {
            next_word_start_spill(l.bytes())
        },
        Spill::WordStart => word_start_spill(l.bytes()),
        Spill::WordEnd => if l.string@.len() == 0 {
            None
        } else {
            word_end_spill(l.bytes())
        },
    }
}

/// The first line below `h` where the motion lands, with its column.
pub open spec fn first_down(t: Seq<Line>, h: int, kind: Spill) -> Option<(int, int)>
    decreases t.len() - h,
{
    if h < 0 || h + 1 >= t.len() {
        None
    } else {
        match spill(t[h + 1], kind) {
            Some(w) => Some((h + 1, w)),
            None => first_down(t, h + 1, kind),
        }
    }
}

/// The first line above `h` where the motion lands, with its column.
pub open spec fn first_up(t: Seq<Line>, h: int, kind: Spill) -> Option<(int, int)>
    decreases h,
{
    if h <= 0 || h > t.len() {
        None
    } else {
        match spill(t[h - 1], kind) {
            Some(w) => Some((h - 1, w)),
            None => first_up(t, h - 1, kind),
        }
    }
}

/// Columns of line `h`.
pub open spec fn line_cols(t: Seq<Line>, h: int) -> usize {
    capped(t[h].cols())
}

/// Every line's cached text is current.
pub open spec fn lines_wf(t: Seq<Line>) -> bool {
    forall|i: int| 0 <= i < t.len() ==> (#[trigger] t[i]).wf()
}

/// A soft tab: the four fragments left of column `w` are single spaces.
pub open spec fn tab_before(l: Seq<FragmentView>, w: int) -> bool {
    &&& 4 <= w <= l.len()
    &&& forall|k: int| w - 4 <= k < w ==> (#[trigger] l[k]).grapheme == seq![' ']
}

/// Scanning from fragment `k`, whose start lies at column `acc`: the first
/// fragment that starts at or past column `w` (or the line's length).
pub open spec fn col_from(l: Seq<FragmentView>, k: int, acc: int, w: int) -> int
    decreases l.len() - k,
{
    if k < 0 || k >= l.len() || acc >= w {
        k
    } else {
        col_from(l, k + 1, acc + view_cols(l[k]), w)
    }
}

/// The index of the fragment at display column `w`: the first one that
/// starts at or past it (the line's length when none does).
pub open spec fn col_index(l: Seq<FragmentView>, w: int) -> int {
    col_from(l, 0, 0, w)
}

/// Scanning from fragment `k`, whose start lies at column `acc`: the first
/// fragment that starts past column `w` (or the line's length).
pub open spec fn col_from_past(l: Seq<FragmentView>, k: int, acc: int, w: int) -> int
    decreases l.len() - k,
{
    if k < 0 || k >= l.len() || acc > w {
        k
    } else {
        col_from_past(l, k + 1, acc + view_cols(l[k]), w)
    }
}

/// The index just past the fragment that covers display column `w`: the
/// first fragment that starts past it (the line's length when none does).
pub open spec fn col_after(l: Seq<FragmentView>, w: int) -> int {
    col_from_past(l, 0, 0, w)
}

/// Columns taken by the fragments.
pub open spec fn vcols(l: Seq<FragmentView>) -> nat
    decreases l.len(),
{
    if l.len() == 0 {
        0
    } else {
        vcols(l.drop_last()) + view_cols(l.last())
    }
}

/// One backspace at display column `w`: the line and the column after it.
/// The fragment before the one at column `w` goes, or the four spaces
/// before it when they form a soft tab.
pub open spec fn delete_step(l: Seq<FragmentView>, w: int) -> (Seq<FragmentView>, int) {
    let k = col_index(l, w);
    if k < 1 {
        (l, w)
    } else if tab_before(l, k) {
        (
            l.subrange(0, k - 4) + l.subrange(k, l.len() as int),
            if w >= 4 {
                w - 4
            } else {
                0
            },
        )
    } else if w >= view_cols(l[k - 1]) {
        (l.remove(k - 1), w - view_cols(l[k - 1]))
    } else {
        (l.remove(k - 1), 0)
    }
}

/// Line `l` without its fragments `lo` up to `hi` (excluded).
pub open spec fn cut(l: Seq<FragmentView>, lo: int, hi: int) -> Seq<FragmentView> {
    l.subrange(0, lo) + l.subrange(hi, l.len() as int)
}

/// Index just past the run of spaces that starts at or after `i`.
pub open spec fn space_run_end(b: Seq<u8>, i: int) -> int
    decreases b.len() - i,
{
    if 0 <= i < b.len() && b[i] == 32 {
        space_run_end(b, i + 1)
    } else {
        i
    }
}

/// `n` space fragments.
pub open spec fn spaces(n: nat) -> Seq<FragmentView> {
    Seq::new(n, |k: int| fragment_of(seq![' ']))
}

/// The fragment written for a typed character.
pub open spec fn typed(c: char) -> FragmentView {
    fragment_of(seq![c])
}

pub open spec fn view_cols(f: FragmentView) -> nat {
    match f.render_width {
        GraphemeWidth::Half => 1,
        GraphemeWidth::Full => 2,
    }
}

#[derive(Default, Clone)]
pub struct Buffer {
    pub text: Vec<Line>,
    pub filename: Option<String>,
    pub is_saved: bool,
}

impl Buffer {
    pub open spec fn wf(&self) -> bool {
        lines_wf(self.text@)
    }

    /// The cursor names a line of the buffer, or the origin of an empty one.
    pub open spec fn holds(&self, pos: Position) -> bool {
        if self.text@.len() == 0 {
            pos.height == 0 && pos.width == 0
        } else {
            pos.height < self.text@.len()
        }
    }

    pub fn is_empty(&self) -> (r: bool)
        ensures
            r == (self.text@.len() == 0),
    {
        self.text.len() == 0
    }

    pub fn len(&self) -> (r: usize)
        ensures
            r == self.text@.len(),
    {
        self.text.len()
    }

    /// An empty buffer that will be saved under `filename`.
    pub fn load_named_empty(filename: &str) -> (r: Buffer)
        ensures
            r.text@.len() == 0,
            r.filename matches Some(f) && f@ == filename@,
            !r.is_saved,
    {
        Buffer { text: Vec::new(), filename: Some(filename.to_owned()), is_saved: false }
    }

    pub fn assume_file_name(&mut self, filename: String)
        ensures
            final(self).filename == Some(filename),
            final(self).text == old(self).text,
            final(self).is_saved == old(self).is_saved,
    {
        self.filename = Some(filename);
    }

    /// Types `insert_char` before the fragment at the cursor's display column
    /// (at the line's end when the cursor lies past it) and moves the cursor
    /// past it by the columns it takes.
    pub fn update_line_insert(&mut self, pos: &mut Position, insert_char: char)
        requires
            old(self).wf(),
            old(self).holds(*old(pos)),
        ensures
            final(self).wf(),
            !final(self).is_saved,
            final(self).filename == old(self).filename,
            ({
                let h = old(pos).height as int;
                let before = if old(self).text@.len() == 0 {
                    Seq::<FragmentView>::empty()
                } else {
                    old(self).text@[h]@
                };
                let at = col_index(before, old(pos).width as int);
                &&& final(self).text@.len() == if old(self).text@.len() == 0 {
                    1
                } else {
                    old(self).text@.len()
                }
                &&& final(self).text@[h]@ == before.insert(at, typed(insert_char))
                &&& forall|i: int|
                    0 <= i < old(self).text@.len() && i != h ==> #[trigger] final(self).text@[i]
                        == old(self).text@[i]
                &&& final(pos).height == old(pos).height
                &&& final(pos).width == old(pos).width.saturating_add(
                    view_cols(typed(insert_char)) as usize,
                )
                &&& final(pos).max_width == final(pos).width
            }),
    {
        let glyph = char_string(insert_char);
        let fragment = TextFragment::new(glyph.as_str());
        let move_width: usize = match fragment.render_width {
            GraphemeWidth::Half => 1,
            GraphemeWidth::Full => 2,
        };
        if self.text.len() == 0 {
            let mut line = Line { string: Vec::new(), raw_string: String::new() };
            line.string.push(fragment);
            line.generate_raw_string();
            self.text.push(line);
            assert(self.text@[0]@ =~= Seq::<FragmentView>::empty().insert(0, typed(insert_char)));
        } else {
            let h = pos.height;
            let at = fragment_at_column(&self.text[h], pos.width);
            let ghost before = self.text@[h as int];
            self.text[h].string.insert(at, fragment);
            self.text[h].generate_raw_string();
            assert(self.text@[h as int]@ =~= before@.insert(at as int, typed(insert_char)));
        }
        self.is_saved = false;
        pos.width = pos.width.saturating_add(move_width);
        pos.max_width = pos.width;
    }

    /// True when the four fragments before the one at the cursor's column
    /// are single spaces.
    pub fn is_tab(&self, pos: &Position) -> (r: bool)
        requires
            pos.height < self.text@.len(),
        ensures
            r == tab_before(
                self.text@[pos.height as int]@,
                col_index(self.text@[pos.height as int]@, pos.width as int),
            ),
    {
        let line = &self.text[pos.height];
        let k = fragment_at_column(line, pos.width);
        spaces_before(line, k)
    }

    /// Removes the grapheme left of the cursor's column, or the whole soft
    /// tab when the four fragments left of it are spaces, and moves the
    /// cursor left by the columns removed.
    pub fn update_line_delete(&mut self, pos: &mut Position)
        requires
            old(self).wf(),
            old(pos).height < old(self).text@.len(),
            0 < old(pos).width,
            old(self).text@[old(pos).height as int].string@.len() > 0,
        ensures
            final(self).wf(),
            !final(self).is_saved,
            final(self).filename == old(self).filename,
            final(self).text@.len() == old(self).text@.len(),
            forall|i: int|
                0 <= i < old(self).text@.len() && i != old(pos).height ==> #[trigger] final(self).text@[i]
                    == old(self).text@[i],
            final(pos).height == old(pos).height,
            final(pos).max_width == final(pos).width,
            (final(self).text@[old(pos).height as int]@, final(pos).width as int) == delete_step(
                old(self).text@[old(pos).height as int]@,
                old(pos).width as int,
            ),
    {
        let h = pos.height;
        let ghost l = self.text@[h as int];
        let k = fragment_at_column(&self.text[h], pos.width);
        proof {
            lemma_col_from_ge(l@, 1, view_cols(l@[0]) as int, pos.width as int);
        }
        if spaces_before(&self.text[h], k) {
            let mut i: usize = k;
            while i > k - 4
                invariant
                    4 <= k <= l.string@.len(),
                    k - 4 <= i <= k,
                    h < self.text@.len() == old(self).text@.len(),
                    l == old(self).text@[h as int],
                    self.text@[h as int].string@ == l.string@.subrange(0, i as int) + l.string@.subrange(
                        k as int,
                        l.string@.len() as int,
                    ),
                    forall|j: int|
                        0 <= j < old(self).text@.len() && j != h ==> #[trigger] self.text@[j]
                            == old(self).text@[j],
                    lines_wf(old(self).text@),
                    self.filename == old(self).filename,
                decreases i,
            {
                self.text[h].string.remove(i - 1);
                assert(self.text@[h as int].string@ =~= l.string@.subrange(0, i - 1) + l.string@.subrange(
                    k as int,
                    l.string@.len() as int,
                ));
                i = i - 1;
            }
            self.text[h].generate_raw_string();
            assert(self.text@[h as int]@ =~= l@.subrange(0, k - 4) + l@.subrange(k as int, l@.len() as int));
            self.is_saved = false;
            pos.left(4);
            return;
        }
        let removed = self.text[h].string.remove(k - 1);
        self.text[h].generate_raw_string();
        assert(self.text@[h as int]@ =~= l@.remove(k - 1));
        self.is_saved = false;
        let diff: usize = match removed.render_width {
            GraphemeWidth::Half => 1,
            GraphemeWidth::Full => 2,
        };
        assert(view_cols(l@[k - 1]) == diff);
        pos.left(diff);
    }

    /// Number of soft tabs that indent line `index`: its leading spaces,
    /// divided by four.
    pub fn num_tabs(&self, index: usize) -> (r: usize)
        requires
            index < self.text@.len(),
        ensures
            r == space_run_end(self.text@[index as int].bytes(), 0) / 4,
            r <= usize::MAX / 4,
    {
        let bytes = self.text[index].raw_string.as_str().as_bytes();
        let len = bytes.len();
        let mut i: usize = 0;
        while i < len && bytes[i] == 32
            invariant
                len == bytes@.len(),
                space_run_end(bytes@, 0) == space_run_end(bytes@, i as int),
            decreases len - i,
        {
            i = i + 1;
        }
        i / 4
    }

    /// Appends `num_tabs` soft tabs (four space fragments each) to the line
    /// of the cursor; an empty buffer first gets an empty line.
    pub fn insert_tab(&mut self, pos: &Position, num_tabs: usize)
        requires
            old(self).wf(),
            old(self).holds(*pos),
            num_tabs <= usize::MAX / 4,
        ensures
            final(self).wf(),
            !final(self).is_saved,
            final(self).filename == old(self).filename,
            ({
                let h = pos.height as int;
                let before = if old(self).text@.len() == 0 {
                    Seq::<FragmentView>::empty()
                } else {
                    old(self).text@[h]@
                };
                &&& final(self).text@.len() == if old(self).text@.len() == 0 {
                    1
                } else {
                    old(self).text@.len()
                }
                &&& final(self).text@[h]@ == before + spaces(4 * num_tabs as nat)
                &&& forall|i: int|
                    0 <= i < old(self).text@.len() && i != h ==> #[trigger] final(self).text@[i]
                        == old(self).text@[i]
            }),
    {
        if self.text.len() == 0 {
            self.text.push(empty_line());
        }
        let h = pos.height;
        let ghost before = self.text@[h as int]@;
        let ghost mid = self.text@;
        let count = num_tabs * 4;
        proof {
            reveal_strlit(" ");
        }
        let mut k: usize = 0;
        while k < count
            invariant
                k <= count == 4 * num_tabs,
                h < self.text@.len() == mid.len(),
                self.text@[h as int]@ == before + spaces(k as nat),
                forall|i: int| 0 <= i < mid.len() && i != h ==> #[trigger] self.text@[i] == mid[i],
                " "@ == seq![' '],
                self.filename == old(self).filename,
            decreases count - k,
        {
            let frag = TextFragment::new(" ");
            let ghost cur = self.text@[h as int].string@;
            self.text[h].string.push(frag);
            assert(self.text@[h as int].string@ == cur.push(frag));
            proof {
                let nv = self.text@[h as int]@;
                let target = before + spaces(k as nat + 1);
                assert(cur.map_values(|f: TextFragment| f@) == before + spaces(k as nat));
                assert(frag@ == fragment_of(seq![' ']));
                assert(self.text@[h as int].string@.len() == cur.len() + 1);
                assert(nv.len() == self.text@[h as int].string@.len());
                assert(cur.map_values(|f: TextFragment| f@).len() == cur.len());
                assert(spaces(k as nat + 1).len() == k + 1);
                assert(nv.len() == target.len());
                assert forall|j: int| 0 <= j < nv.len() implies nv[j] == target[j] by {
                    if j < cur.len() {
                        assert(nv[j] == cur[j]@);
                        assert(cur.map_values(|f: TextFragment| f@)[j] == cur[j]@);
                    } else {
                        assert(nv[j] == frag@);
                    }
                }
                assert(nv =~= target);
            }
            k = k + 1;
        }
        self.text[h].generate_raw_string();
        self.is_saved = false;
        assert forall|i: int| 0 <= i < self.text@.len() implies (#[trigger] self.text@[i]).wf() by {
            if i != h {
                assert(self.text@[i] == mid[i]);
            }
        }
    }

    /// Inserts a blank line after `line_index`, indented by as many soft tabs
    /// as the line above starts with; an empty buffer first gets an empty line.
    pub fn new_line(&mut self, line_index: usize)
        requires
            old(self).wf(),
            line_index < old(self).text@.len() || (old(self).text@.len() == 0 && line_index == 0),
        ensures
            final(self).wf(),
            !final(self).is_saved,
            final(self).filename == old(self).filename,
            old(self).text@.len() == 0 ==> {
                &&& final(self).text@.len() == 2
                &&& final(self).text@[0]@.len() == 0
                &&& final(self).text@[1]@.len() == 0
            },
            old(self).text@.len() > 0 ==> {
                let above = old(self).text@[line_index as int];
                let indent = spaces(4 * (space_run_end(above.bytes(), 0) / 4) as nat);
                &&& final(self).text@.len() == old(self).text@.len() + 1
                &&& final(self).text@[line_index + 1]@ == indent
                &&& forall|i: int| 0 <= i <= line_index ==> #[trigger] final(self).text@[i] == old(self).text@[i]
                &&& forall|i: int|
                    line_index + 1 < i < final(self).text@.len() ==> #[trigger] final(self).text@[i]
                        == old(self).text@[i - 1]
            },
    {
        if self.text.len() == 0 {
            self.text.push(empty_line());
        }
        self.text.insert(line_index + 1, empty_line());
        assert(self.text@[line_index + 1]@ =~= Seq::<FragmentView>::empty());
        let num_tabs = self.num_tabs(line_index);
        let below = Position { height: line_index + 1, width: 0, max_width: 0 };
        self.insert_tab(&below, num_tabs);
        assert(self.text@[line_index + 1]@ =~= spaces(4 * num_tabs as nat));
        self.is_saved = false;
    }

    /// Moves the fragments from the one at the cursor's column onto a new
    /// line below it.
    pub fn split_line(&mut self, pos: &Position)
        requires
            old(self).wf(),
            pos.height < old(self).text@.len(),
        ensures
            final(self).wf(),
            !final(self).is_saved,
            final(self).filename == old(self).filename,
            split_spec(
                old(self).text@,
                final(self).text@,
                pos.height as int,
                col_index(old(self).text@[pos.height as int]@, pos.width as int),
            ),
    {
        let h = pos.height;
        let n = self.text.len();
        let ghost l = self.text@[h as int];
        let k = fragment_at_column(&self.text[h], pos.width);
        let tail = self.text[h].string.split_off(k);
        self.text[h].generate_raw_string();
        let mut below = Line { string: tail, raw_string: String::new() };
        below.generate_raw_string();
        self.text.insert(h + 1, below);
        assert(self.text@[h as int]@ =~= l@.subrange(0, k as int));
        assert(self.text@[h + 1]@ =~= l@.subrange(k as int, l@.len() as int));
        self.is_saved = false;
    }

    /// Appends line `line_index` onto the line above it and removes it.
    pub fn join_line(&mut self, line_index: usize)
        requires
            old(self).wf(),
            1 <= line_index < old(self).text@.len(),
        ensures
            final(self).wf(),
            !final(self).is_saved,
            final(self).filename == old(self).filename,
            join_spec(old(self).text@, final(self).text@, line_index as int),
    {
        let ghost above = self.text@[line_index - 1];
        let mut removed = self.text.remove(line_index);
        let ghost moved = removed;
        self.text[line_index - 1].string.append(&mut removed.string);
        self.text[line_index - 1].generate_raw_string();
        assert(self.text@[line_index - 1]@ =~= above@ + moved@);
        self.is_saved = false;
    }

    /// Deletes the graphemes of `right`'s line from the one at `left`'s
    /// column to the one at `right`'s column, both included, one at a time;
    /// `right` then takes `left`'s column. Nothing is deleted when `left`
    /// lies past `right`.
    pub fn delete_segment(&mut self, left_pos: &Position, right_pos: &mut Position)
        requires
            old(self).wf(),
            old(right_pos).height < old(self).text@.len(),
        ensures
            final(self).wf(),
            final(self).filename == old(self).filename,
            final(self).text@.len() == old(self).text@.len(),
            forall|i: int|
                0 <= i < old(self).text@.len() && i != old(right_pos).height
                    ==> #[trigger] final(self).text@[i] == old(self).text@[i],
            final(right_pos).height == old(right_pos).height,
            ({
                let l = old(self).text@[old(right_pos).height as int]@;
                let lo = col_index(l, left_pos.width as int);
                let hi = col_after(l, old(right_pos).width as int);
                if lo < hi {
                    &&& final(self).text@[old(right_pos).height as int]@ == cut(l, lo, hi)
                    &&& final(right_pos).width == left_pos.width
                    &&& final(right_pos).max_width == left_pos.width
                    &&& !final(self).is_saved
                } else {
                    &&& final(self).text@[old(right_pos).height as int]@ == l
                    &&& *final(right_pos) == *old(right_pos)
                    &&& final(self).is_saved == old(self).is_saved
                }
            }),
    {
        let h = right_pos.height;
        let lo = fragment_at_column(&self.text[h], left_pos.width);
        let hi = fragment_after_column(&self.text[h], right_pos.width);
        if lo >= hi {
            return;
        }
        let ghost l = self.text@[h as int];
        let mut i = hi;
        while i > lo
            invariant
                lo <= i <= hi <= l.string@.len(),
                h < self.text@.len() == old(self).text@.len(),
                l == old(self).text@[h as int],
                self.text@[h as int].string@ == l.string@.subrange(0, i as int) + l.string@.subrange(
                    hi as int,
                    l.string@.len() as int,
                ),
                forall|j: int|
                    0 <= j < old(self).text@.len() && j != h ==> #[trigger] self.text@[j]
                        == old(self).text@[j],
                lines_wf(old(self).text@),
                self.filename == old(self).filename,
            decreases i,
        {
            self.text[h].string.remove(i - 1);
            assert(self.text@[h as int].string@ =~= l.string@.subrange(0, i - 1) + l.string@.subrange(
                hi as int,
                l.string@.len() as int,
            ));
            i = i - 1;
        }
        self.text[h].generate_raw_string();
        self.is_saved = false;
        assert(self.text@[h as int]@ =~= cut(l@, lo as int, hi as int));
        right_pos.width = left_pos.width;
        right_pos.max_width = left_pos.width;
    }

    /// Deletes the rest of the cursor's line from the grapheme at its column.
    pub fn cut_rest_of_line(&mut self, pos: &Position)
        requires
            old(self).wf(),
            pos.height < old(self).text@.len(),
        ensures
            final(self).wf(),
            final(self).filename == old(self).filename,
            final(self).text@.len() == old(self).text@.len(),
            forall|i: int|
                0 <= i < old(self).text@.len() && i != pos.height ==> #[trigger] final(self).text@[i]
                    == old(self).text@[i],
            final(self).text@[pos.height as int]@ == old(self).text@[pos.height as int]@.subrange(
                0,
                col_index(old(self).text@[pos.height as int]@, pos.width as int),
            ),
    {
        let h = pos.height;
        let ghost l = self.text@[h as int];
        let k = fragment_at_column(&self.text[h], pos.width);
        self.text[h].string.truncate(k);
        self.text[h].generate_raw_string();
        assert(self.text@[h as int]@ =~= l@.subrange(0, k as int));
        self.is_saved = false;
    }

    /// The text from `left` to `right`, both included; lines are joined by
    /// newlines.
    pub fn get_segment(&self, left: &Position, right: &Position) -> (r: String)
        requires
            left.height <= right.height < self.text@.len(),
        ensures
            r@ == segment(self.text@, *left, *right),
    {
        let mut out = String::new();
        let last = &self.text[right.height];
        let first = &self.text[left.height];
        let stop = fragment_after_column(last, right.width);
        let from = fragment_at_column(first, left.width);
        if left.height == right.height {
            append_slice(&mut out, last, from, stop);
            assert(out@ =~= segment(self.text@, *left, *right));
            return out;
        }
        append_slice(&mut out, first, from, first.string.len());
        let newline = char_string('\n');
        out.append(newline.as_str());
        let ghost head = out@;
        let mut k = left.height + 1;
        while k < right.height
            invariant
                left.height < k <= right.height < self.text@.len(),
                newline@ == seq!['\n'],
                out@ == head + interior(self.text@, left.height + 1, k as int),
            decreases right.height - k,
        {
            let line = &self.text[k];
            append_slice(&mut out, line, 0, line.string.len());
            out.append(newline.as_str());
            proof {
                let s = self.text@[k as int].string@;
                assert(s.subrange(0, s.len() as int) =~= s);
                assert(slice_text(self.text@[k as int], 0, s.len() as int) == text_of(s)) by {
                    if s.len() == 0 {
                        assert(text_of(s) =~= Seq::<char>::empty());
                    }
                }
            }
            k = k + 1;
        }
        append_slice(&mut out, last, 0, stop);
        assert(out@ =~= segment(self.text@, *left, *right));
        out
    }

    /// Every non-overlapping occurrence of `search_str`, line by line and
    /// left to right, as the position of its first byte; none for an empty
    /// query.
    pub fn search(&self, search_str: &str) -> (r: Vec<Position>)
        ensures
            r@.map_values(|p: Position| (p.height as int, p.width as int)) == hits(
                self.text@,
                encode_utf8(search_str@),
                self.text@.len() as int,
            ),
            forall|i: int| 0 <= i < r@.len() ==> (#[trigger] r@[i]).max_width == r@[i].width,
    {
        let q = search_str.as_bytes();
        let m = q.len();
        let mut positions: Vec<Position> = Vec::new();
        let count = self.text.len();
        let mut h: usize = 0;
        while h < count
            invariant
                h <= count == self.text@.len(),
                m == q@.len(),
                q@ == encode_utf8(search_str@),
                positions@.map_values(|p: Position| (p.height as int, p.width as int)) == hits(
                    self.text@,
                    q@,
                    h as int,
                ),
                forall|i: int| 0 <= i < positions@.len() ==> (#[trigger] positions@[i]).max_width
                    == positions@[i].width,
            decreases count - h,
        {
            let b = self.text[h].raw_string.as_str().as_bytes();
            let n = b.len();
            let ghost start = positions@.map_values(|p: Position| (p.height as int, p.width as int));
            let ghost all = matches_from(b@, q@, 0);
            let mut i: usize = 0;
            if m > 0 {
                while i <= n && m <= n - i
                    invariant
                        m == q@.len() > 0,
                        n == b@.len(),
                        b@ == self.text@[h as int].bytes(),
                        positions@.map_values(|p: Position| (p.height as int, p.width as int))
                            + matches_from(b@, q@, i as int).map_values(|w: int| (h as int, w))
                            == start + all.map_values(|w: int| (h as int, w)),
                        forall|k: int| 0 <= k < positions@.len() ==> (#[trigger] positions@[k]).max_width
                            == positions@[k].width,
                    decreases n - i,
                {
                    let ghost before = positions@;
                    if bytes_match(b, i, q) {
                        positions.push(Position { width: i, height: h, max_width: i });
                        proof {
                            let f = |p: Position| (p.height as int, p.width as int);
                            let g = |w: int| (h as int, w);
                            let rest = matches_from(b@, q@, i + m);
                            assert(matches_from(b@, q@, i as int) == seq![i as int] + rest);
                            assert(positions@.map_values(f) =~= before.map_values(f).push((h as int, i as int)));
                            assert((seq![i as int] + rest).map_values(g) =~= seq![(h as int, i as int)] + rest.map_values(g));
                            assert(before.map_values(f) + (seq![i as int] + rest).map_values(g) =~= positions@.map_values(f) + rest.map_values(g));
                        }
                        i = i + m;
                    } else {
                        i = i + 1;
                    }
                }
            }
            proof {
                let f = |p: Position| (p.height as int, p.width as int);
                assert(matches_from(b@, q@, i as int) =~= Seq::<int>::empty());
                assert(matches_from(b@, q@, i as int).map_values(|w: int| (h as int, w)) =~= Seq::<(int, int)>::empty());
                assert(positions@.map_values(f) =~= start + all.map_values(|w: int| (h as int, w)));
                assert(hits(self.text@, q@, h + 1) == hits(self.text@, q@, h as int) + matches_from(
                    self.text@[h as int].bytes(),
                    q@,
                    0,
                ).map_values(|w: int| (h as int, w)));
            }
            h = h + 1;
        }
        positions
    }

    /// Removes line `line_index` outright.
    pub fn pop_line(&mut self, line_index: usize)
        requires
            old(self).wf(),
            line_index < old(self).text@.len(),
        ensures
            final(self).wf(),
            final(self).text@ == old(self).text@.remove(line_index as int),
            final(self).filename == old(self).filename,
            final(self).is_saved == old(self).is_saved,
    {
        self.text.remove(line_index);
    }
}


/// Where a motion ends that first tries `here` on line `h`, then the lines
/// below, and else stops at `fallback`.
pub open spec fn land_below(
    t: Seq<Line>,
    h: int,
    here: Option<int>,
    kind: Spill,
    fallback: (int, int),
) -> (int, int) {
    match here {
        Some(n) => (h, n),
        None => match first_down(t, h, kind) {
            Some(p) => p,
            None => fallback,
        },
    }
}

/// Where a motion ends that first tries `here` on line `h`, then the lines
/// above, and else stops at `fallback`.
pub open spec fn land_above(
    t: Seq<Line>,
    h: int,
    here: Option<int>,
    kind: Spill,
    fallback: (int, int),
) -> (int, int) {
    match here {
        Some(n) => (h, n),
        None => match first_up(t, h, kind) {
            Some(p) => p,
            None => fallback,
        },
    }
}

/// Where the space-delimited backward word motion from `p` lands.
pub open spec fn prev_word_target(t: Seq<Line>, p: Position) -> (int, int) {
    land_above(
        t,
        p.height as int,
        if t[p.height as int].string@.len() == 0 {
            None
        } else {
            prev_word_at(t[p.height as int].bytes(), p.width as int)
        },
        Spill::PrevWord,
        (0, 0),
    )
}

/// Where the space-delimited forward word motion from `p` lands.
pub open spec fn next_word_target(t: Seq<Line>, p: Position) -> (int, int) {
    land_below(
        t,
        p.height as int,
        if t[p.height as int].string@.len() == 0 {
            None
        } else {
            next_word_at(t[p.height as int].bytes(), p.width as int)
        },
        Spill::NextWord,
        (t.len() - 1, line_cols(t, t.len() - 1) as int),
    )
}

/// Where Vim's `b` from `p` lands.
pub open spec fn word_start_target(t: Seq<Line>, p: Position) -> (int, int) {
    land_above(
        t,
        p.height as int,
        if t[p.height as int].string@.len() == 0 {
            None
        } else {
            word_start_at(t[p.height as int].bytes(), p.width as int)
        },
        Spill::WordStart,
        (0, 0),
    )
}

/// Where Vim's `w` from `p` lands.
pub open spec fn next_word_start_target(t: Seq<Line>, p: Position) -> (int, int) {
    land_below(
        t,
        p.height as int,
        next_word_start_at(t[p.height as int].bytes(), p.width as int),
        Spill::NextWordStart,
        (t.len() - 1, line_cols(t, t.len() - 1) as int),
    )
}

/// Where Vim's `e` from `p` lands.
pub open spec fn word_end_target(t: Seq<Line>, p: Position) -> (int, int) {
    land_below(
        t,
        p.height as int,
        word_end_at(t[p.height as int].bytes(), p.width as int),
        Spill::WordEnd,
        (t.len() - 1, line_cols(t, t.len() - 1).saturating_sub(1) as int),
    )
}

/// The cursor moved to `(h, w)`, remembering `w` as its column.
pub open spec fn at(p: Position, hw: (int, int)) -> bool {
    p.height == hw.0 && p.width == hw.1 && p.max_width == p.width
}

fn spill_at(line: &Line, kind: &Spill) -> (r: Option<usize>)
    ensures
        opt(r) == spill(*line, *kind),
{
    match kind {
        Spill::NextWord => line.next_word_spillover(),
        Spill::PrevWord => line.get_prev_word_spillover(),
        Spill::NextWordStart => line.begining_of_next_word_spillover(),
        Spill::WordStart => line.begining_of_current_word_spillover(),
        Spill::WordEnd => line.end_of_current_word_spillover(),
    }
}

impl Buffer {
    fn land_down(&self, h: usize, kind: Spill) -> (r: Option<(usize, usize)>)
        requires
            h < self.text@.len(),
        ensures
            match r {
                Some(p) => first_down(self.text@, h as int, kind) == Some((p.0 as int, p.1 as int))
                    && h < p.0 < self.text@.len(),
                None => first_down(self.text@, h as int, kind) is None,
            },
    {
        let n = self.text.len();
        let mut i = h;
        while i + 1 < n
            invariant
                h <= i < n == self.text@.len(),
                first_down(self.text@, h as int, kind) == first_down(self.text@, i as int, kind),
            decreases n - i,
        {
            i = i + 1;
            if let Some(w) = spill_at(&self.text[i], &kind) {
                return Some((i, w));
            }
        }
        None
    }

    fn land_up(&self, h: usize, kind: Spill) -> (r: Option<(usize, usize)>)
        requires
            h < self.text@.len(),
        ensures
            match r {
                Some(p) => first_up(self.text@, h as int, kind) == Some((p.0 as int, p.1 as int))
                    && p.0 < h,
                None => first_up(self.text@, h as int, kind) is None,
            },
    {
        let mut i = h;
        while i > 0
            invariant
                i <= h < self.text@.len(),
                first_up(self.text@, h as int, kind) == first_up(self.text@, i as int, kind),
            decreases i,
        {
            i = i - 1;
            if let Some(w) = spill_at(&self.text[i], &kind) {
                return Some((i, w));
            }
        }
        None
    }

    fn go(pos: &mut Position, h: usize, w: usize)
        ensures
            at(*final(pos), (h as int, w as int)),
    {
        pos.height = h;
        pos.width = w;
        pos.max_width = w;
    }

    /// Space-delimited word motion backward, continuing on the lines above;
    /// the buffer's origin when no boundary is left.
    pub fn find_prev_word(&self, position: &mut Position)
        requires
            self.holds(*old(position)),
        ensures
            self.text@.len() == 0 ==> *final(position) == *old(position),
            self.text@.len() > 0 ==> at(*final(position), prev_word_target(self.text@, *old(position))),
            self.holds(*final(position)),
            final(position).height <= old(position).height,
    {
        if self.is_empty() {
            return;
        }
        let h = position.height;
        if let Some(w) = self.text[h].get_prev_word(position.width) {
            Self::go(position, h, w);
            return;
        }
        match self.land_up(h, Spill::PrevWord) {
            Some((h2, w2)) => Self::go(position, h2, w2),
            None => Self::go(position, 0, 0),
        }
    }

    /// Space-delimited word motion forward, continuing on the lines below;
    /// the end of the last line when no boundary is left.
    pub fn find_next_word(&self, position: &mut Position)
        requires
            self.holds(*old(position)),
        ensures
            self.text@.len() == 0 ==> *final(position) == *old(position),
            self.text@.len() > 0 ==> at(*final(position), next_word_target(self.text@, *old(position))),
            self.holds(*final(position)),
            final(position).height >= old(position).height,
    {
        if self.is_empty() {
            return;
        }
        let h = position.height;
        if let Some(w) = self.text[h].get_next_word(position.width) {
            Self::go(position, h, w);
            return;
        }
        match self.land_down(h, Spill::NextWord) {
            Some((h2, w2)) => Self::go(position, h2, w2),
            None => {
                let last = self.text.len() - 1;
                let w = self.text[last].grapheme_len();
                Self::go(position, last, w);
            },
        }
    }

    /// Vim `b`: start of the current word, else of a word on a line above;
    /// the buffer's origin when none is left.
    pub fn begining_of_current_word(&self, pos: &mut Position)
        requires
            self.holds(*old(pos)),
        ensures
            self.text@.len() == 0 ==> *final(pos) == *old(pos),
            self.text@.len() > 0 ==> at(*final(pos), word_start_target(self.text@, *old(pos))),
            self.holds(*final(pos)),
            final(pos).height <= old(pos).height,
    {
        if self.is_empty() {
            return;
        }
        let h = pos.height;
        if let Some(w) = self.text[h].begining_of_current_word(pos.width) {
            Self::go(pos, h, w);
            return;
        }
        match self.land_up(h, Spill::WordStart) {
            Some((h2, w2)) => Self::go(pos, h2, w2),
            None => Self::go(pos, 0, 0),
        }
    }

    /// Vim `w`: start of the next word, else of a word on a line below; the
    /// end of the last line when none is left.
    pub fn begining_of_next_word(&self, pos: &mut Position)
        requires
            self.holds(*old(pos)),
        ensures
            self.text@.len() == 0 ==> *final(pos) == *old(pos),
            self.text@.len() > 0 ==> at(*final(pos), next_word_start_target(self.text@, *old(pos))),
            self.holds(*final(pos)),
            final(pos).height >= old(pos).height,
    {
        if self.is_empty() {
            return;
        }
        let h = pos.height;
        if let Some(w) = self.text[h].begining_of_next_word(pos.width) {
            Self::go(pos, h, w);
            return;
        }
        match self.land_down(h, Spill::NextWordStart) {
            Some((h2, w2)) => Self::go(pos, h2, w2),
            None => {
                let last = self.text.len() - 1;
                let w = self.text[last].grapheme_len();
                Self::go(pos, last, w);
            },
        }
    }

    /// Vim `e`: end of the current word, else of a word on a line below; the
    /// last column of the last line when none is left.
    pub fn end_of_current_word(&self, pos: &mut Position)
        requires
            self.holds(*old(pos)),
        ensures
            self.text@.len() == 0 ==> *final(pos) == *old(pos),
            self.text@.len() > 0 ==> at(*final(pos), word_end_target(self.text@, *old(pos))),
            self.holds(*final(pos)),
            final(pos).height >= old(pos).height,
    {
        if self.is_empty() {
            return;
        }
        let h = pos.height;
        if let Some(w) = self.text[h].end_of_current_word(pos.width) {
            Self::go(pos, h, w);
            return;
        }
        match self.land_down(h, Spill::WordEnd) {
            Some((h2, w2)) => Self::go(pos, h2, w2),
            None => {
                let last = self.text.len() - 1;
                let w = self.text[last].grapheme_len().saturating_sub(1);
                Self::go(pos, last, w);
            },
        }
    }
}


/// Line `h` after a split at column `w`, and the new line below it.
pub open spec fn split_spec(before: Seq<Line>, after: Seq<Line>, h: int, w: int) -> bool {
    let l = before[h]@;
    &&& after.len() == before.len() + 1
    &&& after[h]@ == l.subrange(0, w)
    &&& after[h + 1]@ == l.subrange(w, l.len() as int)
    &&& forall|i: int| 0 <= i < h ==> #[trigger] after[i] == before[i]
    &&& forall|i: int| h + 1 < i < after.len() ==> #[trigger] after[i] == before[i - 1]
}

/// Line `i` appended onto line `i - 1` and removed.
pub open spec fn join_spec(before: Seq<Line>, after: Seq<Line>, i: int) -> bool {
    &&& after.len() == before.len() - 1
    &&& after[i - 1]@ == before[i - 1]@ + before[i]@
    &&& forall|k: int| 0 <= k < i - 1 ==> #[trigger] after[k] == before[k]
    &&& forall|k: int| i <= k < after.len() ==> #[trigger] after[k] == before[k + 1]
}

/// Splitting a line and joining the new line back gives the same fragments
/// on every line.
pub proof fn lemma_split_then_join(b0: Seq<Line>, b1: Seq<Line>, b2: Seq<Line>, h: int, w: int)
    requires
        0 <= h < b0.len(),
        0 <= w <= b0[h]@.len(),
        split_spec(b0, b1, h, w),
        join_spec(b1, b2, h + 1),
    ensures
        b2.len() == b0.len(),
        forall|i: int| 0 <= i < b0.len() ==> (#[trigger] b2[i])@ == b0[i]@,
{
    assert(b2[h]@ =~= b0[h]@);
    assert forall|i: int| 0 <= i < b0.len() implies (#[trigger] b2[i])@ == b0[i]@ by {
        if i < h {
        } else if i == h {
        } else {
            assert(b2[i] == b1[i + 1]);
        }
    }
}

proof fn lemma_col_from_ge(l: Seq<FragmentView>, k: int, acc: int, w: int)
    requires
        0 <= k,
    ensures
        col_from(l, k, acc, w) >= k,
    decreases l.len() - k,
{
    if k < l.len() && acc < w {
        lemma_col_from_ge(l, k + 1, acc + view_cols(l[k]), w);
    }
}

/// The scan for the fragment past a column never goes back.
pub proof fn lemma_col_from_past_ge(l: Seq<FragmentView>, k: int, acc: int, w: int)
    requires
        0 <= k,
    ensures
        col_from_past(l, k, acc, w) >= k,
    decreases l.len() - k,
{
    if k < l.len() && acc <= w {
        lemma_col_from_past_ge(l, k + 1, acc + view_cols(l[k]), w);
    }
}

proof fn lemma_vcols_take(l: Seq<FragmentView>, j: int, k: int)
    requires
        0 <= j <= k <= l.len(),
    ensures
        vcols(l.take(j)) + (k - j) <= vcols(l.take(k)),
    decreases k - j,
{
    if j < k {
        lemma_vcols_take(l, j, k - 1);
        assert(l.take(k).drop_last() =~= l.take(k - 1));
    }
}

proof fn lemma_col_index_at_boundary(l: Seq<FragmentView>, j: int, k: int)
    requires
        0 <= j <= k <= l.len(),
    ensures
        col_from(l, j, vcols(l.take(j)) as int, vcols(l.take(k)) as int) == k,
    decreases k - j,
{
    if j < k {
        assert(l.take(j + 1).drop_last() =~= l.take(j));
        assert(l.take(j + 1).last() == l[j]);
        lemma_vcols_take(l, j + 1, k);
        lemma_col_index_at_boundary(l, j + 1, k);
    }
}

/// Typing a character at a column where a fragment starts, and then
/// deleting left of the new cursor column, gives back the line and the
/// column, unless the typed character completes a soft tab.
pub proof fn lemma_insert_then_delete(l: Seq<FragmentView>, k: int, c: char)
    requires
        0 <= k <= l.len(),
        !tab_before(l.insert(k, typed(c)), k + 1),
    ensures
        col_index(l, vcols(l.take(k)) as int) == k,
        delete_step(l.insert(k, typed(c)), (vcols(l.take(k)) + view_cols(typed(c))) as int) == (
            l,
            vcols(l.take(k)) as int,
        ),
{
    let w = vcols(l.take(k)) as int;
    let f = typed(c);
    let l2 = l.insert(k, f);
    lemma_col_index_at_boundary(l, 0, k);
    assert(l.take(0) =~= Seq::<FragmentView>::empty());
    assert(l2.take(k + 1) =~= l.take(k).push(f));
    assert(l2.take(k + 1).drop_last() =~= l.take(k));
    assert(l2.take(0) =~= Seq::<FragmentView>::empty());
    lemma_col_index_at_boundary(l2, 0, k + 1);
    assert(col_index(l2, w + view_cols(f)) == k + 1);
    assert(l2[k] == f);
    assert(l2.remove(k) =~= l);
}

/// The text of fragments `a` up to `b` of a line (both clamped to its end).
pub open spec fn slice_text(l: Line, a: int, b: int) -> Seq<char> {
    let n = l.string@.len() as int;
    let lo = if a < n {
        a
    } else {
        n
    };
    let hi = if b < n {
        b
    } else {
        n
    };
    if lo >= hi {
        Seq::empty()
    } else {
        text_of(l.string@.subrange(lo, hi))
    }
}

/// Full lines `a` up to `b`, each followed by a newline.
pub open spec fn interior(t: Seq<Line>, a: int, b: int) -> Seq<char>
    decreases b - a,
{
    if b <= a {
        Seq::empty()
    } else {
        interior(t, a, b - 1) + text_of(t[b - 1].string@) + seq!['\n']
    }
}

/// The text from the grapheme at `l`'s column to the one at `r`'s column,
/// both included.
pub open spec fn segment(t: Seq<Line>, l: Position, r: Position) -> Seq<char> {
    let first = t[l.height as int];
    let last = t[r.height as int];
    let from = col_index(first@, l.width as int);
    let to = col_after(last@, r.width as int);
    if l.height == r.height {
        slice_text(first, from, to)
    } else {
        slice_text(first, from, first.string@.len() as int) + seq!['\n'] + interior(
            t,
            l.height + 1,
            r.height as int,
        ) + slice_text(last, 0, to)
    }
}

/// Offsets of the non-overlapping occurrences of `q` in `b` from `i` on,
/// found left to right.
pub open spec fn matches_from(b: Seq<u8>, q: Seq<u8>, i: int) -> Seq<int>
    decreases b.len() - i,
{
    if q.len() == 0 || i < 0 || i + q.len() > b.len() {
        Seq::empty()
    } else if b.subrange(i, i + q.len()) == q {
        seq![i] + matches_from(b, q, i + q.len())
    } else {
        matches_from(b, q, i + 1)
    }
}

/// Every occurrence of `q` on lines `0` up to `k`, as (line, byte offset).
pub open spec fn hits(t: Seq<Line>, q: Seq<u8>, k: int) -> Seq<(int, int)>
    decreases k,
{
    if k <= 0 {
        Seq::empty()
    } else {
        hits(t, q, k - 1) + matches_from(t[k - 1].bytes(), q, 0).map_values(|w: int| (k - 1, w))
    }
}

fn append_slice(out: &mut String, line: &Line, a: usize, b: usize)
    ensures
        final(out)@ == old(out)@ + slice_text(*line, a as int, b as int),
{
    let n = line.string.len();
    let lo = if a < n {
        a
    } else {
        n
    };
    let hi = if b < n {
        b
    } else {
        n
    };
    if lo >= hi {
        assert(old(out)@ + slice_text(*line, a as int, b as int) =~= old(out)@);
        return;
    }
    let mut i = lo;
    while i < hi
        invariant
            lo <= i <= hi <= n == line.string@.len(),
            out@ == old(out)@ + text_of(line.string@.subrange(lo as int, i as int)),
        decreases hi - i,
    {
        let f = &line.string[i];
        match f.replacement_text {
            Some(c) => {
                let glyph = char_string(c);
                out.append(glyph.as_str());
            },
            None => {
                out.append(f.grapheme.as_str());
            },
        }
        proof {
            let pre = line.string@.subrange(lo as int, i + 1);
            assert(pre.drop_last() =~= line.string@.subrange(lo as int, i as int));
            assert(pre.last() == line.string@[i as int]);
        }
        i = i + 1;
    }
}

fn bytes_match(b: &[u8], i: usize, q: &[u8]) -> (r: bool)
    requires
        i + q@.len() <= b@.len(),
    ensures
        r == (b@.subrange(i as int, i + q@.len()) == q@),
{
    let m = q.len();
    let n = b.len();
    let mut j: usize = 0;
    while j < m
        invariant
            j <= m == q@.len(),
            i + m <= b@.len() == n,
            forall|k: int| 0 <= k < j ==> b@[i + k] == q@[k],
        decreases m - j,
    {
        if b[i + j] != q[j] {
            assert(b@.subrange(i as int, i + m)[j as int] != q@[j as int]);
            return false;
        }
        j = j + 1;
    }
    assert(b@.subrange(i as int, i + m) =~= q@);
    true
}


/// A line as `str::lines` gives it: a carriage return before the newline
/// is dropped.
pub open spec fn strip_cr(cur: Seq<char>) -> Seq<char> {
    if cur.len() > 0 && cur.last() == '\r' {
        cur.drop_last()
    } else {
        cur
    }
}

/// The lines of the rest `s` of a text whose current line so far is `cur`.
pub open spec fn lines_acc(s: Seq<char>, cur: Seq<char>) -> Seq<Seq<char>>
    decreases s.len(),
{
    if s.len() == 0 {
        if cur.len() == 0 {
            Seq::empty()
        } else {
            seq![cur]
        }
    } else if s[0] == '\n' {
        seq![strip_cr(cur)] + lines_acc(s.skip(1), Seq::empty())
    } else {
        lines_acc(s.skip(1), cur.push(s[0]))
    }
}

/// The lines of a text: split after each newline, a carriage return before
/// the newline dropped, no empty line after a final newline.
pub open spec fn lines_of(s: Seq<char>) -> Seq<Seq<char>> {
    lines_acc(s, Seq::empty())
}

/// Relies on `str::lines`: the lines of `s` as `lines_of` states them.
#[verifier::external_body]
fn split_lines(s: &str) -> (r: Vec<String>)
    ensures
        r@.len() == lines_of(s@).len(),
        forall|i: int| 0 <= i < r@.len() ==> #[trigger] r@[i]@ == lines_of(s@)[i],
{
    s.lines().map(|l| l.to_owned()).collect()
}

impl Buffer {
    /// The buffer of a file's contents, one line per text line, saved.
    pub fn from_text(contents: &str, filename: &str) -> (r: Buffer)
        ensures
            r.wf(),
            r.is_saved,
            r.filename matches Some(f) && f@ == filename@,
            r.text@.len() == lines_of(contents@).len(),
            forall|i: int|
                0 <= i < r.text@.len() ==> (#[trigger] r.text@[i])@ == grapheme_clusters(
                    lines_of(contents@)[i],
                ).map_values(|g: Seq<char>| fragment_of(g)),
            forall|i: int|
                0 <= i < r.text@.len() ==> source_of((#[trigger] r.text@[i]).string@) == lines_of(
                    contents@,
                )[i],
    {
        let lines = split_lines(contents);
        let mut text: Vec<Line> = Vec::new();
        let n = lines.len();
        let mut i: usize = 0;
        while i < n
            invariant
                i <= n == lines@.len() == lines_of(contents@).len(),
                forall|k: int| 0 <= k < n ==> #[trigger] lines@[k]@ == lines_of(contents@)[k],
                text@.len() == i,
                lines_wf(text@),
                forall|k: int|
                    0 <= k < i ==> (#[trigger] text@[k])@ == grapheme_clusters(lines_of(contents@)[k]).map_values(
                        |g: Seq<char>| fragment_of(g),
                    ),
                forall|k: int|
                    0 <= k < i ==> source_of((#[trigger] text@[k]).string@) == lines_of(contents@)[k],
            decreases n - i,
        {
            text.push(Line::from(lines[i].as_str()));
            i = i + 1;
        }
        Buffer { text, filename: Some(filename.to_owned()), is_saved: true }
    }

    /// The text saved for the buffer: each line's graphemes as typed (not
    /// the glyphs drawn for invisible ones), followed by a newline.
    pub fn to_text(&self) -> (r: String)
        ensures
            r@ == saved(self.text@, self.text@.len() as int),
    {
        let mut out = String::new();
        let newline = char_string('\n');
        let n = self.text.len();
        let mut k: usize = 0;
        while k < n
            invariant
                k <= n == self.text@.len(),
                newline@ == seq!['\n'],
                out@ == saved(self.text@, k as int),
            decreases n - k,
        {
            let line = &self.text[k];
            let m = line.string.len();
            let ghost head = out@;
            let mut i: usize = 0;
            while i < m
                invariant
                    i <= m == line.string@.len(),
                    out@ == head + source_of(line.string@.subrange(0, i as int)),
                decreases m - i,
            {
                out.append(line.string[i].grapheme.as_str());
                proof {
                    let pre = line.string@.subrange(0, i + 1);
                    assert(pre.map_values(|f: TextFragment| f.grapheme@).drop_last() =~= line.string@.subrange(
                        0,
                        i as int,
                    ).map_values(|f: TextFragment| f.grapheme@));
                }
                i = i + 1;
            }
            assert(line.string@.subrange(0, m as int) =~= line.string@);
            out.append(newline.as_str());
            k = k + 1;
        }
        out
    }

    /// Pastes `paste_text` at the cursor: its first line is typed into the
    /// cursor's line from the cursor; each further line is typed at the start
    /// of the next line of the buffer, or added as a new last line past the
    /// end. The cursor ends on the last pasted line, after the typed text.
    pub fn add_text_from_clipboard(&mut self, paste_text: &str, pos: &mut Position)
        requires
            old(self).wf(),
            old(self).holds(*old(pos)),
        ensures
            final(self).wf(),
            final(self).holds(*final(pos)),
            final(self).filename == old(self).filename,
            lines_of(paste_text@).len() == 0 ==> *final(self) == *old(self) && *final(pos) == *old(pos),
            lines_of(paste_text@).len() > 0 ==> {
                let ls = lines_of(paste_text@);
                let k = ls.len() as int;
                let bv = base_views(old(self).text@);
                let h0 = old(pos).height as int;
                let reach: int = h0 + k;
                &&& final(pos).height == reach - 1
                &&& final(self).text@.len() == if reach > bv.len() {
                    reach
                } else {
                    bv.len() as int
                }
                &&& forall|i: int| 0 <= i < h0 ==> #[trigger] final(self).text@[i] == old(self).text@[i]
                &&& forall|i: int| reach <= i < old(self).text@.len() ==> #[trigger] final(self).text@[i]
                    == old(self).text@[i]
                &&& forall|j: int|
                    0 <= j < k ==> (#[trigger] final(self).text@[h0 + j])@ == pasted_row(
                        bv,
                        h0 + j,
                        if j == 0 {
                            old(pos).width
                        } else {
                            0
                        },
                        ls[j],
                    ).0
                &&& final(pos).width == pasted_row(
                    bv,
                    reach - 1,
                    if k == 1 {
                        old(pos).width
                    } else {
                        0
                    },
                    ls[k - 1],
                ).1
            },
    {
        let lines = split_lines(paste_text);
        let k = lines.len();
        if k == 0 {
            return;
        }
        if self.is_empty() {
            self.text.push(empty_line());
        }
        let ghost base = self.text@;
        let ghost h0 = pos.height as int;
        let ghost w0 = pos.width;
        assert(old(self).text@.len() > 0 ==> base == old(self).text@);
        proof {
            if old(self).text@.len() == 0 {
                assert(base[0]@ =~= Seq::<FragmentView>::empty());
                assert(base.map_values(|l: Line| l@) =~= base_views(old(self).text@));
            } else {
                assert(base.map_values(|l: Line| l@) =~= base_views(old(self).text@));
            }
        }
        let mut last = self.text.len() - 1;
        let mut i: usize = 0;
        while i < k
            invariant
                i <= k,
                k == lines@.len() == lines_of(paste_text@).len() > 0,
                forall|q: int| 0 <= q < k ==> #[trigger] lines@[q]@ == lines_of(paste_text@)[q],
                lines_wf(self.text@),
                self.text@.len() == last + 1,
                last + 1 == if h0 + i > base.len() {
                    h0 + i
                } else {
                    base.len() as int
                },
                0 <= h0 < base.len(),
                base.len() > 0,
                old(self).text@.len() > 0 ==> base == old(self).text@,
                old(self).text@.len() == 0 ==> h0 == 0 && w0 == 0,
                base.map_values(|l: Line| l@) == base_views(old(self).text@),
                i == 0 ==> pos.height == h0 && pos.width == w0,
                i > 0 ==> pos.height == h0 + i - 1 && pos.width == pasted_row(
                    base_views(old(self).text@),
                    h0 + i - 1,
                    if i == 1 {
                        w0
                    } else {
                        0
                    },
                    lines_of(paste_text@)[i - 1],
                ).1,
                pos.height <= last,
                self.filename == old(self).filename,
                forall|q: int| 0 <= q < h0 ==> #[trigger] self.text@[q] == base[q],
                forall|q: int| h0 + i <= q < base.len() ==> #[trigger] self.text@[q] == base[q],
                forall|j: int|
                    0 <= j < i ==> (#[trigger] self.text@[h0 + j])@ == pasted_row(
                        base_views(old(self).text@),
                        h0 + j,
                        if j == 0 {
                            w0
                        } else {
                            0
                        },
                        lines_of(paste_text@)[j],
                    ).0,
            decreases k - i,
        {
            let len_now = self.text.len();
            assert(len_now == last + 1);
            let ghost prev = self.text@;
            if i != 0 {
                pos.height = pos.height + 1;
                pos.width = 0;
                pos.max_width = 0;
            }
            let ghost start = pos.width;
            let ghost row = h0 + i;
            if pos.height > last {
                let line = Line::from(lines[i].as_str());
                self.text.push(line);
                last = last + 1;
                assert(row >= base.len());
                assert(forall|q: int| 0 <= q < prev.len() ==> #[trigger] self.text@[q] == prev[q]);
                assert(forall|q: int| 0 <= q < prev.len() && q != row ==> #[trigger] self.text@[q] == prev[q]);
                assert(self.text@[row]@ == pasted_row(
                    base_views(old(self).text@),
                    row,
                    start,
                    lines_of(paste_text@)[i as int],
                ).0);
            } else {
                let cs = chars_of_string(&lines[i]);
                let m = cs.len();
                let hh = pos.height;
                let ghost row0 = base[row]@;
                let ghost outer = self.text@;
                assert(base_views(old(self).text@)[row] == row0);
                assert(cs@.take(0) =~= Seq::<char>::empty());
                let mut j: usize = 0;
                while j < m
                    invariant
                        j <= m == cs@.len(),
                        pos.height == hh,
                        hh == row,
                        row < base.len(),
                        lines_wf(self.text@),
                        self.text@.len() == last + 1,
                        pos.height <= last,
                        self.filename == old(self).filename,
                        h0 < base.len(),
                        outer.len() == self.text@.len(),
                        forall|q: int| 0 <= q < self.text@.len() && q != row ==> #[trigger] self.text@[q]
                            == outer[q],
                        (self.text@[row]@, pos.width) == typed_run(row0, start, cs@.take(j as int)),
                    decreases m - j,
                {
                    let ghost before = self.text@;
                    self.update_line_insert(pos, cs[j]);
                    assert(cs@.take(j + 1).drop_last() =~= cs@.take(j as int));
                    j = j + 1;
                }
                assert(cs@.take(m as int) =~= cs@);
                assert(outer == prev);
                assert(forall|q: int| 0 <= q < prev.len() && q != row ==> #[trigger] self.text@[q] == prev[q]);
                assert(self.text@[row]@ == pasted_row(
                    base_views(old(self).text@),
                    row,
                    start,
                    lines_of(paste_text@)[i as int],
                ).0);
            }
            assert(forall|q: int| 0 <= q < prev.len() && q != row ==> #[trigger] self.text@[q] == prev[q]);
            assert(self.text@.len() >= prev.len());
            assert forall|j: int| 0 <= j < i + 1 implies (#[trigger] self.text@[h0 + j])@ == pasted_row(
                base_views(old(self).text@),
                h0 + j,
                if j == 0 {
                    w0
                } else {
                    0
                },
                lines_of(paste_text@)[j],
            ).0 by {
                if j < i {
                    let q = h0 + j;
                    assert(self.text@[q] == prev[q]);
                }
            }
            i = i + 1;
        }
    }
}


/// The saved text of lines `0` up to `b`: each line's graphemes followed by
/// a newline.
pub open spec fn saved(t: Seq<Line>, b: int) -> Seq<char>
    decreases b,
{
    if b <= 0 {
        Seq::empty()
    } else {
        saved(t, b - 1) + source_of(t[b - 1].string@) + seq!['\n']
    }
}

/// The lines, each followed by a newline.
pub open spec fn joined(ls: Seq<Seq<char>>) -> Seq<char>
    decreases ls.len(),
{
    if ls.len() == 0 {
        Seq::empty()
    } else {
        joined(ls.drop_last()) + ls.last() + seq!['\n']
    }
}

/// No carriage return stands right before a newline.
pub open spec fn no_cr_before_newline(s: Seq<char>) -> bool {
    forall|i: int| 0 < i < s.len() && #[trigger] s[i] == '\n' ==> s[i - 1] != '\r'
}

proof fn lemma_joined_prepend(x: Seq<char>, ls: Seq<Seq<char>>)
    ensures
        joined(seq![x] + ls) == x + seq!['\n'] + joined(ls),
    decreases ls.len(),
{
    if ls.len() == 0 {
        assert(seq![x] + ls =~= seq![x]);
        assert((seq![x] + ls).drop_last() =~= Seq::<Seq<char>>::empty());
        assert(x + seq!['\n'] + joined(ls) =~= joined(Seq::<Seq<char>>::empty()) + x + seq!['\n']);
    } else {
        lemma_joined_prepend(x, ls.drop_last());
        assert((seq![x] + ls).drop_last() =~= seq![x] + ls.drop_last());
        assert(joined(seq![x] + ls) =~= x + seq!['\n'] + joined(ls));
    }
}

#[verifier::rlimit(40)]
proof fn lemma_lines_acc_joined(s: Seq<char>, cur: Seq<char>)
    requires
        s.len() == 0 ==> cur.len() == 0,
        s.len() > 0 ==> s.last() == '\n',
        no_cr_before_newline(cur + s),
    ensures
        joined(lines_acc(s, cur)) == cur + s,
    decreases s.len(),
{
    if s.len() == 0 {
        assert(cur + s =~= Seq::<char>::empty());
    } else if s[0] == '\n' {
        let rest = s.skip(1);
        if cur.len() > 0 {
            assert((cur + s)[cur.len() as int] == '\n');
            assert((cur + s)[cur.len() - 1] == cur.last());
        }
        assert(strip_cr(cur) == cur);
        assert forall|i: int| 0 < i < rest.len() && #[trigger] rest[i] == '\n' implies rest[i - 1] != '\r' by {
            assert(rest[i] == (cur + s)[cur.len() + 1 + i]);
            assert(rest[i - 1] == (cur + s)[cur.len() + i]);
        }
        assert(Seq::<char>::empty() + rest =~= rest);
        if rest.len() > 0 {
            assert(rest.last() == s.last());
        }
        lemma_lines_acc_joined(rest, Seq::empty());
        lemma_joined_prepend(cur, lines_acc(rest, Seq::empty()));
        assert(cur + seq!['\n'] + rest =~= cur + s);
    } else {
        let rest = s.skip(1);
        if rest.len() == 0 {
            assert(s.last() == s[0]);
        }
        assert(cur.push(s[0]) + rest =~= cur + s);
        if rest.len() > 0 {
            assert(rest.last() == s.last());
        }
        lemma_lines_acc_joined(rest, cur.push(s[0]));
    }
}

proof fn lemma_saved_joined(t: Seq<Line>, b: int)
    requires
        0 <= b <= t.len(),
    ensures
        saved(t, b) == joined(Seq::new(b as nat, |k: int| source_of(t[k].string@))),
    decreases b,
{
    if b > 0 {
        lemma_saved_joined(t, b - 1);
        assert(Seq::new(b as nat, |k: int| source_of(t[k].string@)).drop_last() =~= Seq::new(
            (b - 1) as nat,
            |k: int| source_of(t[k].string@),
        ));
    }
}

/// Saving the buffer read from a text gives the text back, byte for byte,
/// when the text ends with a newline (or is empty) and has no carriage
/// return before a newline.
pub proof fn lemma_text_round_trip(s: Seq<char>, b: Buffer)
    requires
        s.len() > 0 ==> s.last() == '\n',
        no_cr_before_newline(s),
        b.text@.len() == lines_of(s).len(),
        forall|i: int| 0 <= i < b.text@.len() ==> source_of((#[trigger] b.text@[i]).string@) == lines_of(s)[i],
    ensures
        saved(b.text@, b.text@.len() as int) == s,
{
    let t = b.text@;
    let n = t.len();
    let texts = Seq::new(n as nat, |k: int| source_of(t[k].string@));
    assert(texts =~= lines_of(s));
    lemma_saved_joined(t, n as int);
    lemma_lines_acc_joined(s, Seq::empty());
    assert(Seq::<char>::empty() + s =~= s);
}

/// The line `l` after typing the characters `cs` one at a time from column
/// `w` (at the line's end when `w` lies past it), with the column after them.
pub open spec fn typed_run(l: Seq<FragmentView>, w: usize, cs: Seq<char>) -> (Seq<FragmentView>, usize)
    decreases cs.len(),
{
    if cs.len() == 0 {
        (l, w)
    } else {
        let prev = typed_run(l, w, cs.drop_last());
        let at = col_index(prev.0, prev.1 as int);
        (
            prev.0.insert(at, typed(cs.last())),
            prev.1.saturating_add(view_cols(typed(cs.last())) as usize),
        )
    }
}

/// The buffer's lines as a paste sees them: an empty buffer has one empty
/// line.
pub open spec fn base_views(t: Seq<Line>) -> Seq<Seq<FragmentView>> {
    if t.len() == 0 {
        seq![Seq::<FragmentView>::empty()]
    } else {
        t.map_values(|l: Line| l@)
    }
}

/// Row `row` after pasting the text line `line` into it from column `w`:
/// typed into an existing row, or a new row past the end; with the cursor
/// column after it.
pub open spec fn pasted_row(bv: Seq<Seq<FragmentView>>, row: int, w: usize, line: Seq<char>) -> (
    Seq<FragmentView>,
    usize,
) {
    if row < bv.len() {
        typed_run(bv[row], w, line)
    } else {
        (grapheme_clusters(line).map_values(|g: Seq<char>| fragment_of(g)), w)
    }
}

/// The index of the fragment of `line` at display column `w`.
pub(crate) fn fragment_at_column(line: &Line, w: usize) -> (r: usize)
    ensures
        r == col_index(line@, w as int),
        r <= line.string@.len(),
{
    let n = line.string.len();
    let mut k: usize = 0;
    let mut acc: usize = 0;
    while k < n && acc < w
        invariant
            k <= n == line.string@.len(),
            line@.len() == n,
            col_index(line@, w as int) == col_from(line@, k as int, acc as int, w as int),
        decreases n - k,
    {
        let c: usize = match line.string[k].render_width {
            GraphemeWidth::Half => 1,
            GraphemeWidth::Full => 2,
        };
        assert(view_cols(line@[k as int]) == c);
        if c >= w - acc {
            assert(col_from(line@, k + 1, acc + c, w as int) == k + 1);
            return k + 1;
        }
        acc = acc + c;
        k = k + 1;
    }
    k
}

/// The index just past the fragment of `line` that covers display column
/// `w`.
pub(crate) fn fragment_after_column(line: &Line, w: usize) -> (r: usize)
    ensures
        r == col_after(line@, w as int),
        r <= line.string@.len(),
{
    let n = line.string.len();
    let mut k: usize = 0;
    let mut acc: usize = 0;
    while k < n && acc <= w
        invariant
            k <= n == line.string@.len(),
            line@.len() == n,
            col_after(line@, w as int) == col_from_past(line@, k as int, acc as int, w as int),
        decreases n - k,
    {
        let c: usize = match line.string[k].render_width {
            GraphemeWidth::Half => 1,
            GraphemeWidth::Full => 2,
        };
        assert(view_cols(line@[k as int]) == c);
        if c > w - acc {
            assert(col_from_past(line@, k + 1, acc + c, w as int) == k + 1);
            return k + 1;
        }
        acc = acc + c;
        k = k + 1;
    }
    k
}

/// True when the four fragments before fragment `k` are single spaces.
fn spaces_before(line: &Line, k: usize) -> (r: bool)
    ensures
        r == tab_before(line@, k as int),
{
    if k < 4 || k > line.string.len() {
        return false;
    }
    let space = char_string(' ');
    let mut j = k - 4;
    while j < k
        invariant
            k - 4 <= j <= k <= line.string@.len(),
            space@ == seq![' '],
            forall|q: int| k - 4 <= q < j ==> (#[trigger] line@[q]).grapheme == seq![' '],
        decreases k - j,
    {
        assert(line@[j as int].grapheme == line.string@[j as int].grapheme@);
        if line.string[j].grapheme != space {
            return false;
        }
        j = j + 1;
    }
    true
}

fn empty_line() -> (r: Line)
    ensures
        r.wf(),
        r@.len() == 0,
        r.string@.len() == 0,
{
    let r = Line { string: Vec::new(), raw_string: String::new() };
    assert(r@ =~= Seq::<FragmentView>::empty());
    r
}

} // verus!
