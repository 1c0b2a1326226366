//! A line of text as a sequence of grapheme fragments, each with the number
//! of terminal columns it takes and the glyph drawn in place of an invisible
//! one; and the two families of word boundaries found on its display text.
use unicode_segmentation::UnicodeSegmentation;
use unicode_width::UnicodeWidthStr;
use vstd::prelude::*;
use vstd::utf8::encode_utf8;

verus! {

/// Display width of a string in terminal columns, as Unicode's East Asian
/// Width rules give it.
pub uninterp spec fn display_width(s: Seq<char>) -> nat;

/// The extended grapheme clusters of a string, in order.
pub uninterp spec fn grapheme_clusters(s: Seq<char>) -> Seq<Seq<char>>;

/// Relies on `unicode_width::UnicodeWidthStr::width`: the display width of `s`.
#[verifier::external_body]
fn str_width(s: &str) -> (r: usize)
    ensures
        r as nat == display_width(s@),
{
    s.width()
}

/// The strings one after another.
pub open spec fn concat_all(gs: Seq<Seq<char>>) -> Seq<char>
    decreases gs.len(),
{
    if gs.len() == 0 {
        Seq::empty()
    } else {
        concat_all(gs.drop_last()) + gs.last()
    }
}

/// Relies on `unicode_segmentation::UnicodeSegmentation::graphemes` (extended
/// clusters): the clusters of `s`, each as an owned string; they are
/// non-empty consecutive slices that together make up `s`.
#[verifier::external_body]
fn split_graphemes(s: &str) -> (r: Vec<String>)
    ensures
        r@.len() == grapheme_clusters(s@).len(),
        forall|i: int| 0 <= i < r@.len() ==> #[trigger] r@[i]@ == grapheme_clusters(s@)[i],
        concat_all(r@.map_values(|g: String| g@)) == s@,
        forall|i: int| 0 <= i < r@.len() ==> (#[trigger] r@[i])@.len() > 0,
{
    s.graphemes(true).map(|g| g.to_owned()).collect()
}

/// Relies on `str::chars`: the characters of `s`.
#[verifier::external_body]
fn chars_of(s: &str) -> (r: Vec<char>)
    ensures
        r@ == s@,
{
    s.chars().collect()
}

/// Relies on `str::chars`: the characters of `s`.
#[verifier::external_body]
pub(crate) fn chars_of_string(s: &String) -> (r: Vec<char>)
    ensures
        r@ == s@,
{
    s.chars().collect()
}

/// Relies on `char::to_string`: the one-character string of `c`.
#[verifier::external_body]
pub(crate) fn char_string(c: char) -> (r: String)
    ensures
        r@ == seq![c],
{
    c.to_string()
}

/// ASCII letters and digits and the underscore: the characters of a word
/// for the word motions.
pub open spec fn spec_is_alpha(val: u8) -> bool {
    (48 <= val && val <= 57) || (65 <= val && val <= 90) || (97 <= val && val <= 122) || val == 95
}

pub fn is_alpha(val: u8) -> (r: bool)
    ensures
        r == spec_is_alpha(val),
{
    (48 <= val && val <= 57) || (65 <= val && val <= 90) || (97 <= val && val <= 122) || val == 95
}

/// White space as Unicode's `White_Space` property lists it.
pub open spec fn is_white_space(c: char) -> bool {
    ('\u{9}' <= c && c <= '\u{d}') || c == ' ' || c == '\u{85}' || c == '\u{a0}' || c
        == '\u{1680}' || ('\u{2000}' <= c && c <= '\u{200a}') || c == '\u{2028}' || c
        == '\u{2029}' || c == '\u{202f}' || c == '\u{205f}' || c == '\u{3000}'
}

/// Control characters: general category `Cc`.
pub open spec fn is_control_char(c: char) -> bool {
    c <= '\u{1f}' || ('\u{7f}' <= c && c <= '\u{9f}')
}

fn white_space(c: char) -> (r: bool)
    ensures
        r == is_white_space(c),
{
    ('\u{9}' <= c && c <= '\u{d}') || c == ' ' || c == '\u{85}' || c == '\u{a0}' || c
        == '\u{1680}' || ('\u{2000}' <= c && c <= '\u{200a}') || c == '\u{2028}' || c
        == '\u{2029}' || c == '\u{202f}' || c == '\u{205f}' || c == '\u{3000}'
}

fn control_char(c: char) -> (r: bool)
    ensures
        r == is_control_char(c),
{
    c <= '\u{1f}' || ('\u{7f}' <= c && c <= '\u{9f}')
}

/// Some character of `g` that is not white space lies at or before `k`, and
/// another at or after it: `k` is inside `g` with its white space trimmed.
pub open spec fn inside_trimmed(g: Seq<char>, k: int) -> bool {
    &&& exists|i: int| 0 <= i <= k && !is_white_space(#[trigger] g[i])
    &&& exists|j: int| k <= j < g.len() && !is_white_space(#[trigger] g[j])
}

/// The glyph drawn for a grapheme that takes no columns: a space for a tab,
/// `*` for one that is empty once trimmed of white space, `|` for one whose
/// trimmed text holds a control character, `.` otherwise.
pub open spec fn placeholder_glyph(g: Seq<char>) -> char {
    if g == seq!['\t'] {
        ' '
    } else if forall|i: int| 0 <= i < g.len() ==> is_white_space(#[trigger] g[i]) {
        '*'
    } else if exists|k: int| 0 <= k < g.len() && inside_trimmed(g, k) && is_control_char(#[trigger] g[k]) {
        '|'
    } else {
        '.'
    }
}

#[derive(PartialEq, Eq, Clone, Copy, Debug, Structural)]
pub enum GraphemeWidth {
    Half,
    Full,
}

/// Columns taken by a grapheme of display width `w`.
pub open spec fn width_class(w: nat) -> GraphemeWidth {
    if w <= 1 {
        GraphemeWidth::Half
    } else {
        GraphemeWidth::Full
    }
}

/// One grapheme cluster, the columns it takes, and the glyph drawn in its
/// place when it takes none.
#[derive(Debug, Clone)]
pub struct TextFragment {
    pub grapheme: String,
    pub render_width: GraphemeWidth,
    pub replacement_text: Option<char>,
}

pub struct FragmentView {
    pub grapheme: Seq<char>,
    pub render_width: GraphemeWidth,
    pub replacement_text: Option<char>,
}

impl View for TextFragment {
    type V = FragmentView;

    open spec fn view(&self) -> FragmentView {
        FragmentView {
            grapheme: self.grapheme@,
            render_width: self.render_width,
            replacement_text: self.replacement_text,
        }
    }
}

/// The fragment that `Line::from` makes of the grapheme `g`.
pub open spec fn fragment_of(g: Seq<char>) -> FragmentView {
    FragmentView {
        grapheme: g,
        render_width: width_class(display_width(g)),
        replacement_text: if display_width(g) == 0 {
            Some(placeholder_glyph(g))
        } else {
            None
        },
    }
}

/// Columns of one fragment.
pub open spec fn frag_cols(f: TextFragment) -> nat {
    match f.render_width {
        GraphemeWidth::Half => 1,
        GraphemeWidth::Full => 2,
    }
}

/// Sum of the columns of the fragments.
pub open spec fn cols_of(fs: Seq<TextFragment>) -> nat
    decreases fs.len(),
{
    if fs.len() == 0 {
        0
    } else {
        cols_of(fs.drop_last()) + frag_cols(fs.last())
    }
}

/// What a fragment shows: its glyph when it has one, else its grapheme.
pub open spec fn frag_text(f: TextFragment) -> Seq<char> {
    match f.replacement_text {
        Some(c) => seq![c],
        None => f.grapheme@,
    }
}

/// The graphemes of the fragments, one after another: the text the line
/// was made from.
pub open spec fn source_of(fs: Seq<TextFragment>) -> Seq<char> {
    concat_all(fs.map_values(|f: TextFragment| f.grapheme@))
}

/// What the fragments show, one after another.
pub open spec fn text_of(fs: Seq<TextFragment>) -> Seq<char>
    decreases fs.len(),
{
    if fs.len() == 0 {
        Seq::empty()
    } else {
        text_of(fs.drop_last()) + frag_text(fs.last())
    }
}

/// A count of columns, capped at the largest `usize`.
pub open spec fn capped(n: nat) -> usize {
    if n <= usize::MAX {
        n as usize
    } else {
        usize::MAX
    }
}

impl TextFragment {
    /// The fragment of one grapheme cluster.
    pub fn new(grapheme: &str) -> (r: TextFragment)
        ensures
            r@ == fragment_of(grapheme@),
    {
        let width = str_width(grapheme);
        let render_width = if width <= 1 {
            GraphemeWidth::Half
        } else {
            GraphemeWidth::Full
        };
        let replacement_text = if width == 0 {
            Some(placeholder(grapheme))
        } else {
            None
        };
        TextFragment { grapheme: grapheme.to_owned(), render_width, replacement_text }
    }

    /// A copy of the fragment.
    pub fn duplicate(&self) -> (r: TextFragment)
        ensures
            r@ == self@,
    {
        TextFragment {
            grapheme: self.grapheme.clone(),
            render_width: self.render_width,
            replacement_text: self.replacement_text,
        }
    }
}

fn placeholder(grapheme: &str) -> (r: char)
    ensures
        r == placeholder_glyph(grapheme@),
{
    let cs = chars_of(grapheme);
    let n = cs.len();
    if n == 1 && cs[0] == '\t' {
        assert(cs@ =~= seq!['\t']);
        return ' ';
    }
    assert(cs@ != seq!['\t']) by {
        if cs@ == seq!['\t'] {
            assert(cs@.len() == 1);
        }
    }
    // first character that is not white space
    let mut first: usize = 0;
    while first < n && white_space(cs[first])
        invariant
            first <= n == cs@.len(),
            cs@ == grapheme@,
            cs@ != seq!['\t'],
            forall|i: int| 0 <= i < first ==> is_white_space(#[trigger] cs@[i]),
        decreases n - first,
    {
        first = first + 1;
    }
    if first == n {
        return '*';
    }
    // one past the last character that is not white space
    let mut last: usize = n;
    while last > first + 1 && white_space(cs[last - 1])
        invariant
            first < last <= n == cs@.len(),
            cs@ == grapheme@,
            cs@ != seq!['\t'],
            !is_white_space(cs@[first as int]),
            forall|j: int| last <= j < n ==> is_white_space(#[trigger] cs@[j]),
        decreases last,
    {
        last = last - 1;
    }
    assert(!is_white_space(cs@[last - 1]));
    let mut k: usize = first;
    while k < last
        invariant
            first <= k <= last <= n == cs@.len(),
            first < last,
            cs@ == grapheme@,
            cs@ != seq!['\t'],
            !is_white_space(cs@[first as int]),
            !is_white_space(cs@[last - 1]),
            forall|i: int| 0 <= i < first ==> is_white_space(#[trigger] cs@[i]),
            forall|j: int| last <= j < n ==> is_white_space(#[trigger] cs@[j]),
            forall|m: int| first <= m < k ==> !is_control_char(#[trigger] cs@[m]),
        decreases last - k,
    {
        if control_char(cs[k]) {
            let ghost g = cs@;
            assert(inside_trimmed(g, k as int)) by {
                let i = first as int;
                let j = last - 1;
                assert(0 <= i <= k && !is_white_space(g[i]));
                assert(k <= j < g.len() && !is_white_space(g[j]));
            }
            assert(!(forall|i: int| 0 <= i < g.len() ==> is_white_space(#[trigger] g[i]))) by {
                assert(!is_white_space(g[first as int]));
            }
            assert(is_control_char(g[k as int]));
            return '|';
        }
        k = k + 1;
    }
    assert forall|m: int| 0 <= m < cs@.len() && inside_trimmed(cs@, m) implies !is_control_char(
        #[trigger] cs@[m],
    ) by {
        let i = choose|i: int| 0 <= i <= m && !is_white_space(#[trigger] cs@[i]);
        let j = choose|j: int| m <= j < cs@.len() && !is_white_space(#[trigger] cs@[j]);
        assert(i >= first);
        assert(j < last);
    }
    '.'
}

/// A row of text: its fragments and the text they show.
#[derive(Clone, Default)]
pub struct Line {
    pub string: Vec<TextFragment>,
    pub raw_string: String,
}

impl View for Line {
    type V = Seq<FragmentView>;

    open spec fn view(&self) -> Seq<FragmentView> {
        self.string@.map_values(|f: TextFragment| f@)
    }
}

impl Line {
    /// The cached text is what the fragments show.
    pub open spec fn wf(&self) -> bool {
        self.raw_string@ == text_of(self.string@)
    }

    /// The bytes of the cached text, which the word motions scan.
    pub open spec fn bytes(&self) -> Seq<u8> {
        encode_utf8(self.raw_string@)
    }

    /// Columns of the line.
    pub open spec fn cols(&self) -> nat {
        cols_of(self.string@)
    }

    /// Rebuilds the cached text from the fragments.
    pub fn generate_raw_string(&mut self)
        ensures
            final(self).wf(),
            final(self).string@ == old(self).string@,
    {
        let mut text = String::new();
        let n = self.string.len();
        let mut i: usize = 0;
        while i < n
            invariant
                i <= n == self.string@.len(),
                text@ == text_of(self.string@.subrange(0, i as int)),
            decreases n - i,
        {
            let f = &self.string[i];
            match f.replacement_text {
                Some(c) => {
                    let glyph = char_string(c);
                    text.append(glyph.as_str());
                },
                None => {
                    text.append(f.grapheme.as_str());
                },
            }
            proof {
                let pre = self.string@.subrange(0, i + 1);
                assert(pre.drop_last() =~= self.string@.subrange(0, i as int));
            }
            i = i + 1;
        }
        assert(self.string@.subrange(0, n as int) =~= self.string@);
        self.raw_string = text;
    }

    /// Number of fragments.
    pub fn len(&self) -> (r: usize)
        ensures
            r == self.string@.len(),
    {
        self.string.len()
    }

    /// Columns taken by the line: one for each half-width fragment, two for
    /// each full-width one (capped at the largest `usize`).
    pub fn grapheme_len(&self) -> (r: usize)
        ensures
            r == capped(self.cols()),
            self.string@.len() <= usize::MAX / 2 ==> r == self.cols(),
    {
        proof {
            lemma_cols_bound(self.string@);
        }
        let n = self.string.len();
        let mut total: usize = 0;
        let mut i: usize = 0;
        while i < n
            invariant
                i <= n == self.string@.len(),
                total == capped(cols_of(self.string@.subrange(0, i as int))),
            decreases n - i,
        {
            let add: usize = match self.string[i].render_width {
                GraphemeWidth::Full => 2,
                GraphemeWidth::Half => 1,
            };
            proof {
                let pre = self.string@.subrange(0, i + 1);
                assert(pre.drop_last() =~= self.string@.subrange(0, i as int));
            }
            total = total.saturating_add(add);
            i = i + 1;
        }
        assert(self.string@.subrange(0, n as int) =~= self.string@);
        total
    }

    /// The line of the clusters of `line_str`, each with its columns and glyph.
    pub fn from(line_str: &str) -> (r: Line)
        ensures
            r.wf(),
            r@ == grapheme_clusters(line_str@).map_values(|g: Seq<char>| fragment_of(g)),
            source_of(r.string@) == line_str@,
            forall|i: int| 0 <= i < r.string@.len() ==> (#[trigger] r.string@[i]).grapheme@.len() > 0,
            line_str@.len() == 0 ==> r.string@.len() == 0,
    {
        let clusters = split_graphemes(line_str);
        let mut string: Vec<TextFragment> = Vec::new();
        let n = clusters.len();
        let mut i: usize = 0;
        while i < n
            invariant
                i <= n == clusters@.len() == grapheme_clusters(line_str@).len(),
                forall|k: int| 0 <= k < n ==> #[trigger] clusters@[k]@ == grapheme_clusters(line_str@)[k],
                string@.len() == i,
                forall|k: int| 0 <= k < i ==> (#[trigger] string@[k])@ == fragment_of(clusters@[k]@),
            decreases n - i,
        {
            string.push(TextFragment::new(clusters[i].as_str()));
            i = i + 1;
        }
        let mut line = Line { string, raw_string: String::new() };
        line.generate_raw_string();
        assert(line@ =~= grapheme_clusters(line_str@).map_values(|g: Seq<char>| fragment_of(g)));
        assert(line.string@.map_values(|f: TextFragment| f.grapheme@) =~= clusters@.map_values(
            |g: String| g@,
        ));
        proof {
            let gs = line.string@.map_values(|f: TextFragment| f.grapheme@);
            assert forall|i: int| 0 <= i < gs.len() implies (#[trigger] gs[i]).len() > 0 by {
                assert(gs[i] == clusters@[i]@);
            }
            lemma_concat_len(gs);
        }
        line
    }

    /// The fragments from `start` up to `end` (or to the end of the line);
    /// empty when `start` lies past the line's columns or past `end`.
    pub fn get_line_subset(&self, range: std::ops::Range<usize>) -> (r: Line)
        ensures
            r.wf(),
            ({
                let start = range.start;
                let stop = if range.end < self.string@.len() {
                    range.end as int
                } else {
                    self.string@.len() as int
                };
                if start > capped(self.cols()) || start > stop {
                    r@.len() == 0
                } else {
                    r@ == self@.subrange(start as int, stop)
                }
            }),
    {
        let start = range.start;
        let n = self.string.len();
        let stop = if range.end < n {
            range.end
        } else {
            n
        };
        let mut string: Vec<TextFragment> = Vec::new();
        if start > self.grapheme_len() || start > stop {
            let empty = Line { string, raw_string: String::new() };
            assert(empty.wf()) by {
                assert(empty.string@ =~= Seq::<TextFragment>::empty());
            }
            return empty;
        }
        let mut i: usize = start;
        while i < stop
            invariant
                start <= i <= stop <= n == self.string@.len(),
                string@.len() == i - start,
                forall|k: int| 0 <= k < i - start ==> (#[trigger] string@[k])@ == self.string@[start + k]@,
            decreases stop - i,
        {
            string.push(self.string[i].duplicate());
            i = i + 1;
        }
        let mut line = Line { string, raw_string: String::new() };
        line.generate_raw_string();
        assert(line@ =~= self@.subrange(start as int, stop as int));
        line
    }

    pub fn is_empty(&self) -> (r: bool)
        ensures
            r == (self.string@.len() == 0),
    {
        self.string.len() == 0
    }
}


/// A line's columns are the sum of its fragments' columns, so an empty line
/// has none.
pub proof fn lemma_empty_line_has_no_columns(l: Line)
    requires
        l.string@.len() == 0,
    ensures
        capped(l.cols()) == 0,
{
}

/// A line takes at most two columns per fragment.
pub proof fn lemma_cols_bound(fs: Seq<TextFragment>)
    ensures
        cols_of(fs) <= 2 * fs.len(),
    decreases fs.len(),
{
    if fs.len() > 0 {
        lemma_cols_bound(fs.drop_last());
    }
}

/// Strings that are each non-empty make a string at least as long as
/// their number.
proof fn lemma_concat_len(gs: Seq<Seq<char>>)
    requires
        forall|i: int| 0 <= i < gs.len() ==> (#[trigger] gs[i]).len() > 0,
    ensures
        concat_all(gs).len() >= gs.len(),
    decreases gs.len(),
{
    if gs.len() > 0 {
        let pre = gs.drop_last();
        assert forall|i: int| 0 <= i < pre.len() implies (#[trigger] pre[i]).len() > 0 by {
            assert(pre[i] == gs[i]);
        }
        lemma_concat_len(pre);
        assert(gs.last() == gs[gs.len() - 1]);
    }
}

/// An optional index seen as an integer.
pub open spec fn opt(o: Option<usize>) -> Option<int> {
    match o {
        Some(k) => Some(k as int),
        None => None,
    }
}

/// The index after `k`, if any.
pub open spec fn after(o: Option<int>) -> Option<int> {
    match o {
        Some(k) => Some(k + 1),
        None => None,
    }
}

/// The first index at or after `pos` whose byte is (`target`) or is not
/// (`!target`) a word character.
pub open spec fn scan_fwd(b: Seq<u8>, pos: int, target: bool) -> Option<int>
    decreases b.len() - pos,
{
    if pos < 0 || pos >= b.len() {
        None
    } else if spec_is_alpha(b[pos]) == target {
        Some(pos)
    } else {
        scan_fwd(b, pos + 1, target)
    }
}

/// The last index before `pos` whose byte is (`target`) or is not (`!target`)
/// a word character.
pub open spec fn scan_bwd(b: Seq<u8>, pos: int, target: bool) -> Option<int>
    decreases pos,
{
    if pos <= 0 {
        None
    } else if pos - 1 < b.len() && spec_is_alpha(b[pos - 1]) == target {
        Some(pos - 1)
    } else {
        scan_bwd(b, pos - 1, target)
    }
}

/// Space-delimited next word: past the word at `start`, the next byte that is
/// not a word character.
pub open spec fn next_word_at(b: Seq<u8>, start: int) -> Option<int> {
    let s = match scan_fwd(b, start, false) {
        Some(k) => k,
        None => if start < b.len() {
            b.len() - 1
        } else {
            start
        },
    };
    if s >= b.len() {
        None
    } else {
        scan_fwd(b, s + 1, false)
    }
}

/// Space-delimited previous word, searched from `start` (at most the end).
pub open spec fn prev_word_at(b: Seq<u8>, start: int) -> Option<int> {
    let st = if start < b.len() {
        start
    } else {
        b.len() as int
    };
    let p = match scan_bwd(b, st, false) {
        Some(k) => k,
        None => 0,
    };
    if p == st || p == 0 {
        None
    } else {
        after(scan_bwd(b, p - 1, false))
    }
}

/// Space-delimited word boundary found when the search moves up onto a line.
pub open spec fn prev_word_spill(b: Seq<u8>) -> Option<int> {
    if b.len() == 0 {
        None
    } else if !spec_is_alpha(b[b.len() - 1]) {
        Some(b.len() - 1)
    } else {
        match scan_bwd(b, b.len() - 1, false) {
            Some(k) => Some(b.len() - 2 - k),
            None => None,
        }
    }
}

/// Vim `w` on one line.
pub open spec fn next_word_start_at(b: Seq<u8>, pos: int) -> Option<int> {
    if pos < 0 || pos >= b.len() {
        None
    } else if spec_is_alpha(b[pos]) {
        match scan_fwd(b, pos, false) {
            Some(n) => scan_fwd(b, n, true),
            None => None,
        }
    } else {
        scan_fwd(b, pos, true)
    }
}

/// Vim `w` arriving on a line from above.
pub open spec fn next_word_start_spill(b: Seq<u8>) -> Option<int> {
    scan_fwd(b, 0, true)
}

/// Vim `b` arriving on a line from below.
pub open spec fn word_start_spill(b: Seq<u8>) -> Option<int> {
    if b.len() == 0 {
        None
    } else {
        let l = b.len() - 1;
        if spec_is_alpha(b[l]) {
            after(scan_bwd(b, l, false))
        } else {
            after(scan_bwd(b, l, true))
        }
    }
}

/// Vim `b` on one line.
pub open spec fn word_start_at(b: Seq<u8>, pos: int) -> Option<int> {
    if pos < 0 || pos >= b.len() {
        None
    } else if spec_is_alpha(b[pos]) && pos > 0 && spec_is_alpha(b[pos - 1]) {
        after(scan_bwd(b, pos, false))
    } else if spec_is_alpha(b[pos]) {
        let from = if pos > 0 {
            pos - 1
        } else {
            0
        };
        match scan_bwd(b, from, true) {
            None => None,
            Some(x) => match scan_bwd(b, x, false) {
                Some(y) => Some(y + 1),
                None => if spec_is_alpha(b[0]) {
                    Some(0)
                } else {
                    None
                },
            },
        }
    } else {
        match scan_bwd(b, pos, true) {
            None => None,
            Some(t) => match scan_bwd(b, t, false) {
                Some(y) => Some(y + 1),
                None => Some(0),
            },
        }
    }
}

/// Vim `e` on one line.
pub open spec fn word_end_at(b: Seq<u8>, pos: int) -> Option<int> {
    if pos < 0 || pos + 1 >= b.len() {
        None
    } else {
        let found = if spec_is_alpha(b[pos]) && spec_is_alpha(b[pos + 1]) {
            scan_fwd(b, pos, false)
        } else if spec_is_alpha(b[pos]) {
            match scan_fwd(b, pos + 1, true) {
                Some(t) => scan_fwd(b, t, false),
                None => None,
            }
        } else if spec_is_alpha(b[pos + 1]) {
            scan_fwd(b, pos + 1, false)
        } else {
            match scan_fwd(b, pos, true) {
                Some(t) => scan_fwd(b, t, false),
                None => None,
            }
        };
        match found {
            Some(k) => Some(k - 1),
            None => None,
        }
    }
}

/// Vim `e` arriving on a line from above.
pub open spec fn word_end_spill(b: Seq<u8>) -> Option<int> {
    if b.len() == 0 {
        None
    } else {
        let start = if spec_is_alpha(b[0]) {
            Some(0int)
        } else {
            scan_fwd(b, 0, true)
        };
        match start {
            Some(p) => match scan_fwd(b, p, false) {
                Some(k) => Some(k - 1),
                None => None,
            },
            None => None,
        }
    }
}

impl Line {
    /// First byte at or after `pos` that is not a word character.
    pub fn forward_from_alpha(pos: usize, str_bytes: &[u8]) -> (r: Option<usize>)
        ensures
            opt(r) == scan_fwd(str_bytes@, pos as int, false),
            r matches Some(k) ==> pos <= k < str_bytes@.len() && spec_is_alpha(str_bytes@[k as int]) == false,
    {
        Self::scan_forward(pos, str_bytes, false)
    }

    /// First byte at or after `pos` that is a word character.
    pub fn forward_from_non_alpha(pos: usize, str_bytes: &[u8]) -> (r: Option<usize>)
        ensures
            opt(r) == scan_fwd(str_bytes@, pos as int, true),
            r matches Some(k) ==> pos <= k < str_bytes@.len() && spec_is_alpha(str_bytes@[k as int]) == true,
    {
        Self::scan_forward(pos, str_bytes, true)
    }

    /// Last byte before `pos` that is not a word character.
    pub fn backward_from_alpha(pos: usize, str_bytes: &[u8]) -> (r: Option<usize>)
        ensures
            opt(r) == scan_bwd(str_bytes@, pos as int, false),
            r matches Some(k) ==> k < pos && k < str_bytes@.len() && spec_is_alpha(str_bytes@[k as int]) == false,
    {
        Self::scan_backward(pos, str_bytes, false)
    }

    /// Last byte before `pos` that is a word character.
    pub fn backward_from_non_alpha(pos: usize, str_bytes: &[u8]) -> (r: Option<usize>)
        ensures
            opt(r) == scan_bwd(str_bytes@, pos as int, true),
            r matches Some(k) ==> k < pos && k < str_bytes@.len() && spec_is_alpha(str_bytes@[k as int]) == true,
    {
        Self::scan_backward(pos, str_bytes, true)
    }

    fn scan_forward(pos: usize, b: &[u8], target: bool) -> (r: Option<usize>)
        ensures
            opt(r) == scan_fwd(b@, pos as int, target),
            r matches Some(k) ==> pos <= k < b@.len() && spec_is_alpha(b@[k as int]) == target,
    {
        let n = b.len();
        let mut i = pos;
        while i < n
            invariant
                n == b@.len(),
                pos <= i,
                scan_fwd(b@, pos as int, target) == scan_fwd(b@, i as int, target),
            decreases n - i,
        {
            if is_alpha(b[i]) == target {
                return Some(i);
            }
            i = i + 1;
        }
        None
    }

    fn scan_backward(pos: usize, b: &[u8], target: bool) -> (r: Option<usize>)
        ensures
            opt(r) == scan_bwd(b@, pos as int, target),
            r matches Some(k) ==> k < pos && k < b@.len() && spec_is_alpha(b@[k as int]) == target,
    {
        let n = b.len();
        let mut i = if pos < n {
            pos
        } else {
            n
        };
        assert(scan_bwd(b@, pos as int, target) == scan_bwd(b@, i as int, target)) by {
            Self::lemma_scan_bwd_past_end(b@, pos as int, target);
        }
        while i > 0
            invariant
                i <= n == b@.len(),
                i <= pos,
                scan_bwd(b@, pos as int, target) == scan_bwd(b@, i as int, target),
            decreases i,
        {
            if is_alpha(b[i - 1]) == target {
                return Some(i - 1);
            }
            i = i - 1;
        }
        None
    }

    proof fn lemma_scan_bwd_past_end(b: Seq<u8>, pos: int, target: bool)
        ensures
            pos > b.len() ==> scan_bwd(b, pos, target) == scan_bwd(b, b.len() as int, target),
        decreases pos,
    {
        if pos > b.len() {
            Self::lemma_scan_bwd_past_end(b, pos - 1, target);
        }
    }

    /// Space-delimited word motion forward from `start`; `None` on an empty
    /// line or when no boundary follows.
    pub fn get_next_word(&self, start: usize) -> (r: Option<usize>)
        ensures
            opt(r) == if self.string@.len() == 0 {
                None
            } else {
                next_word_at(self.bytes(), start as int)
            },
    {
        if self.is_empty() {
            return None;
        }
        let bytes = self.raw_string.as_str().as_bytes();
        let n = bytes.len();
        let space_pos = match Self::forward_from_alpha(start, bytes) {
            Some(k) => k,
            None => if start < n {
                n - 1
            } else {
                start
            },
        };
        if space_pos >= n {
            return None;
        }
        Self::forward_from_alpha(space_pos + 1, bytes)
    }

    /// Space-delimited word motion arriving from the line above.
    pub fn next_word_spillover(&self) -> (r: Option<usize>)
        ensures
            opt(r) == if self.string@.len() == 0 {
                None
            } else {
                scan_fwd(self.bytes(), 0, false)
            },
    {
        if self.is_empty() {
            return None;
        }
        let bytes = self.raw_string.as_str().as_bytes();
        Self::forward_from_alpha(0, bytes)
    }

    /// Space-delimited word motion backward from `start`.
    pub fn get_prev_word(&self, start: usize) -> (r: Option<usize>)
        ensures
            opt(r) == if self.string@.len() == 0 {
                None
            } else {
                prev_word_at(self.bytes(), start as int)
            },
    {
        if self.is_empty() {
            return None;
        }
        let bytes = self.raw_string.as_str().as_bytes();
        let st = if start < bytes.len() {
            start
        } else {
            bytes.len()
        };
        let pos = match Self::backward_from_alpha(st, bytes) {
            Some(k) => k,
            None => 0,
        };
        if pos == st || pos == 0 {
            return None;
        }
        match Self::backward_from_alpha(pos - 1, bytes) {
            Some(k) => Some(k + 1),
            None => None,
        }
    }

    /// Space-delimited word motion arriving from the line below.
    pub fn get_prev_word_spillover(&self) -> (r: Option<usize>)
        ensures
            opt(r) == if self.string@.len() == 0 {
                None
            } else {
                prev_word_spill(self.bytes())
            },
    {
        if self.is_empty() {
            return None;
        }
        let bytes = self.raw_string.as_str().as_bytes();
        let n = bytes.len();
        if n == 0 {
            return None;
        }
        if !is_alpha(bytes[n - 1]) {
            return Some(n - 1);
        }
        match Self::backward_from_alpha(n - 1, bytes) {
            Some(k) => Some(n - 2 - k),
            None => None,
        }
    }

    /// Vim `w`: the start of the next word on this line, if any.
    pub fn begining_of_next_word(&self, pos: usize) -> (r: Option<usize>)
        ensures
            opt(r) == next_word_start_at(self.bytes(), pos as int),
    {
        let bytes = self.raw_string.as_str().as_bytes();
        if pos >= bytes.len() {
            return None;
        }
        if is_alpha(bytes[pos]) {
            match Self::forward_from_alpha(pos, bytes) {
                Some(next) => Self::forward_from_non_alpha(next, bytes),
                None => None,
            }
        } else {
            Self::forward_from_non_alpha(pos, bytes)
        }
    }

    /// Vim `w` arriving from the line above.
    pub fn begining_of_next_word_spillover(&self) -> (r: Option<usize>)
        ensures
            opt(r) == if self.string@.len() == 0 {
                None
            } else {
                next_word_start_spill(self.bytes())
            },
    {
        if self.is_empty() {
            return None;
        }
        let bytes = self.raw_string.as_str().as_bytes();
        Self::forward_from_non_alpha(0, bytes)
    }

    /// Vim `b` arriving from the line below.
    pub fn begining_of_current_word_spillover(&self) -> (r: Option<usize>)
        ensures
            opt(r) == word_start_spill(self.bytes()),
    {
        let bytes = self.raw_string.as_str().as_bytes();
        let n = bytes.len();
        if n == 0 {
            return None;
        }
        let l = n - 1;
        let found = if is_alpha(bytes[l]) {
            Self::backward_from_alpha(l, bytes)
        } else {
            Self::backward_from_non_alpha(l, bytes)
        };
        match found {
            Some(k) => Some(k + 1),
            None => None,
        }
    }

    /// Vim `b`: the start of the current (or previous) word on this line.
    pub fn begining_of_current_word(&self, pos: usize) -> (r: Option<usize>)
        ensures
            opt(r) == if self.string@.len() == 0 {
                None
            } else {
                word_start_at(self.bytes(), pos as int)
            },
    {
        if self.is_empty() {
            return None;
        }
        let bytes = self.raw_string.as_str().as_bytes();
        if pos >= bytes.len() {
            return None;
        }
        let here = is_alpha(bytes[pos]);
        let left = pos > 0 && is_alpha(bytes[pos - 1]);
        if here && left {
            match Self::backward_from_alpha(pos, bytes) {
                Some(k) => Some(k + 1),
                None => None,
            }
        } else if here {
            let from = if pos > 0 {
                pos - 1
            } else {
                0
            };
            match Self::backward_from_non_alpha(from, bytes) {
                None => None,
                Some(x) => match Self::backward_from_alpha(x, bytes) {
                    Some(y) => Some(y + 1),
                    None => if is_alpha(bytes[0]) {
                        Some(0)
                    } else {
                        None
                    },
                },
            }
        } else {
            match Self::backward_from_non_alpha(pos, bytes) {
                None => None,
                Some(t) => match Self::backward_from_alpha(t, bytes) {
                    Some(y) => Some(y + 1),
                    None => Some(0),
                },
            }
        }
    }

    /// Vim `e`: the end of the current (or next) word on this line.
    pub fn end_of_current_word(&self, pos: usize) -> (r: Option<usize>)
        ensures
            opt(r) == word_end_at(self.bytes(), pos as int),
    {
        let bytes = self.raw_string.as_str().as_bytes();
        let n = bytes.len();
        if pos >= n || pos + 1 >= n {
            return None;
        }
        let here = is_alpha(bytes[pos]);
        let right = is_alpha(bytes[pos + 1]);
        let found = if here && right {
            Self::forward_from_alpha(pos, bytes)
        } else if here {
            match Self::forward_from_non_alpha(pos + 1, bytes) {
                Some(t) => Self::forward_from_alpha(t, bytes),
                None => None,
            }
        } else if right {
            Self::forward_from_alpha(pos + 1, bytes)
        } else {
            match Self::forward_from_non_alpha(pos, bytes) {
                Some(t) => Self::forward_from_alpha(t, bytes),
                None => None,
            }
        };
        match found {
            Some(k) => Some(k.saturating_sub(1)),
            None => None,
        }
    }

    /// Vim `e` arriving from the line above.
    pub fn end_of_current_word_spillover(&self) -> (r: Option<usize>)
        ensures
            opt(r) == if self.string@.len() == 0 {
                None
            } else {
                word_end_spill(self.bytes())
            },
    {
        if self.is_empty() {
            return None;
        }
        let bytes = self.raw_string.as_str().as_bytes();
        if bytes.len() == 0 {
            return None;
        }
        let mut pos: usize = 0;
        if !is_alpha(bytes[0]) {
            match Self::forward_from_non_alpha(0, bytes) {
                Some(k) => {
                    pos = k;
                },
                None => {
                    return None;
                },
            }
        }
        match Self::forward_from_alpha(pos, bytes) {
            Some(k) => Some(k.saturating_sub(1)),
            None => None,
        }
    }
}

} // verus!
