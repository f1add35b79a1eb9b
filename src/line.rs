//! One document row as a sequence of grapheme-cluster fragments, with the
//! width and clipping rules used to draw it.

use crate::unicode::{
    char_is_control, char_is_whitespace, display_width, graphemes_of, is_control_code,
    is_white_space, push_char, split_graphemes, str_width, string_views,
};
use vstd::prelude::*;

verus! {

/// Marker drawn for a fragment cut by the left or right edge of the view.
pub const CLIP_MARKER: char = '\u{22EF}';

/// Stand-in glyph for visible whitespace other than a plain space.
pub const BLANK_MARKER: char = '\u{2423}';

/// Stand-in glyph for a lone control character.
pub const CONTROL_MARKER: char = '\u{25AF}';

/// Stand-in glyph for any other zero-width cluster.
pub const ZERO_WIDTH_MARKER: char = '\u{B7}';

/// Clamps a column count to what a `usize` can hold.
pub open spec fn saturate(x: int) -> int {
    if x > usize::MAX {
        usize::MAX as int
    } else {
        x
    }
}

/// Whether every character of a cluster is whitespace.
pub open spec fn all_white_space(g: Seq<char>) -> bool {
    forall|i: int| 0 <= i < g.len() ==> #[trigger] is_white_space(g[i])
}

/// The glyph drawn in place of a cluster that is invisible or ambiguous on a
/// terminal, if any.
pub open spec fn replacement_of(g: Seq<char>) -> Option<char> {
    if g == seq![' '] {
        None
    } else if g == seq!['\t'] {
        Some('\t')
    } else if display_width(g) > 0 && all_white_space(g) {
        Some(BLANK_MARKER)
    } else if display_width(g) == 0 {
        if g.len() == 1 && is_control_code(g[0]) {
            Some(CONTROL_MARKER)
        } else {
            Some(ZERO_WIDTH_MARKER)
        }
    } else {
        None
    }
}

/// Columns a cluster takes on screen: a replaced cluster always takes one,
/// any other takes two when it is wide and one otherwise.
pub open spec fn cell_width(g: Seq<char>) -> nat {
    if replacement_of(g) is Some {
        1
    } else if display_width(g) <= 1 {
        1
    } else {
        2
    }
}

/// What is drawn for a cluster that lies wholly inside the view.
pub open spec fn glyph_of(g: Seq<char>) -> Seq<char> {
    match replacement_of(g) {
        Some(c) => seq![c],
        None => g,
    }
}

/// Total columns of a sequence of clusters.
pub open spec fn width_sum(gs: Seq<Seq<char>>) -> nat
    decreases gs.len(),
{
    if gs.len() == 0 {
        0
    } else {
        width_sum(gs.drop_last()) + cell_width(gs.last())
    }
}

/// Columns taken by the clusters before index `i` (all of them when `i` is
/// past the end), clamped to `usize`.
pub open spec fn width_before(gs: Seq<Seq<char>>, i: int) -> int {
    let k = if i < gs.len() {
        i
    } else {
        gs.len() as int
    };
    saturate(width_sum(gs.take(k)) as int)
}

/// The text drawn for the clusters `gs` when the first of them starts at
/// column `pos` and the view covers columns `[start, end)`.
pub open spec fn visible_from(gs: Seq<Seq<char>>, pos: int, start: int, end: int) -> Seq<char>
    decreases gs.len(),
{
    if gs.len() == 0 || pos >= end {
        Seq::empty()
    } else {
        let fragment_end = saturate(pos + cell_width(gs[0]));
        let piece = if fragment_end > start {
            if fragment_end > end || pos < start {
                seq![CLIP_MARKER]
            } else {
                glyph_of(gs[0])
            }
        } else {
            Seq::empty()
        };
        piece + visible_from(gs.drop_first(), fragment_end, start, end)
    }
}

/// The text drawn for a row of clusters in columns `[start, end)`.
pub open spec fn visible_text(gs: Seq<Seq<char>>, start: int, end: int) -> Seq<char> {
    if start >= end {
        Seq::empty()
    } else {
        visible_from(gs, 0, start, end)
    }
}

/// What cluster `k` of a row shows in the columns `[start, end)`, which it
/// covers from `width_before(gs, k)` to `width_before(gs, k + 1)`: its glyph
/// when it lies wholly inside, the clip marker when it crosses an edge, and
/// nothing when it lies wholly outside.
pub open spec fn drawn_piece(gs: Seq<Seq<char>>, k: int, start: int, end: int) -> Seq<char> {
    let left = width_before(gs, k);
    let right = width_before(gs, k + 1);
    if left < end && right > start {
        if right > end || left < start {
            seq![CLIP_MARKER]
        } else {
            glyph_of(gs[k])
        }
    } else {
        Seq::empty()
    }
}

/// What each cluster of a row shows in the columns `[start, end)`.
pub open spec fn drawn_pieces(gs: Seq<Seq<char>>, start: int, end: int) -> Seq<Seq<char>> {
    Seq::new(gs.len(), |k: int| drawn_piece(gs, k, start, end))
}

/// The text of a row after `c` is put before cluster `i` (at the end when
/// `i` is past the last cluster).
pub open spec fn inserted_text(gs: Seq<Seq<char>>, c: char, i: int) -> Seq<char> {
    if i < gs.len() {
        gs.take(i).flatten() + seq![c] + gs.skip(i).flatten()
    } else {
        gs.flatten().push(c)
    }
}

/// The text of a row without its cluster `i`.
pub open spec fn deleted_text(gs: Seq<Seq<char>>, i: int) -> Seq<char> {
    gs.take(i).flatten() + gs.skip(i + 1).flatten()
}

/// Rendered width class of a cluster.
#[derive(Clone, Copy, PartialEq, Eq, Structural)]
pub enum GraphemeWidth {
    Half,
    Full,
}

impl GraphemeWidth {
    /// Number of columns of this class.
    pub open spec fn columns(self) -> nat {
        match self {
            GraphemeWidth::Half => 1,
            GraphemeWidth::Full => 2,
        }
    }

    /// Adds this width to a column count, stopping at `usize::MAX`.
    pub fn saturating_add(self, other: usize) -> (r: usize)
        ensures
            r == saturate(other + self.columns()),
    {
        match self {
            GraphemeWidth::Half => other.saturating_add(1),
            GraphemeWidth::Full => other.saturating_add(2),
        }
    }
}

/// One grapheme cluster of a line, with its width and stand-in glyph worked
/// out when the fragment is made.
pub struct TextFragment {
    grapheme: String,
    rendered_width: GraphemeWidth,
    replacement: Option<char>,
}

impl TextFragment {
    /// Width and stand-in glyph agree with the cluster.
    pub closed spec fn wf(&self) -> bool {
        &&& self.replacement == replacement_of(self.grapheme@)
        &&& self.rendered_width.columns() == cell_width(self.grapheme@)
    }

    pub closed spec fn grapheme_view(&self) -> Seq<char> {
        self.grapheme@
    }

    fn new(grapheme: String) -> (r: TextFragment)
        ensures
            r.wf(),
            r.grapheme@ == grapheme@,
    {
        let replacement = Line::replacement_character(grapheme.as_str());
        let rendered_width = match replacement {
            Some(_) => GraphemeWidth::Half,
            None => {
                if str_width(grapheme.as_str()) <= 1 {
                    GraphemeWidth::Half
                } else {
                    GraphemeWidth::Full
                }
            },
        };
        TextFragment { grapheme, rendered_width, replacement }
    }
}

/// The clusters held by a sequence of fragments.
pub open spec fn fragment_views(fs: Seq<TextFragment>) -> Seq<Seq<char>> {
    fs.map_values(|f: TextFragment| f.grapheme_view())
}

/// A row of text: its fragments in left-to-right order.
pub struct Line {
    fragments: Vec<TextFragment>,
}

impl View for Line {
    type V = Seq<Seq<char>>;

    /// The clusters of the line.
    closed spec fn view(&self) -> Seq<Seq<char>> {
        fragment_views(self.fragments@)
    }
}

impl Line {
    /// Every fragment's width and stand-in glyph agree with its cluster.
    pub closed spec fn wf(&self) -> bool {
        forall|i: int| 0 <= i < self.fragments@.len() ==> (#[trigger] self.fragments@[i]).wf()
    }

    /// The raw text of the line: its clusters joined, stand-ins ignored.
    pub open spec fn text(&self) -> Seq<char> {
        self@.flatten()
    }

    /// The fragments are exactly the grapheme clusters of the line's text.
    pub open spec fn is_segmented(&self) -> bool {
        graphemes_of(self.text()) == self@
    }

    /// Builds a line from text, one fragment per grapheme cluster; the
    /// clusters joined give the text back.
    pub fn from(line_str: &str) -> (r: Line)
        ensures
            r.wf(),
            r@ == graphemes_of(line_str@),
            r.text() == line_str@,
            r.is_segmented(),
    {
        let fragments = Self::str_to_fragments(line_str);
        Line { fragments }
    }

    fn str_to_fragments(line_str: &str) -> (r: Vec<TextFragment>)
        ensures
            forall|i: int| 0 <= i < r@.len() ==> (#[trigger] r@[i]).wf(),
            fragment_views(r@) == graphemes_of(line_str@),
            fragment_views(r@).flatten() == line_str@,
    {
        let graphemes = split_graphemes(line_str);
        let mut fragments: Vec<TextFragment> = Vec::new();
        let mut i: usize = 0;
        while i < graphemes.len()
            invariant
                i <= graphemes.len(),
                fragments@.len() == i,
                forall|j: int| 0 <= j < i ==> (#[trigger] fragments@[j]).wf(),
                forall|j: int|
                    0 <= j < i ==> (#[trigger] fragments@[j]).grapheme_view() == graphemes@[j]@,
            decreases graphemes.len() - i,
        {
            let grapheme = graphemes[i].clone();
            fragments.push(TextFragment::new(grapheme));
            i += 1;
        }
        assert(fragment_views(fragments@) =~= string_views(graphemes@));
        fragments
    }

    /// The stand-in glyph for a cluster, as `replacement_of` describes it.
    fn replacement_character(for_str: &str) -> (r: Option<char>)
        ensures
            r == replacement_of(for_str@),
    {
        let width = str_width(for_str);
        let n = for_str.unicode_len();
        let single = if n == 1 {
            Some(for_str.get_char(0))
        } else {
            None
        };
        proof {
            if n == 1 {
                assert(for_str@ =~= seq![for_str@[0]]);
            }
        }
        if single == Some(' ') {
            None
        } else if single == Some('\t') {
            Some('\t')
        } else if width > 0 && Self::is_blank(for_str) {
            Some(BLANK_MARKER)
        } else if width == 0 {
            match single {
                Some(ch) => {
                    if char_is_control(ch) {
                        Some(CONTROL_MARKER)
                    } else {
                        Some(ZERO_WIDTH_MARKER)
                    }
                },
                None => Some(ZERO_WIDTH_MARKER),
            }
        } else {
            None
        }
    }

    /// The text drawn for screen columns `[range.start, range.end)`: a
    /// fragment wholly inside shows its glyph, one cut by either edge shows
    /// the clip marker, and the rest are left out.
    pub fn get_visible_graphemes(&self, range: std::ops::Range<usize>) -> (r: String)
        requires
            self.wf(),
        ensures
            r@ == visible_text(self@, range.start as int, range.end as int),
            range.start < range.end ==> r@ == drawn_pieces(
                self@,
                range.start as int,
                range.end as int,
            ).flatten(),
    {
        let start = range.start;
        let end = range.end;
        if start >= end {
            return String::new();
        }
        let ghost gs = self@;
        let mut result = String::new();
        let mut current_pos: usize = 0;
        let mut i: usize = 0;
        assert(gs.skip(0) =~= gs);
        assert(result@ + visible_from(gs, 0, start as int, end as int) =~= visible_from(
            gs,
            0,
            start as int,
            end as int,
        ));
        while i < self.fragments.len() && current_pos < end
            invariant
                self.wf(),
                gs == self@,
                i <= self.fragments@.len(),
                result@ + visible_from(gs.skip(i as int), current_pos as int, start as int, end as int)
                    == visible_from(gs, 0, start as int, end as int),
            decreases self.fragments@.len() - i,
        {
            let fragment = &self.fragments[i];
            let fragment_end = fragment.rendered_width.saturating_add(current_pos);
            proof {
                assert(self.fragments@[i as int].wf());
                assert(gs.skip(i as int)[0] == gs[i as int]);
                assert(gs.skip(i as int).drop_first() =~= gs.skip(i + 1));
            }
            if fragment_end > start {
                if fragment_end > end || current_pos < start {
                    push_char(&mut result, CLIP_MARKER);
                } else {
                    match fragment.replacement {
                        Some(ch) => push_char(&mut result, ch),
                        None => result.append(fragment.grapheme.as_str()),
                    }
                }
            }
            current_pos = fragment_end;
            i += 1;
        }
        proof {
            lemma_visible_text_by_cluster(gs, start as int, end as int);
            assert(visible_from(gs.skip(i as int), current_pos as int, start as int, end as int)
                =~= Seq::<char>::empty());
            assert(result@ =~= result@ + Seq::<char>::empty());
        }
        result
    }

    /// Number of fragments.
    pub fn len(&self) -> (r: usize)
        ensures
            r == self@.len(),
    {
        self.fragments.len()
    }

    /// Columns taken by the fragments before `grapheme_index`: the screen
    /// column at which that fragment starts.
    pub fn width_until(&self, grapheme_index: usize) -> (r: usize)
        requires
            self.wf(),
        ensures
            r == width_before(self@, grapheme_index as int),
    {
        let ghost gs = self@;
        let k = if grapheme_index < self.fragments.len() {
            grapheme_index
        } else {
            self.fragments.len()
        };
        let mut width: usize = 0;
        let mut i: usize = 0;
        while i < k
            invariant
                self.wf(),
                gs == self@,
                k <= self.fragments@.len(),
                i <= k,
                width == saturate(width_sum(gs.take(i as int)) as int),
            decreases k - i,
        {
            proof {
                assert(self.fragments@[i as int].wf());
                assert(gs.take(i + 1).drop_last() =~= gs.take(i as int));
            }
            width = self.fragments[i].rendered_width.saturating_add(width);
            i += 1;
        }
        width
    }

    /// Number of grapheme clusters: grapheme indices range over
    /// `0..=grapheme_count()`.
    pub fn grapheme_count(&self) -> (r: usize)
        ensures
            r == self@.len(),
    {
        self.fragments.len()
    }

    /// The raw text of the line, stand-in glyphs ignored.
    pub fn to_string(&self) -> (r: String)
        ensures
            r@ == self.text(),
    {
        let ghost gs = self@;
        let mut result = String::new();
        let mut i: usize = 0;
        while i < self.fragments.len()
            invariant
                gs == self@,
                i <= self.fragments@.len(),
                result@ == gs.take(i as int).flatten(),
            decreases self.fragments@.len() - i,
        {
            proof {
                assert(gs.take(i + 1) =~= gs.take(i as int).push(gs[i as int]));
                gs.take(i as int).lemma_flatten_push(gs[i as int]);
            }
            result.append(self.fragments[i].grapheme.as_str());
            i += 1;
        }
        assert(gs.take(i as int) =~= gs);
        result
    }

    /// Puts `character` before the cluster at `grapheme_index` (at the end
    /// when the index is past the last cluster), then segments the whole
    /// text again, since the new character may join or split clusters.
    pub fn insert_char(&mut self, character: char, grapheme_index: usize)
        ensures
            final(self).wf(),
            final(self)@ == graphemes_of(inserted_text(old(self)@, character, grapheme_index as int)),
            final(self).text() == inserted_text(old(self)@, character, grapheme_index as int),
            final(self).is_segmented(),
    {
        let ghost gs = self@;
        let ghost gi = grapheme_index as int;
        let mut result = String::new();
        let mut index: usize = 0;
        while index < self.fragments.len()
            invariant
                gs == self@,
                gi == grapheme_index,
                index <= self.fragments@.len(),
                index <= grapheme_index ==> result@ == gs.take(index as int).flatten(),
                index > grapheme_index ==> result@ == gs.take(gi).flatten() + seq![character]
                    + gs.subrange(gi, index as int).flatten(),
            decreases self.fragments@.len() - index,
        {
            proof {
                let g = gs[index as int];
                assert(gs.take(index + 1) =~= gs.take(index as int).push(g));
                gs.take(index as int).lemma_flatten_push(g);
                if index >= grapheme_index {
                    assert(gs.subrange(gi, index + 1) =~= gs.subrange(gi, index as int).push(g));
                    gs.subrange(gi, index as int).lemma_flatten_push(g);
                    if index == grapheme_index {
                        assert(gs.subrange(gi, gi) =~= Seq::<Seq<char>>::empty());
                    }
                }
            }
            if index == grapheme_index {
                push_char(&mut result, character);
            }
            result.append(self.fragments[index].grapheme.as_str());
            proof {
                if index >= grapheme_index {
                    assert(result@ =~= gs.take(gi).flatten() + seq![character] + gs.subrange(
                        gi,
                        index + 1,
                    ).flatten());
                }
            }
            index += 1;
        }
        if grapheme_index >= self.fragments.len() {
            push_char(&mut result, character);
            assert(gs.take(index as int) =~= gs);
        } else {
            assert(gs.subrange(gi, index as int) =~= gs.skip(gi));
        }
        assert(result@ =~= inserted_text(gs, character, gi));
        self.fragments = Self::str_to_fragments(result.as_str());
    }

    /// Removes the cluster at `grapheme_index` and segments the rest again;
    /// does nothing when the index is past the last cluster.
    pub fn delete(&mut self, grapheme_index: usize)
        requires
            old(self).wf(),
        ensures
            final(self).wf(),
            grapheme_index < old(self)@.len() ==> final(self)@ == graphemes_of(
                deleted_text(old(self)@, grapheme_index as int),
            ),
            grapheme_index < old(self)@.len() ==> final(self).text() == deleted_text(
                old(self)@,
                grapheme_index as int,
            ),
            grapheme_index >= old(self)@.len() ==> final(self)@ == old(self)@,
            grapheme_index < old(self)@.len() ==> final(self).is_segmented(),
    {
        if grapheme_index >= self.fragments.len() {
            return;
        }
        let ghost gs = self@;
        let ghost gi = grapheme_index as int;
        let mut result = String::new();
        let mut index: usize = 0;
        while index < self.fragments.len()
            invariant
                gs == self@,
                gi == grapheme_index,
                gi < gs.len(),
                index <= self.fragments@.len(),
                index <= grapheme_index ==> result@ == gs.take(index as int).flatten(),
                index > grapheme_index ==> result@ == gs.take(gi).flatten() + gs.subrange(
                    gi + 1,
                    index as int,
                ).flatten(),
            decreases self.fragments@.len() - index,
        {
            proof {
                let g = gs[index as int];
                assert(gs.take(index + 1) =~= gs.take(index as int).push(g));
                gs.take(index as int).lemma_flatten_push(g);
                if index > grapheme_index {
                    assert(gs.subrange(gi + 1, index + 1) =~= gs.subrange(gi + 1, index as int).push(g));
                    gs.subrange(gi + 1, index as int).lemma_flatten_push(g);
                }
                if index == grapheme_index {
                    assert(gs.subrange(gi + 1, gi + 1) =~= Seq::<Seq<char>>::empty());
                    assert(result@ =~= result@ + Seq::<char>::empty());
                }
            }
            if index != grapheme_index {
                result.append(self.fragments[index].grapheme.as_str());
                proof {
                    if index > grapheme_index {
                        assert(result@ =~= gs.take(gi).flatten() + gs.subrange(gi + 1, index + 1).flatten());
                    }
                }
            }
            index += 1;
        }
        assert(gs.subrange(gi + 1, index as int) =~= gs.skip(gi + 1));
        self.fragments = Self::str_to_fragments(result.as_str());
    }

    /// Joins the text of `other` to the end of this line and segments the
    /// result again.
    pub fn append(&mut self, other: &Line)
        ensures
            final(self).wf(),
            final(self)@ == graphemes_of(old(self).text() + other.text()),
            final(self).text() == old(self).text() + other.text(),
            final(self).is_segmented(),
    {
        let mut concat = self.to_string();
        let tail = other.to_string();
        concat.append(tail.as_str());
        self.fragments = Self::str_to_fragments(concat.as_str());
    }

    /// Keeps the fragments before `grapheme_index` and returns the others as
    /// a new line; returns an empty line when the index is at or past the end.
    pub fn split(&mut self, grapheme_index: usize) -> (r: Line)
        requires
            old(self).wf(),
        ensures
            final(self).wf(),
            r.wf(),
            grapheme_index < old(self)@.len() ==> final(self)@ == old(self)@.take(
                grapheme_index as int,
            ) && r@ == old(self)@.skip(grapheme_index as int),
            grapheme_index >= old(self)@.len() ==> final(self)@ == old(self)@ && r@ == Seq::<
                Seq<char>,
            >::empty(),
    {
        if grapheme_index >= self.fragments.len() {
            return Line::default();
        }
        let ghost old_fragments = self.fragments@;
        let rest = self.fragments.split_off(grapheme_index);
        proof {
            assert(fragment_views(self.fragments@) =~= fragment_views(old_fragments).take(
                grapheme_index as int,
            ));
            assert(fragment_views(rest@) =~= fragment_views(old_fragments).skip(
                grapheme_index as int,
            ));
            assert forall|i: int| 0 <= i < rest@.len() implies (#[trigger] rest@[i]).wf() by {
                assert(rest@[i] == old_fragments[grapheme_index + i]);
            }
        }
        Line { fragments: rest }
    }

    /// Whether every character of the text is whitespace.
    fn is_blank(s: &str) -> (r: bool)
        ensures
            r == all_white_space(s@),
    {
        let n = s.unicode_len();
        let mut i: usize = 0;
        while i < n
            invariant
                i <= n,
                n == s@.len(),
                forall|j: int| 0 <= j < i ==> #[trigger] is_white_space(s@[j]),
            decreases n - i,
        {
            if !char_is_whitespace(s.get_char(i)) {
                return false;
            }
            i += 1;
        }
        true
    }
}

/// Walking the clusters from `j` on, starting at the column where cluster
/// `j` begins, draws exactly the pieces of those clusters.
proof fn lemma_visible_suffix(gs: Seq<Seq<char>>, j: int, start: int, end: int)
    requires
        0 <= j <= gs.len(),
    ensures
        visible_from(gs.skip(j), width_before(gs, j), start, end) == drawn_pieces(
            gs,
            start,
            end,
        ).skip(j).flatten(),
    decreases gs.len() - j,
{
    let d = drawn_pieces(gs, start, end);
    if j == gs.len() {
        assert(gs.skip(j) =~= Seq::<Seq<char>>::empty());
        assert(d.skip(j) =~= Seq::<Seq<char>>::empty());
    } else {
        lemma_visible_suffix(gs, j + 1, start, end);
        assert(gs.take(j + 1).drop_last() =~= gs.take(j));
        assert(gs.skip(j).drop_first() =~= gs.skip(j + 1));
        assert(d.skip(j).drop_first() =~= d.skip(j + 1));
        assert(gs.skip(j)[0] == gs[j]);
        assert(d.skip(j)[0] == d[j]);
        if width_before(gs, j) >= end {
            assert(d[j] =~= Seq::<char>::empty());
            assert(visible_from(gs.skip(j + 1), width_before(gs, j + 1), start, end)
                =~= Seq::<char>::empty());
        }
    }
}

/// The text drawn for a row in columns `[start, end)` is the pieces of its
/// clusters, in order: a cluster is drawn when it starts before `end` and
/// ends after `start`, as its glyph when it lies wholly inside and as the
/// clip marker when it crosses either edge.
pub proof fn lemma_visible_text_by_cluster(gs: Seq<Seq<char>>, start: int, end: int)
    requires
        start < end,
    ensures
        visible_text(gs, start, end) == drawn_pieces(gs, start, end).flatten(),
{
    lemma_visible_suffix(gs, 0, start, end);
    assert(gs.skip(0) =~= gs);
    assert(gs.take(0) =~= Seq::<Seq<char>>::empty());
    assert(drawn_pieces(gs, start, end).skip(0) =~= drawn_pieces(gs, start, end));
}

/// Widths of cluster prefixes grow with the prefix.
proof fn lemma_width_sum_prefix(gs: Seq<Seq<char>>, a: int, b: int)
    requires
        0 <= a <= b <= gs.len(),
    ensures
        width_sum(gs.take(a)) <= width_sum(gs.take(b)),
    decreases b - a,
{
    if a < b {
        lemma_width_sum_prefix(gs, a, b - 1);
        assert(gs.take(b).drop_last() =~= gs.take(b - 1));
    }
}

/// The column at which a grapheme index starts never decreases as the index
/// grows.
pub proof fn lemma_width_until_monotone(line: Line, i: usize, j: usize)
    requires
        i <= j,
    ensures
        width_before(line@, i as int) <= width_before(line@, j as int),
{
    let gs = line@;
    let ki = if i < gs.len() { i as int } else { gs.len() as int };
    let kj = if j < gs.len() { j as int } else { gs.len() as int };
    lemma_width_sum_prefix(gs, ki, kj);
}

/// Deleting at index `i` right after inserting `c` at `i` restores the text
/// of the line, and so the line itself when its fragments are the clusters
/// of its text (as for every line made by `from`, `insert_char`, `delete` or
/// `append`). It holds when `c` forms a cluster of its own at `i`, joined to
/// neither neighbour.
pub proof fn lemma_delete_undoes_insert(line: Line, c: char, i: usize)
    requires
        i <= line@.len(),
        graphemes_of(inserted_text(line@, c, i as int)) == line@.take(i as int).push(seq![c])
            + line@.skip(i as int),
    ensures
        (i as int) < graphemes_of(inserted_text(line@, c, i as int)).len(),
        deleted_text(graphemes_of(inserted_text(line@, c, i as int)), i as int) == line.text(),
        line.is_segmented() ==> graphemes_of(
            deleted_text(graphemes_of(inserted_text(line@, c, i as int)), i as int),
        ) == line@,
{
    let gs = line@;
    let k = i as int;
    let inserted = graphemes_of(inserted_text(gs, c, k));
    assert(inserted.take(k) =~= gs.take(k));
    assert(inserted.skip(k + 1) =~= gs.skip(k));
    vstd::seq_lib::lemma_flatten_concat(gs.take(k), gs.skip(k));
    assert(gs.take(k) + gs.skip(k) =~= gs);
}

impl Default for Line {
    /// The empty line.
    fn default() -> (r: Line)
        ensures
            r.wf(),
            r@ == Seq::<Seq<char>>::empty(),
    {
        let r = Line { fragments: Vec::new() };
        assert(r@ =~= Seq::<Seq<char>>::empty());
        r
    }
}

} // verus!
