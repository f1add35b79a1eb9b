//! The document: an ordered sequence of lines and the row-level edits on it.

use crate::line::{deleted_text, inserted_text, Line};
use crate::unicode::{graphemes_of, push_char};
use crate::view::Location;
use vstd::prelude::*;

verus! {

/// A line's text without one carriage return at its end.
pub open spec fn strip_cr(t: Seq<char>) -> Seq<char> {
    if t.len() > 0 && t.last() == '\r' {
        t.drop_last()
    } else {
        t
    }
}

/// The lines completed so far while reading `t`, and the unfinished text
/// after the last line feed.
pub open spec fn split_state(t: Seq<char>) -> (Seq<Seq<char>>, Seq<char>)
    decreases t.len(),
{
    if t.len() == 0 {
        (Seq::empty(), Seq::empty())
    } else {
        let (done, cur) = split_state(t.drop_last());
        if t.last() == '\n' {
            (done.push(strip_cr(cur)), Seq::empty())
        } else {
            (done, cur.push(t.last()))
        }
    }
}

/// The lines of a text: split at each line feed, a carriage return just
/// before it dropped, with no empty line after a final line feed.
pub open spec fn lines_of(t: Seq<char>) -> Seq<Seq<char>> {
    let (done, cur) = split_state(t);
    if cur.len() == 0 {
        done
    } else {
        done.push(cur)
    }
}

/// The lines of the text, each as its grapheme clusters.
pub open spec fn segmented_lines(t: Seq<char>) -> Seq<Seq<Seq<char>>> {
    lines_of(t).map_values(|l: Seq<char>| graphemes_of(l))
}

/// Length of line `y`, or zero past the last line.
pub open spec fn line_len(ls: Seq<Seq<Seq<char>>>, y: int) -> int {
    if 0 <= y < ls.len() {
        ls[y].len() as int
    } else {
        0
    }
}

/// The lines after typing `c` at `at`: into the line there, as a new last
/// line when `at` is just past the last line, and nowhere when further.
pub open spec fn after_insert(ls: Seq<Seq<Seq<char>>>, c: char, at: Location) -> Seq<
    Seq<Seq<char>>,
> {
    let y = at.line_index as int;
    if y > ls.len() {
        ls
    } else if y == ls.len() {
        ls.push(graphemes_of(seq![c]))
    } else {
        ls.update(y, graphemes_of(inserted_text(ls[y], c, at.grapheme_index as int)))
    }
}

/// The lines after a forward delete at `at`: at or past the end of a line
/// that has a successor, the two lines are joined; inside a line, the
/// cluster there is removed; otherwise nothing changes.
pub open spec fn after_delete(ls: Seq<Seq<Seq<char>>>, at: Location) -> Seq<Seq<Seq<char>>> {
    let y = at.line_index as int;
    let x = at.grapheme_index as int;
    if y < ls.len() {
        if x >= ls[y].len() && y + 1 < ls.len() {
            ls.remove(y + 1).update(y, graphemes_of(ls[y].flatten() + ls[y + 1].flatten()))
        } else if x < ls[y].len() {
            ls.update(y, graphemes_of(deleted_text(ls[y], x)))
        } else {
            ls
        }
    } else {
        ls
    }
}

/// The lines after breaking the line at `at`: what follows the break moves
/// to a new line just below; just past the last line, an empty line is added.
pub open spec fn after_newline(ls: Seq<Seq<Seq<char>>>, at: Location) -> Seq<Seq<Seq<char>>> {
    let y = at.line_index as int;
    let x = at.grapheme_index as int;
    if y == ls.len() {
        ls.push(Seq::empty())
    } else if y < ls.len() {
        if x < ls[y].len() {
            ls.update(y, ls[y].take(x)).insert(y + 1, ls[y].skip(x))
        } else {
            ls.insert(y + 1, Seq::empty())
        }
    } else {
        ls
    }
}

/// The texts of a sequence of lines joined with line feeds.
pub open spec fn joined_text(ls: Seq<Seq<Seq<char>>>) -> Seq<char>
    decreases ls.len(),
{
    if ls.len() == 0 {
        Seq::empty()
    } else if ls.len() == 1 {
        ls[0].flatten()
    } else {
        joined_text(ls.drop_last()).push('\n') + ls.last().flatten()
    }
}

/// The document's lines, top to bottom.
pub struct Buffer {
    lines: Vec<Line>,
}

impl View for Buffer {
    type V = Seq<Seq<Seq<char>>>;

    /// Each line as its grapheme clusters.
    closed spec fn view(&self) -> Seq<Seq<Seq<char>>> {
        self.lines@.map_values(|l: Line| l@)
    }
}

impl Buffer {
    /// Every line is well formed.
    pub closed spec fn wf(&self) -> bool {
        forall|i: int| 0 <= i < self.lines@.len() ==> (#[trigger] self.lines@[i]).wf()
    }

    /// Builds the document from source text, one line per line of the text.
    pub fn load(contents: &str) -> (r: Buffer)
        ensures
            r.wf(),
            r@ == segmented_lines(contents@),
            forall|k: int| 0 <= k < r@.len() ==> (#[trigger] r@[k]).flatten() == lines_of(contents@)[k],
    {
        let ghost t = contents@;
        let mut lines: Vec<Line> = Vec::new();
        let mut current = String::new();
        let mut pending_cr = false;
        for c in it: contents.chars()
            invariant
                it.seq() == t,
                forall|i: int| 0 <= i < lines@.len() ==> (#[trigger] lines@[i]).wf(),
                forall|i: int|
                    0 <= i < lines@.len() ==> (#[trigger] lines@[i]).text() == split_state(
                        t.take(it.index() as int),
                    ).0[i],
                lines@.map_values(|l: Line| l@) == split_state(t.take(it.index() as int)).0.map_values(
                    |l: Seq<char>| graphemes_of(l),
                ),
                split_state(t.take(it.index() as int)).1 == if pending_cr {
                    current@.push('\r')
                } else {
                    current@
                },
                !pending_cr ==> (current@.len() == 0 || current@.last() != '\r'),
        {
            let ghost k = it.index() as int;
            proof {
                assert(t.take(k + 1).drop_last() =~= t.take(k));
                assert(t.take(k + 1).last() == c);
            }
            let ghost before_lines = lines@;
            if c == '\n' {
                let line = Line::from(current.as_str());
                lines.push(line);
                current = String::new();
                pending_cr = false;
                proof {
                    let (done, cur) = split_state(t.take(k));
                    assert(strip_cr(cur) == line.text());
                    assert(lines@.map_values(|l: Line| l@) =~= before_lines.map_values(
                        |l: Line| l@,
                    ).push(line@));
                    assert(done.push(strip_cr(cur)).map_values(|l: Seq<char>| graphemes_of(l))
                        =~= done.map_values(|l: Seq<char>| graphemes_of(l)).push(
                        graphemes_of(strip_cr(cur)),
                    ));
                }
            } else {
                if pending_cr {
                    push_char(&mut current, '\r');
                }
                if c == '\r' {
                    pending_cr = true;
                } else {
                    push_char(&mut current, c);
                    pending_cr = false;
                }
            }
        }
        proof {
            assert(t.take(t.len() as int) =~= t);
        }
        if pending_cr {
            push_char(&mut current, '\r');
        }
        if !current.as_str().is_empty() {
            let ghost before_lines = lines@;
            let line = Line::from(current.as_str());
            lines.push(line);
            proof {
                let (done, cur) = split_state(t);
                assert(lines@.map_values(|l: Line| l@) =~= before_lines.map_values(|l: Line| l@).push(
                    line@,
                ));
                assert(done.push(cur).map_values(|l: Seq<char>| graphemes_of(l)) =~= done.map_values(
                    |l: Seq<char>| graphemes_of(l),
                ).push(graphemes_of(cur)));
            }
        }
        let r = Buffer { lines };
        assert(r@ =~= segmented_lines(t));
        r
    }

    /// A document never has more lines than a `usize` can count.
    pub proof fn lemma_height_fits(&self)
        ensures
            self@.len() <= usize::MAX,
    {
        assert(self.lines.len() == self.lines@.len());
    }

    /// Number of lines.
    pub fn height(&self) -> (r: usize)
        ensures
            r == self@.len(),
    {
        self.lines.len()
    }

    /// The line at `index`, if there is one.
    pub fn line(&self, index: usize) -> (r: Option<&Line>)
        requires
            self.wf(),
        ensures
            index < self@.len() ==> (r matches Some(l) && l.wf() && l@ == self@[index as int]),
            index >= self@.len() ==> r is None,
    {
        if index < self.lines.len() {
            Some(&self.lines[index])
        } else {
            None
        }
    }

    /// Types `character` at `location`, as `after_insert` describes.
    pub fn insert_char(&mut self, character: char, location: Location)
        requires
            old(self).wf(),
        ensures
            final(self).wf(),
            final(self)@ == after_insert(old(self)@, character, location),
            location.line_index < old(self)@.len() ==> final(self)@[location.line_index as int].flatten()
                == inserted_text(
                old(self)@[location.line_index as int],
                character,
                location.grapheme_index as int,
            ),
            location.line_index == old(self)@.len() ==> final(self)@[location.line_index as int].flatten()
                == seq![character],
    {
        let ghost ls = self@;
        if location.line_index > self.lines.len() {
            return;
        }
        if location.line_index == self.lines.len() {
            let mut text = String::new();
            push_char(&mut text, character);
            let line = Line::from(text.as_str());
            self.lines.push(line);
            proof {
                assert(text@ =~= seq![character]);
                assert(self@ =~= after_insert(ls, character, location));
            }
        } else {
            let y = location.line_index;
            self.lines[y].insert_char(character, location.grapheme_index);
            proof {
                assert(self@ =~= after_insert(ls, character, location));
            }
        }
    }

    /// Forward delete at `location`, as `after_delete` describes.
    pub fn delete_char(&mut self, location: Location)
        requires
            old(self).wf(),
        ensures
            final(self).wf(),
            final(self)@ == after_delete(old(self)@, location),
            ({
                let y = location.line_index as int;
                let x = location.grapheme_index as int;
                y < old(self)@.len() ==> final(self)@[y].flatten() == if x >= old(self)@[y].len() && y
                    + 1 < old(self)@.len() {
                    old(self)@[y].flatten() + old(self)@[y + 1].flatten()
                } else if x < old(self)@[y].len() {
                    deleted_text(old(self)@[y], x)
                } else {
                    old(self)@[y].flatten()
                }
            }),
    {
        let ghost ls = self@;
        let y = location.line_index;
        if y >= self.lines.len() {
            return;
        }
        let count = self.lines[y].grapheme_count();
        if location.grapheme_index >= count && self.lines.len() > y.saturating_add(1) {
            let next_line = self.lines.remove(y + 1);
            proof {
                assert(self.lines@[y as int] == old(self).lines@[y as int]);
            }
            self.lines[y].append(&next_line);
            proof {
                assert(self@ =~= after_delete(ls, location));
            }
        } else if location.grapheme_index < count {
            self.lines[y].delete(location.grapheme_index);
            proof {
                assert(self@ =~= after_delete(ls, location));
            }
        }
    }

    /// Breaks the line at `location`, as `after_newline` describes.
    pub fn insert_newline(&mut self, location: Location)
        requires
            old(self).wf(),
        ensures
            final(self).wf(),
            final(self)@ == after_newline(old(self)@, location),
    {
        let ghost ls = self@;
        let y = location.line_index;
        if y == self.lines.len() {
            self.lines.push(Line::default());
            proof {
                assert(self@ =~= after_newline(ls, location));
            }
        } else if y < self.lines.len() {
            let rest = self.lines[y].split(location.grapheme_index);
            self.lines.insert(y + 1, rest);
            proof {
                assert(self@ =~= after_newline(ls, location));
            }
        }
    }

    /// The document as text: the lines joined with line feeds.
    pub fn save(&self) -> (r: String)
        ensures
            r@ == joined_text(self@),
    {
        let ghost ls = self@;
        let mut result = String::new();
        let mut i: usize = 0;
        while i < self.lines.len()
            invariant
                ls == self@,
                i <= self.lines@.len(),
                result@ == joined_text(ls.take(i as int)),
            decreases self.lines@.len() - i,
        {
            proof {
                assert(ls.take(i + 1).drop_last() =~= ls.take(i as int));
            }
            if i > 0 {
                push_char(&mut result, '\n');
            }
            let text = self.lines[i].to_string();
            result.append(text.as_str());
            proof {
                if i == 0 {
                    assert(result@ =~= joined_text(ls.take(1)));
                }
            }
            i += 1;
        }
        assert(ls.take(i as int) =~= ls);
        result
    }
}

impl Default for Buffer {
    /// The empty document.
    fn default() -> (r: Buffer)
        ensures
            r.wf(),
            r@ == Seq::<Seq<Seq<char>>>::empty(),
    {
        let r = Buffer { lines: Vec::new() };
        assert(r@ =~= Seq::<Seq<Seq<char>>>::empty());
        r
    }
}

} // verus!
