//! Breaking a run of words into lines that fit a span.
//!
//! Words are known by their widths alone.  A line holds words with one
//! space between each two; it takes as many words as fit, and its first
//! word even when that alone is too wide.

use vstd::prelude::*;
use vstd::slice::slice_subrange;

verus! {

/// The width of a line of the first `n` of `lengths` with `space`
/// between each two.
pub open spec fn line_width(lengths: Seq<usize>, space: usize, n: int) -> int
    decreases n,
{
    if n <= 0 {
        0
    } else if n == 1 {
        lengths[0] as int
    } else {
        line_width(lengths, space, n - 1) + space + lengths[n - 1]
    }
}

/// How many of `lengths` go on one line of width `span`, given that the
/// first `n` do: words go on while the next one still fits.
pub open spec fn fitting_from(lengths: Seq<usize>, span: usize, space: usize, n: int) -> int
    decreases lengths.len() - n,
{
    if n >= lengths.len() {
        lengths.len() as int
    } else if line_width(lengths, space, n + 1) > span {
        n
    } else {
        fitting_from(lengths, span, space, n + 1)
    }
}

/// How many of `lengths` go on one line of width `span`: none of none,
/// and else the first and those after it that fit.
pub open spec fn fitting(lengths: Seq<usize>, span: usize, space: usize) -> int {
    if lengths.len() == 0 {
        0
    } else {
        fitting_from(lengths, span, space, 1)
    }
}

/// A line grows with every word.
pub proof fn lemma_line_width_grows(lengths: Seq<usize>, space: usize, m: int, n: int)
    requires
        0 <= m <= n,
    ensures
        line_width(lengths, space, m) <= line_width(lengths, space, n),
    decreases n,
{
    if m < n {
        lemma_line_width_grows(lengths, space, m, n - 1);
    }
}

/// The words that go on a line are the longest run from the start that
/// fits, after the first word: every shorter run of two words or more
/// fits too, and one word more does not.
pub proof fn lemma_fitting_is_greedy(lengths: Seq<usize>, span: usize, space: usize, n: int)
    requires
        1 <= n <= lengths.len(),
        forall|k: int| 1 < k <= n ==> line_width(lengths, space, k) <= span,
    ensures
        n <= fitting_from(lengths, span, space, n) <= lengths.len(),
        forall|k: int|
            1 < k <= fitting_from(lengths, span, space, n) ==> line_width(lengths, space, k)
                <= span,
        fitting_from(lengths, span, space, n) < lengths.len() ==> line_width(
            lengths,
            space,
            fitting_from(lengths, span, space, n) + 1,
        ) > span,
    decreases lengths.len() - n,
{
    if n < lengths.len() && line_width(lengths, space, n + 1) <= span {
        lemma_fitting_is_greedy(lengths, span, space, n + 1);
    }
}

/// Counts the words that go on one line of width `span` and measures
/// the line.
pub fn num_fitting_words(span: usize, space: usize, lengths: &[usize]) -> (fit: (usize, usize))
    ensures
        fit.0 == fitting(lengths@, span, space),
        fit.1 == line_width(lengths@, space, fit.0 as int),
        lengths@.len() > 0 ==> 1 <= fit.0 <= lengths@.len(),
        forall|k: int| 1 < k <= fit.0 ==> line_width(lengths@, space, k) <= span,
        fit.0 < lengths@.len() ==> line_width(lengths@, space, fit.0 + 1) > span,
{
    if lengths.len() == 0 {
        return (0, 0);
    }
    let mut total = lengths[0];
    let mut i: usize = 1;
    while i < lengths.len()
        invariant
            1 <= i <= lengths@.len(),
            total == line_width(lengths@, space, i as int),
            forall|k: int| 1 < k <= i ==> line_width(lengths@, space, k) <= span,
            fitting(lengths@, span, space) == fitting_from(lengths@, span, space, i as int),
        decreases lengths@.len() - i,
    {
        let widened = match total.checked_add(space) {
            Some(with_space) => with_space.checked_add(lengths[i]),
            None => None,
        };
        let next = match widened {
            Some(new_total) => if new_total > span {
                None
            } else {
                Some(new_total)
            },
            None => None,
        };
        match next {
            Some(new_total) => {
                total = new_total;
            },
            None => {
                return (i, total);
            },
        }
        i += 1;
    }
    (i, total)
}

/// One line of a run of words.
#[derive(Clone, Copy, Debug, PartialEq, Eq, Hash, Structural)]
pub struct Line {
    /// The place of the first word of the line in the run.
    pub first: usize,
    /// The number of words on the line.
    pub words: usize,
    /// The width of the line.
    pub width: usize,
}

/// The lines that the words from place `from` on are broken into, as far
/// as `max_lines` lines take them.
pub open spec fn lines_from(
    lengths: Seq<usize>,
    span: usize,
    space: usize,
    from: int,
    max_lines: int,
) -> Seq<Line>
    decreases max_lines,
{
    if max_lines <= 0 || from < 0 || from >= lengths.len() {
        Seq::empty()
    } else {
        let rest = lengths.subrange(from, lengths.len() as int);
        let words = fitting(rest, span, space);
        seq![
            Line {
                first: from as usize,
                words: words as usize,
                width: line_width(rest, space, words) as usize,
            },
        ] + lines_from(lengths, span, space, from + words, max_lines - 1)
    }
}

/// Where the lines from place `from` on end: at the place after the last
/// word of the last line, or at `from` if there is no line.
pub open spec fn end_of_lines(lines: Seq<Line>, from: int) -> int {
    if lines.len() == 0 {
        from
    } else {
        lines.last().first + lines.last().words
    }
}

/// The lines follow one another without a gap: the first starts at
/// `from`, each next one starts after the last word of the one before
/// it, and each holds a word.  They end within the run, and at its end
/// unless the lines are used up.
pub proof fn lemma_lines_are_consecutive(
    lengths: Seq<usize>,
    span: usize,
    space: usize,
    from: int,
    max_lines: int,
)
    requires
        0 <= from <= lengths.len() <= usize::MAX,
    ensures
        ({
            let lines = lines_from(lengths, span, space, from, max_lines);
            &&& lines.len() <= if max_lines < 0 {
                0
            } else {
                max_lines
            }
            &&& lines.len() > 0 ==> lines[0].first == from
            &&& forall|k: int| 0 <= k < lines.len() ==> (#[trigger] lines[k]).words >= 1
            &&& forall|k: int|
                0 <= k < lines.len() - 1 ==> (#[trigger] lines[k + 1]).first == lines[k].first
                    + lines[k].words
            &&& from <= end_of_lines(lines, from) <= lengths.len()
            &&& lines.len() < max_lines ==> end_of_lines(lines, from) == lengths.len()
        }),
    decreases max_lines,
{
    let lines = lines_from(lengths, span, space, from, max_lines);
    if max_lines > 0 && from < lengths.len() {
        let rest = lengths.subrange(from, lengths.len() as int);
        let words = fitting(rest, span, space);
        assert(rest.len() > 0);
        assert(forall|k: int| 1 < k <= 1 ==> line_width(rest, space, k) <= span);
        lemma_fitting_is_greedy(rest, span, space, 1);
        let tail = lines_from(lengths, span, space, from + words, max_lines - 1);
        lemma_lines_are_consecutive(lengths, span, space, from + words, max_lines - 1);
        assert(lines.len() == 1 + tail.len());
        assert(lines[0].first == from && lines[0].words == words);
        assert forall|k: int| 0 <= k < lines.len() implies (#[trigger] lines[k]).words >= 1 by {
            if k > 0 {
                assert(lines[k] == tail[k - 1]);
            }
        }
        assert forall|k: int| 0 <= k < lines.len() - 1 implies (#[trigger] lines[k + 1]).first
            == lines[k].first + lines[k].words by {
            assert(lines[k + 1] == tail[k]);
            if k > 0 {
                assert(lines[k] == tail[k - 1]);
                assert(tail[(k - 1) + 1].first == tail[k - 1].first + tail[k - 1].words);
            } else {
                assert(tail[0].first == from + words);
            }
        }
        if tail.len() > 0 {
            assert(lines.last() == tail.last());
        }
    }
}

/// Breaks the words of the given widths into at most `max_lines` lines
/// of width `span`.  Words that are left over when the lines are used up
/// are on no line.
pub fn break_lines(span: usize, space: usize, lengths: &Vec<usize>, max_lines: usize) -> (lines:
    Vec<Line>)
    ensures
        lines@ == lines_from(lengths@, span, space, 0, max_lines as int),
        lines@.len() <= max_lines,
{
    let mut lines: Vec<Line> = Vec::new();
    let mut i: usize = 0;
    while i < lengths.len() && lines.len() < max_lines
        invariant
            i <= lengths@.len(),
            lines@.len() <= max_lines,
            lines_from(lengths@, span, space, 0, max_lines as int) == lines@ + lines_from(
                lengths@,
                span,
                space,
                i as int,
                max_lines - lines@.len(),
            ),
        decreases lengths@.len() - i,
    {
        let rest = slice_subrange(lengths.as_slice(), i, lengths.len());
        let (words, width) = num_fitting_words(span, space, rest);
        let ghost before = lines@;
        let ghost tail = lines_from(
            lengths@,
            span,
            space,
            i + words,
            max_lines - lines@.len() - 1,
        );
        lines.push(Line { first: i, words, width });
        assert(lines@ + tail =~= before + (seq![Line { first: i, words, width }] + tail));
        i += words;
    }
    assert(lines_from(lengths@, span, space, i as int, max_lines - lines@.len())
        =~= Seq::<Line>::empty());
    lines
}

} // verus!
