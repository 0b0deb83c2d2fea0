//! How a text that is being typed is shown: one line for each of its lines, and the place where
//! the next character goes.
use crate::app::typing::{self, end_of_line};
use crate::text::{chars_of, text_of};
use crate::ui::canvas::{self, push_line, Line, LineView, Span, SpanView, Style};
use vstd::prelude::*;

verus! {

/// What stands at a place of a row; behind its end a space does.
pub open spec fn under(row: Seq<char>, at: int) -> Seq<char> {
    if at < row.len() {
        row.subrange(at, at + 1)
    } else {
        " "@
    }
}

/// What stands behind a place of a row.
pub open spec fn behind(row: Seq<char>, at: int) -> Seq<char> {
    if at < row.len() {
        row.skip(at + 1)
    } else {
        seq![]
    }
}

/// A row of a text, with the place set off where it stands on the row.
pub open spec fn row_spans(row: Seq<char>, at: Option<int>, style: Style) -> Seq<SpanView> {
    match at {
        Some(at) => seq![
            canvas::styled(row.take(at), style),
            canvas::styled(under(row, at), style.inverted()),
            canvas::styled(behind(row, at), style),
        ],
        None => seq![canvas::styled(row, style)],
    }
}

/// Where a place stands on the row from `start` to `end`.
pub open spec fn place_on(start: int, end: int, place: int) -> Option<int> {
    if start <= place <= end {
        Some(place - start)
    } else {
        None
    }
}

/// The lines of a text from the one on that starts at `start`.
pub open spec fn typed_rows(s: Seq<char>, start: int, place: int, style: Style) -> Seq<LineView>
    decreases s.len() - start,
    when 0 <= start <= s.len()
    via typed_rows_end
{
    let end = typing::line_end(s, start);
    let row = canvas::line_of(
        row_spans(s.subrange(start, end), place_on(start, end, place), style),
    );
    if end >= s.len() {
        seq![row]
    } else {
        seq![row] + typed_rows(s, end + 1, place, style)
    }
}

#[via_fn]
proof fn typed_rows_end(s: Seq<char>, start: int, place: int, style: Style) {
    typing::lines_hold_places(s, start);
}

/// The lines of a text with the place in it.
pub open spec fn typed_lines(s: Seq<char>, place: int, style: Style) -> Seq<LineView> {
    typed_rows(s, 0, place, style)
}

/// A text on one line behind a label, with the place in it.
pub open spec fn labelled_input(
    label: Seq<char>,
    s: Seq<char>,
    place: int,
    style: Style,
) -> LineView {
    canvas::line_of(
        seq![canvas::raw(label)] + row_spans(s, place_on(0, s.len() as int, place), style),
    )
}

/// A row is shown whole: its pieces make up the row, with a space behind it where the place is at
/// its end.
pub proof fn rows_are_shown_whole(row: Seq<char>, at: int, style: Style)
    requires
        0 <= at <= row.len(),
    ensures
        ({
            let spans = row_spans(row, Some(at), style);
            spans[0].content + spans[1].content + spans[2].content == (if at < row.len() {
                row
            } else {
                row + " "@
            })
        }),
{
    if at < row.len() {
        assert(row.take(at) + row.subrange(at, at + 1) + row.skip(at + 1) =~= row);
    } else {
        assert(row.take(at) + " "@ + Seq::<char>::empty() =~= row + " "@);
    }
}

/// The number of newlines in a text from a place on.
pub open spec fn newlines_from(s: Seq<char>, start: int) -> nat
    decreases s.len() - start,
{
    if start >= s.len() {
        0
    } else {
        newlines_from(s, start + 1) + (if s[start] == '\n' {
            1nat
        } else {
            0nat
        })
    }
}

/// No newline stands before the end of a line.
proof fn lemma_newlines_of_line(s: Seq<char>, start: int)
    requires
        0 <= start <= s.len(),
    ensures
        newlines_from(s, start) == newlines_from(s, typing::line_end(s, start)),
    decreases s.len() - start,
{
    if start < s.len() && s[start] != '\n' {
        lemma_newlines_of_line(s, start + 1);
    }
}

/// Every newline of a text starts another line.
pub proof fn one_line_per_newline(s: Seq<char>, start: int, place: int, style: Style)
    requires
        0 <= start <= s.len(),
    ensures
        typed_rows(s, start, place, style).len() == newlines_from(s, start) + 1,
    decreases s.len() - start,
{
    let end = typing::line_end(s, start);
    typing::lines_hold_places(s, start);
    lemma_newlines_of_line(s, start);
    if end < s.len() {
        one_line_per_newline(s, end + 1, place, style);
    }
}

fn piece(chars: &Vec<char>, from: usize, to: usize) -> (r: String)
    requires
        from <= to <= chars.len(),
    ensures
        r@ == chars@.subrange(from as int, to as int),
{
    let mut out: Vec<char> = Vec::new();
    for i in from..to
        invariant
            from <= to <= chars.len(),
            out@ == chars@.subrange(from as int, i as int),
    {
        out.push(chars[i]);
        assert(out@ =~= chars@.subrange(from as int, i + 1));
    }
    text_of(&out)
}

fn push_span(spans: &mut Vec<Span>, span: Span)
    ensures
        final(spans).deep_view() == old(spans).deep_view().push(span.deep_view()),
{
    let ghost before = spans.deep_view();
    spans.push(span);
    assert(spans.deep_view() =~= before.push(span.deep_view()));
}

/// Adds the row of `chars` from `start` to `end`.
fn push_row(
    spans: &mut Vec<Span>,
    chars: &Vec<char>,
    start: usize,
    end: usize,
    place: usize,
    style: Style,
)
    requires
        start <= end <= chars.len(),
    ensures
        final(spans).deep_view() == old(spans).deep_view() + row_spans(
            chars@.subrange(start as int, end as int),
            place_on(start as int, end as int, place as int),
            style,
        ),
{
    let ghost before = spans.deep_view();
    let ghost row = chars@.subrange(start as int, end as int);
    if start <= place && place <= end {
        let ghost at = place - start;
        let front = piece(chars, start, place);
        assert(front@ =~= row.take(at));
        push_span(spans, Span::styled(front.as_str(), style));
        if place < end {
            let here = piece(chars, place, place + 1);
            let rest = piece(chars, place + 1, end);
            assert(here@ =~= under(row, at));
            assert(rest@ =~= behind(row, at));
            push_span(spans, Span::styled(here.as_str(), style.invert()));
            push_span(spans, Span::styled(rest.as_str(), style));
        } else {
            let rest = String::new();
            assert(rest@ =~= behind(row, at));
            push_span(spans, Span::styled(" ", style.invert()));
            push_span(spans, Span::styled(rest.as_str(), style));
        }
        assert(spans.deep_view() =~= before + row_spans(row, Some(at), style));
    } else {
        let all = piece(chars, start, end);
        push_span(spans, Span::styled(all.as_str(), style));
        assert(spans.deep_view() =~= before + row_spans(row, None, style));
    }
}

/// Adds the lines of a text that is being typed, with the place in it.
pub fn push_typed(lines: &mut Vec<Line>, buffer: &str, place: usize, style: Style)
    ensures
        final(lines).deep_view() == old(lines).deep_view() + typed_lines(
            buffer@,
            place as int,
            style,
        ),
{
    let chars = chars_of(buffer);
    let ghost before = lines.deep_view();
    let ghost all = typed_lines(chars@, place as int, style);
    let mut start: usize = 0;
    loop
        invariant_except_break
            start <= chars.len(),
            before + all == lines.deep_view() + typed_rows(
                chars@,
                start as int,
                place as int,
                style,
            ),
        ensures
            lines.deep_view() == before + all,
        decreases chars.len() - start,
    {
        let end = end_of_line(&chars, start);
        proof {
            typing::lines_hold_places(chars@, start as int);
        }
        let mut spans: Vec<Span> = Vec::new();
        assert(spans.deep_view() =~= seq![]);
        push_row(&mut spans, &chars, start, end, place, style);
        let ghost row = row_spans(
            chars@.subrange(start as int, end as int),
            place_on(start as int, end as int, place as int),
            style,
        );
        assert(spans.deep_view() =~= row);
        let ghost done = lines.deep_view();
        push_line(lines, Line::from_spans(spans));
        if end == chars.len() {
            assert(lines.deep_view() =~= done + seq![canvas::line_of(row)]);
            break;
        }
        assert(done + typed_rows(chars@, start as int, place as int, style)
            =~= lines.deep_view() + typed_rows(chars@, end + 1, place as int, style));
        start = end + 1;
    }
}

/// Returns a text that is being typed on one line behind a label, with the place in it.
pub fn input_line(label: &str, buffer: &str, place: usize, style: Style) -> (r: Line)
    ensures
        r.deep_view() == labelled_input(label@, buffer@, place as int, style),
{
    let chars = chars_of(buffer);
    let mut spans: Vec<Span> = Vec::new();
    assert(spans.deep_view() =~= seq![]);
    push_span(&mut spans, Span::raw(label));
    assert(chars@.subrange(0, chars.len() as int) =~= buffer@);
    push_row(&mut spans, &chars, 0, chars.len(), place, style);
    assert(spans.deep_view() =~= labelled_input(label@, buffer@, place as int, style).spans);
    Line::from_spans(spans)
}

} // verus!
