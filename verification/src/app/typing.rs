//! Texts that are being typed: a text and the place in it where the next character goes.
use crate::app::types::{KeyCode, KeyEvent};
use crate::text::{chars_of, text_of};
use vstd::prelude::*;

verus! {

/// Where the line that a place stands on starts.
pub open spec fn line_start(s: Seq<char>, place: int) -> int
    decreases place,
{
    if place <= 0 {
        0
    } else if s[place - 1] == '\n' {
        place
    } else {
        line_start(s, place - 1)
    }
}

/// Where the line that a place stands on ends: before its newline, or at the end of the text.
pub open spec fn line_end(s: Seq<char>, place: int) -> int
    decreases s.len() - place,
{
    if place >= s.len() {
        s.len() as int
    } else if s[place] == '\n' {
        place
    } else {
        line_end(s, place + 1)
    }
}

/// The place `column` characters into the line that starts at `start`, or the end of that line
/// where it is shorter.
pub open spec fn in_line(s: Seq<char>, start: int, column: int) -> int {
    if start + column <= line_end(s, start) {
        start + column
    } else {
        line_end(s, start)
    }
}

/// The place in the line above, as far into it; on the first line the place itself.
pub open spec fn above(s: Seq<char>, place: int) -> int {
    let start = line_start(s, place);
    if start == 0 {
        place
    } else {
        in_line(s, line_start(s, start - 1), place - start)
    }
}

/// The place in the line below, as far into it; on the last line the place itself.
pub open spec fn below(s: Seq<char>, place: int) -> int {
    let end = line_end(s, place);
    if end == s.len() {
        place
    } else {
        in_line(s, end + 1, place - line_start(s, place))
    }
}

/// A place in a text, after a key that moves it.
pub open spec fn stepped(s: Seq<char>, place: int, code: KeyCode) -> int {
    match code {
        KeyCode::Left => if place > 0 {
            place - 1
        } else {
            0
        },
        KeyCode::Right => if place < s.len() {
            place + 1
        } else {
            place
        },
        KeyCode::Up => above(s, place),
        KeyCode::Down => below(s, place),
        KeyCode::Home => line_start(s, place),
        KeyCode::End => line_end(s, place),
        _ => place,
    }
}

/// A text and a place in it, with a character put in at the place.
pub open spec fn put(s: Seq<char>, place: usize, c: char) -> (Seq<char>, usize) {
    (s.insert(place as int, c), (place + 1) as usize)
}

/// A text that is being typed and the place in it, after a key.
pub open spec fn typed(s: Seq<char>, place: usize, key: KeyEvent) -> (Seq<char>, usize) {
    match key.code {
        KeyCode::Backspace => if place > 0 {
            (s.remove(place - 1), (place - 1) as usize)
        } else {
            (s, place)
        },
        KeyCode::Char(c) => if key.modifiers.typing() {
            put(s, place, c)
        } else {
            (s, place)
        },
        _ => (s, stepped(s, place as int, key.code) as usize),
    }
}

/// A line starts at or before every place on it and ends at or behind it; what parts it from
/// other lines is a newline.
pub proof fn lines_hold_places(s: Seq<char>, place: int)
    requires
        0 <= place <= s.len(),
    ensures
        0 <= line_start(s, place) <= place <= line_end(s, place) <= s.len(),
        line_start(s, place) > 0 ==> s[line_start(s, place) - 1] == '\n',
        line_end(s, place) < s.len() ==> s[line_end(s, place)] == '\n',
{
    lemma_line_start(s, place);
    lemma_line_end(s, place);
}

proof fn lemma_line_start(s: Seq<char>, place: int)
    requires
        0 <= place <= s.len(),
    ensures
        0 <= line_start(s, place) <= place,
        line_start(s, place) == 0 || s[line_start(s, place) - 1] == '\n',
    decreases place,
{
    if place > 0 && s[place - 1] != '\n' {
        lemma_line_start(s, place - 1);
    }
}

proof fn lemma_line_end(s: Seq<char>, place: int)
    requires
        0 <= place <= s.len(),
    ensures
        place <= line_end(s, place) <= s.len(),
        line_end(s, place) == s.len() || s[line_end(s, place)] == '\n',
    decreases s.len() - place,
{
    if place < s.len() && s[place] != '\n' {
        lemma_line_end(s, place + 1);
    }
}

/// A key that moves the place keeps it in the text.
pub proof fn steps_stay_in_text(s: Seq<char>, place: int, code: KeyCode)
    requires
        0 <= place <= s.len(),
    ensures
        0 <= stepped(s, place, code) <= s.len(),
{
    lines_hold_places(s, place);
    let start = line_start(s, place);
    let end = line_end(s, place);
    if start > 0 {
        lines_hold_places(s, start - 1);
        lines_hold_places(s, line_start(s, start - 1));
    }
    if end < s.len() {
        lines_hold_places(s, end + 1);
    }
}

/// Whatever key is pressed, the place stays in the text.
pub proof fn typing_stays_in_text(s: Seq<char>, place: usize, key: KeyEvent)
    requires
        place <= s.len(),
    ensures
        typed(s, place, key).1 <= typed(s, place, key).0.len(),
{
    steps_stay_in_text(s, place as int, key.code);
}

/// A character that was put in is taken back by Backspace.
pub proof fn backspace_takes_back(s: Seq<char>, place: usize, c: char, backspace: KeyEvent)
    requires
        place <= s.len() < usize::MAX,
        backspace.code == KeyCode::Backspace,
    ensures
        ({
            let (after, at) = put(s, place, c);
            typed(after, at, backspace) == (s, place)
        }),
{
    assert(s.insert(place as int, c).remove(place as int) =~= s);
}

/// A line is the one that no newline parts from the place.
proof fn lemma_start_is_nearest(s: Seq<char>, start: int, place: int)
    requires
        0 <= start <= place <= s.len(),
        start == 0 || s[start - 1] == '\n',
        forall|k: int| start <= k < place ==> #[trigger] s[k] != '\n',
    ensures
        line_start(s, place) == start,
    decreases place,
{
    if place > start {
        assert(s[place - 1] != '\n');
        lemma_start_is_nearest(s, start, place - 1);
    }
}

proof fn lemma_end_is_nearest(s: Seq<char>, place: int, end: int)
    requires
        0 <= place <= end <= s.len(),
        end == s.len() || s[end] == '\n',
        forall|k: int| place <= k < end ==> #[trigger] s[k] != '\n',
    ensures
        line_end(s, place) == end,
    decreases s.len() - place,
{
    if place < end {
        assert(s[place] != '\n');
        lemma_end_is_nearest(s, place + 1, end);
    }
}

proof fn lemma_no_newline_before(s: Seq<char>, place: int)
    requires
        0 <= place <= s.len(),
    ensures
        forall|k: int| line_start(s, place) <= k < place ==> #[trigger] s[k] != '\n',
    decreases place,
{
    if place > 0 && s[place - 1] != '\n' {
        lemma_no_newline_before(s, place - 1);
    }
}

proof fn lemma_no_newline_behind(s: Seq<char>, place: int)
    requires
        0 <= place <= s.len(),
    ensures
        forall|k: int| place <= k < line_end(s, place) ==> #[trigger] s[k] != '\n',
    decreases s.len() - place,
{
    if place < s.len() && s[place] != '\n' {
        lemma_no_newline_behind(s, place + 1);
    }
}

/// A character that is typed stands at the place, what stood before it and behind it staying as
/// it is, and the place moves behind it; together with Ctrl or Alt no character is typed.
pub proof fn characters_stand_where_they_are_typed(
    s: Seq<char>,
    place: usize,
    key: KeyEvent,
    c: char,
)
    requires
        place <= s.len() < usize::MAX,
        key.code == KeyCode::Char(c),
    ensures
        ({
            let (after, at) = typed(s, place, key);
            if key.modifiers.control || key.modifiers.alt {
                after == s && at == place
            } else {
                &&& after.len() == s.len() + 1
                &&& after[place as int] == c
                &&& after.take(place as int) == s.take(place as int)
                &&& after.skip(place + 1) == s.skip(place as int)
                &&& at == place + 1
            }
        }),
{
    let (after, at) = typed(s, place, key);
    if !key.modifiers.control && !key.modifiers.alt {
        assert(after.take(place as int) =~= s.take(place as int));
        assert(after.skip(place + 1) =~= s.skip(place as int));
    }
}

/// Keys that move the place leave the text as it is; Home and End lead to the nearest newline, or
/// to the start and the end of the text, without passing one.
pub proof fn home_and_end_stay_on_the_line(s: Seq<char>, place: usize, home: KeyEvent, end: KeyEvent)
    requires
        place <= s.len() <= usize::MAX,
        home.code == KeyCode::Home,
        end.code == KeyCode::End,
    ensures
        ({
            let (text, at) = typed(s, place, home);
            &&& text == s
            &&& at <= place
            &&& at == 0 || s[at - 1] == '\n'
            &&& forall|k: int| at <= k < place ==> #[trigger] s[k] != '\n'
        }),
        ({
            let (text, at) = typed(s, place, end);
            &&& text == s
            &&& place <= at <= s.len()
            &&& at == s.len() || s[at as int] == '\n'
            &&& forall|k: int| place <= k < at ==> #[trigger] s[k] != '\n'
        }),
{
    lines_hold_places(s, place as int);
    lemma_no_newline_before(s, place as int);
    lemma_no_newline_behind(s, place as int);
}

/// Up and down lead from one of two lines that follow each other to the other, as far into it as
/// the place was, or to its end where it is shorter.
pub proof fn up_and_down_keep_the_column(
    s: Seq<char>,
    first: int,
    middle: int,
    last: int,
    place: usize,
    key: KeyEvent,
)
    requires
        0 <= first <= middle < last <= s.len() <= usize::MAX,
        first == 0 || s[first - 1] == '\n',
        s[middle] == '\n',
        last == s.len() || s[last] == '\n',
        forall|k: int| first <= k < middle ==> #[trigger] s[k] != '\n',
        forall|k: int| middle < k < last ==> #[trigger] s[k] != '\n',
    ensures
        key.code == KeyCode::Up && middle < place <= last ==> {
            let (text, at) = typed(s, place, key);
            &&& text == s
            &&& at == if place - (middle + 1) <= middle - first {
                first + (place - (middle + 1))
            } else {
                middle
            }
        },
        key.code == KeyCode::Down && first <= place <= middle ==> {
            let (text, at) = typed(s, place, key);
            &&& text == s
            &&& at == if place - first <= last - (middle + 1) {
                middle + 1 + (place - first)
            } else {
                last
            }
        },
{
    if key.code == KeyCode::Up && middle < place <= last {
        lemma_start_is_nearest(s, middle + 1, place as int);
        lemma_start_is_nearest(s, first, middle);
        lemma_end_is_nearest(s, first, middle);
    }
    if key.code == KeyCode::Down && first <= place <= middle {
        lemma_start_is_nearest(s, first, place as int);
        lemma_end_is_nearest(s, place as int, middle);
        lemma_end_is_nearest(s, middle + 1, last);
    }
}

/// Left undoes Right.
pub proof fn left_undoes_right(s: Seq<char>, place: int)
    requires
        0 <= place < s.len(),
    ensures
        stepped(s, stepped(s, place, KeyCode::Right), KeyCode::Left) == place,
{
}

fn start_of_line(s: &Vec<char>, place: usize) -> (r: usize)
    requires
        place <= s.len(),
    ensures
        r == line_start(s@, place as int),
{
    let mut at: usize = place;
    while at > 0 && s[at - 1] != '\n'
        invariant
            at <= place <= s.len(),
            line_start(s@, at as int) == line_start(s@, place as int),
        decreases at,
    {
        at = at - 1;
    }
    at
}

/// Returns where the line that a place stands on ends.
pub fn end_of_line(s: &Vec<char>, place: usize) -> (r: usize)
    requires
        place <= s.len(),
    ensures
        r == line_end(s@, place as int),
{
    let mut at: usize = place;
    while at < s.len() && s[at] != '\n'
        invariant
            place <= at <= s.len(),
            line_end(s@, at as int) == line_end(s@, place as int),
        decreases s.len() - at,
    {
        at = at + 1;
    }
    at
}

fn place_in_line(s: &Vec<char>, start: usize, column: usize) -> (r: usize)
    requires
        start <= s.len(),
    ensures
        r == in_line(s@, start as int, column as int),
{
    let end = end_of_line(s, start);
    proof {
        lemma_line_end(s@, start as int);
    }
    if column <= end - start {
        start + column
    } else {
        end
    }
}

fn step(s: &Vec<char>, place: usize, code: KeyCode) -> (r: usize)
    requires
        place <= s.len(),
    ensures
        r == stepped(s@, place as int, code),
{
    proof {
        lines_hold_places(s@, place as int);
    }
    match code {
        KeyCode::Left => if place > 0 {
            place - 1
        } else {
            0
        },
        KeyCode::Right => if place < s.len() {
            place + 1
        } else {
            place
        },
        KeyCode::Up => {
            let start = start_of_line(s, place);
            if start == 0 {
                place
            } else {
                proof {
                    lines_hold_places(s@, start - 1);
                }
                place_in_line(s, start_of_line(s, start - 1), place - start)
            }
        },
        KeyCode::Down => {
            let end = end_of_line(s, place);
            if end == s.len() {
                place
            } else {
                place_in_line(s, end + 1, place - start_of_line(s, place))
            }
        },
        KeyCode::Home => start_of_line(s, place),
        KeyCode::End => end_of_line(s, place),
        _ => place,
    }
}

/// Puts a character into a text that is being typed.
pub fn put_char(buffer: &mut String, place: &mut usize, c: char)
    requires
        *old(place) <= old(buffer)@.len(),
    ensures
        (final(buffer)@, *final(place)) == put(old(buffer)@, *old(place), c),
        *final(place) <= final(buffer)@.len(),
{
    let mut chars = chars_of(buffer.as_str());
    chars.insert(*place, c);
    assert(chars.len() <= usize::MAX);
    *place = *place + 1;
    *buffer = text_of(&chars);
}

/// Changes a text that is being typed.
pub fn type_key(buffer: &mut String, place: &mut usize, key: KeyEvent)
    requires
        *old(place) <= old(buffer)@.len(),
    ensures
        (final(buffer)@, *final(place)) == typed(old(buffer)@, *old(place), key),
        *final(place) <= final(buffer)@.len(),
{
    match key.code {
        KeyCode::Backspace => {
            if *place > 0 {
                let mut chars = chars_of(buffer.as_str());
                let _taken = chars.remove(*place - 1);
                *place = *place - 1;
                *buffer = text_of(&chars);
            }
        },
        KeyCode::Char(c) => {
            if key.modifiers.is_typing() {
                put_char(buffer, place, c);
            }
        },
        _ => {
            let chars = chars_of(buffer.as_str());
            proof {
                steps_stay_in_text(buffer@, *place as int, key.code);
            }
            *place = step(&chars, *place, key.code);
        },
    }
}

} // verus!
