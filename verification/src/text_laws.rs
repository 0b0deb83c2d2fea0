//! What holds of the texts that are taken apart and put together.
use crate::text;
use vstd::prelude::*;

verus! {

/// The usual separators are white space, and what can be seen on a page of ASCII is not.
pub proof fn visible_characters_are_no_space(c: char)
    ensures
        c == ' ' || c == '\t' || c == '\n' || c == '\r' || c as u32 == 0x3000 ==> text::white_space(
            c,
        ),
        '!' <= c <= '~' ==> !text::white_space(c),
        0x3041 <= c as u32 <= 0xd7ff ==> !text::white_space(c),
{
}

/// Whether a text holds nothing but white space, character by character.
pub open spec fn all_space(s: Seq<char>) -> bool {
    forall|i: int| 0 <= i < s.len() ==> text::white_space(#[trigger] s[i])
}

proof fn lemma_trimmed_start(s: Seq<char>)
    ensures
        ({
            let t = text::trimmed_start(s);
            &&& t.len() <= s.len()
            &&& s == s.take(s.len() - t.len()) + t
            &&& all_space(s.take(s.len() - t.len()))
            &&& t.len() > 0 ==> !text::white_space(t[0])
        }),
    decreases s.len(),
{
    let t = text::trimmed_start(s);
    if s.len() > 0 && text::white_space(s[0]) {
        let rest = s.skip(1);
        lemma_trimmed_start(rest);
        let cut = s.take(s.len() - t.len());
        assert(cut =~= seq![s[0]] + rest.take(rest.len() - t.len()));
        assert forall|i: int| 0 <= i < s.len() implies s[i] == (cut + t)[i] by {
            if i >= cut.len() {
                let k = rest.len() - t.len();
                assert(rest == rest.take(k) + t);
                assert(rest[i - 1] == (rest.take(k) + t)[i - 1]);
            }
        }
        assert(s =~= cut + t);
        assert forall|i: int| 0 <= i < cut.len() implies text::white_space(#[trigger] cut[i]) by {
            if i > 0 {
                assert(cut[i] == rest.take(rest.len() - t.len())[i - 1]);
            }
        }
    } else {
        assert(s =~= s.take(0) + s);
    }
}

proof fn lemma_trimmed_end(s: Seq<char>)
    ensures
        ({
            let t = text::trimmed_end(s);
            &&& t.len() <= s.len()
            &&& s == t + s.skip(t.len() as int)
            &&& all_space(s.skip(t.len() as int))
            &&& t.len() > 0 ==> !text::white_space(t.last())
        }),
    decreases s.len(),
{
    let t = text::trimmed_end(s);
    if s.len() > 0 && text::white_space(s.last()) {
        let front = s.drop_last();
        lemma_trimmed_end(front);
        let cut = s.skip(t.len() as int);
        assert(cut =~= front.skip(t.len() as int).push(s.last()));
        assert forall|i: int| 0 <= i < s.len() implies s[i] == (t + cut)[i] by {
            if i < t.len() {
                assert(front == t + front.skip(t.len() as int));
                assert(front[i] == (t + front.skip(t.len() as int))[i]);
            }
        }
        assert(s =~= t + cut);
        assert forall|i: int| 0 <= i < cut.len() implies text::white_space(#[trigger] cut[i]) by {
            if i < cut.len() - 1 {
                assert(cut[i] == front.skip(t.len() as int)[i]);
            }
        }
    } else {
        assert(s =~= t + s.skip(t.len() as int));
    }
}

/// Trimming takes off white space at the two ends and nothing else: what is left neither begins
/// nor ends with any.
pub proof fn trimming_takes_off_space(s: Seq<char>)
    ensures
        ({
            let t = text::trimmed(s);
            &&& exists|a: int|
                0 <= a <= a + t.len() <= s.len() && #[trigger] s.subrange(a, a + t.len()) == t
                    && all_space(s.take(a)) && all_space(s.skip(a + t.len()))
            &&& t.len() > 0 ==> !text::white_space(t[0]) && !text::white_space(t.last())
        }),
        ({
            let t = text::trimmed_end(s);
            &&& t.len() <= s.len()
            &&& s.take(t.len() as int) == t
            &&& all_space(s.skip(t.len() as int))
            &&& t.len() > 0 ==> !text::white_space(t.last())
        }),
{
    let m = text::trimmed_start(s);
    let t = text::trimmed(s);
    lemma_trimmed_start(s);
    lemma_trimmed_end(m);
    let a = s.len() - m.len();
    assert(s.subrange(a, a + t.len()) =~= t) by {
        assert forall|i: int| 0 <= i < t.len() implies s.subrange(a, a + t.len())[i] == t[i] by {
            assert(m[i] == t[i]);
            assert(s[a + i] == m[i]);
        }
    }
    assert(s.skip(a + t.len()) =~= m.skip(t.len() as int));
    if t.len() > 0 {
        assert(t[0] == m[0]);
    }
    lemma_trimmed_end(s);
    assert(s.take(text::trimmed_end(s).len() as int) =~= text::trimmed_end(s));
}

/// A text is blank exactly where each of its characters is white space.
pub proof fn blank_texts_are_space(s: Seq<char>)
    ensures
        text::blank(s) <==> all_space(s),
{
    let m = text::trimmed_start(s);
    let t = text::trimmed(s);
    lemma_trimmed_start(s);
    lemma_trimmed_end(m);
    if all_space(s) {
        if t.len() > 0 {
            assert(t[0] == m[0]);
            assert(s[s.len() - m.len()] == m[0]);
        }
    }
    if t.len() == 0 {
        assert forall|i: int| 0 <= i < s.len() implies text::white_space(#[trigger] s[i]) by {
            let a = s.len() - m.len();
            if i < a {
                assert(s.take(a)[i] == s[i]);
            } else {
                assert(m.skip(0)[i - a] == m[i - a]);
                assert(s[i] == m[i - a]);
            }
        }
    }
}

/// Some lines one after the other, each with its end.
pub open spec fn ended(lines: Seq<Seq<char>>, end: Seq<char>) -> Seq<char>
    decreases lines.len(),
{
    if lines.len() == 0 {
        seq![]
    } else {
        ended(lines.drop_last(), end) + lines.last() + end
    }
}

/// Whether a text can stand on one line: it holds no newline, and no carriage return at its end.
pub open spec fn on_one_line(line: Seq<char>) -> bool {
    !line.contains('\n') && (line.len() > 0 ==> line.last() != '\r')
}

proof fn lemma_scan_more(s: Seq<char>, more: Seq<char>)
    requires
        !more.contains('\n'),
    ensures
        text::line_scan(s + more) == (text::line_scan(s).0, text::line_scan(s).1 + more),
    decreases more.len(),
{
    if more.len() == 0 {
        assert(s + more =~= s);
        assert(text::line_scan(s).1 + more =~= text::line_scan(s).1);
    } else {
        let front = more.drop_last();
        assert(!front.contains('\n')) by {
            if front.contains('\n') {
                let i = choose|i: int| 0 <= i < front.len() && front[i] == '\n';
                assert(more[i] == '\n');
            }
        }
        lemma_scan_more(s, front);
        assert((s + more).drop_last() =~= s + front);
        assert((s + more).last() == more.last());
        assert(more[more.len() - 1] != '\n');
        assert((text::line_scan(s).1 + front).push(more.last()) =~= text::line_scan(s).1 + more);
    }
}

proof fn lemma_scan_ended(lines: Seq<Seq<char>>, end: Seq<char>)
    requires
        end == "\n"@ || end == "\r\n"@,
        forall|i: int| 0 <= i < lines.len() ==> on_one_line(#[trigger] lines[i]),
    ensures
        text::line_scan(ended(lines, end)) == (lines, Seq::<char>::empty()),
    decreases lines.len(),
{
    if lines.len() == 0 {
        assert(lines =~= seq![]);
    } else {
        reveal_strlit("\n");
        reveal_strlit("\r\n");
        let front = lines.drop_last();
        let line = lines.last();
        assert forall|i: int| 0 <= i < front.len() implies on_one_line(#[trigger] front[i]) by {
            assert(on_one_line(lines[i]));
        }
        lemma_scan_ended(front, end);
        assert(on_one_line(lines[lines.len() - 1]));
        let body = line + end.drop_last();
        assert(!body.contains('\n')) by {
            if body.contains('\n') {
                let i = choose|i: int| 0 <= i < body.len() && body[i] == '\n';
                if i < line.len() {
                    assert(line[i] == '\n');
                }
            }
        }
        lemma_scan_more(ended(front, end), body);
        let all = ended(lines, end);
        assert(all.drop_last() =~= ended(front, end) + body);
        assert(all.last() == '\n');
        assert(Seq::<char>::empty() + body =~= body);
        if end == "\r\n"@ {
            assert(body.drop_last() =~= line);
        } else {
            assert(body =~= line);
        }
        assert(front.push(line) =~= lines);
    }
}

/// Lines that are written one after the other, each with its end, are read back, empty ones too;
/// and what stands behind the last end is a line of its own.
pub proof fn lines_are_read_back(lines: Seq<Seq<char>>, end: Seq<char>, last: Seq<char>)
    requires
        end == "\n"@ || end == "\r\n"@,
        forall|i: int| 0 <= i < lines.len() ==> on_one_line(#[trigger] lines[i]),
        !last.contains('\n'),
        last.len() > 0,
    ensures
        text::lines(ended(lines, end)) == lines,
        text::lines(ended(lines, end) + last) == lines.push(last),
        text::lines(last) == seq![last],
{
    lemma_scan_ended(lines, end);
    lemma_scan_more(ended(lines, end), last);
    assert(Seq::<char>::empty() + last =~= last);
    lemma_scan_more(Seq::<char>::empty(), last);
    assert(Seq::<Seq<char>>::empty().push(last) =~= seq![last]);
}

/// Parts that are joined can be joined in two pieces, with the separator between them.
pub proof fn joining_goes_piece_by_piece(
    a: Seq<Seq<char>>,
    b: Seq<Seq<char>>,
    sep: Seq<char>,
    part: Seq<char>,
)
    requires
        a.len() > 0,
        b.len() > 0,
    ensures
        text::joined(a + b, sep) == text::joined(a, sep) + sep + text::joined(b, sep),
        text::joined(seq![part], sep) == part,
        text::joined(Seq::<Seq<char>>::empty(), sep).len() == 0,
    decreases b.len(),
{
    let ab = a + b;
    if b.len() == 1 {
        assert(ab.drop_last() =~= a);
        assert(text::joined(ab, sep) =~= text::joined(a, sep) + sep + b[0]);
    } else {
        joining_goes_piece_by_piece(a, b.drop_last(), sep, part);
        assert(ab.drop_last() =~= a + b.drop_last());
        assert(text::joined(ab, sep) =~= text::joined(a, sep) + sep + text::joined(b, sep));
    }
}

/// Numbers are written digit by digit, the highest first.
pub proof fn numbers_are_written_in_digits(m: nat, d: nat)
    requires
        d < 10,
    ensures
        text::decimal(d) == seq![(d + '0' as nat) as char],
        m > 0 ==> text::decimal(m * 10 + d) == text::decimal(m).push((d + '0' as nat) as char),
        text::signed_decimal(m as int) == text::decimal(m),
        m > 0 ==> text::signed_decimal(-(m as int)) == seq!['-'] + text::decimal(m),
{
    reveal_strlit("-");
    if m > 0 {
        let n = m * 10 + d;
        assert(n / 10 == m && n % 10 == d) by (nonlinear_arith)
            requires
                n == m * 10 + d,
                d < 10,
        ;
    }
    assert("-"@ =~= seq!['-']);
}

/// Numbers that are filled up have three digits or more, of which zeros in front do not count.
pub proof fn filled_numbers_have_three_digits(n: nat)
    ensures
        text::decimal_3(n).len() >= 3,
        n >= 100 ==> text::decimal_3(n) == text::decimal(n),
        exists|zeros: nat|
            text::decimal_3(n) == #[trigger] text::repeated('0', zeros) + text::decimal(n),
        n < 1000 ==> text::decimal_3(n).len() == 3,
{
    reveal_strlit("0");
    reveal_strlit("00");
    reveal_with_fuel(text::decimal, 4);
    if n < 10 {
        assert(text::decimal_3(n) =~= text::repeated('0', 2) + text::decimal(n));
    } else if n < 100 {
        assert(n / 10 < 10);
        assert(text::decimal_3(n) =~= text::repeated('0', 1) + text::decimal(n));
    } else {
        assert(text::decimal_3(n) =~= text::repeated('0', 0) + text::decimal(n));
        assert(n / 10 >= 10);
        lemma_longer(n);
        if n < 1000 {
            assert(n / 10 < 100);
            assert(n / 10 / 10 < 10);
        }
    }
}

proof fn lemma_longer(n: nat)
    requires
        n >= 100,
    ensures
        text::decimal(n).len() >= 3,
    decreases n,
{
    reveal_with_fuel(text::decimal, 3);
    if n >= 1000 {
        lemma_longer(n / 10);
    }
}

/// A text with a separator in it is parted at the first one, which belongs to neither part.
pub proof fn texts_are_parted_at_the_first(s: Seq<char>, c: char)
    ensures
        match text::split_at(s, c) {
            Some((a, b)) => s == a + seq![c] + b && !a.contains(c),
            None => !s.contains(c),
        },
{
    text::lemma_position(s, c);
    if let Some((a, b)) = text::split_at(s, c) {
        assert(s =~= a + seq![c] + b);
    }
}

/// Texts stand in the order of their first difference; a text stands before all that begin with
/// it.
pub proof fn texts_stand_by_their_first_difference(
    front: Seq<char>,
    x: char,
    a: Seq<char>,
    y: char,
    b: Seq<char>,
)
    requires
        x < y,
    ensures
        text::text_le(front + seq![x] + a, front + seq![y] + b),
        !text::text_le(front + seq![y] + b, front + seq![x] + a),
        text::text_le(front, front + a),
        a.len() > 0 ==> !text::text_le(front + a, front),
    decreases front.len(),
{
    let s = front + seq![x] + a;
    let t = front + seq![y] + b;
    if front.len() > 0 {
        let rest = front.skip(1);
        texts_stand_by_their_first_difference(rest, x, a, y, b);
        assert(s.skip(1) =~= rest + seq![x] + a);
        assert(t.skip(1) =~= rest + seq![y] + b);
        assert((front + a).skip(1) =~= rest + a);
    } else {
        assert(s[0] == x && t[0] == y);
    }
}

/// The first characters of a text are a front of it, as long as was asked for or all of it.
pub proof fn first_chars_are_a_front(s: Seq<char>, n: int)
    requires
        n >= 0,
    ensures
        text::first_chars(s, n).is_prefix_of(s),
        text::first_chars(s, n).len() == (if n < s.len() {
            n
        } else {
            s.len() as int
        }),
{
    assert(s.take(text::first_chars(s, n).len() as int) =~= text::first_chars(s, n));
}

/// Making letters small changes the capitals of ASCII and nothing else.
pub proof fn only_capitals_are_made_small(s: Seq<char>, i: int)
    requires
        0 <= i < s.len(),
    ensures
        text::ascii_lowered(s).len() == s.len(),
        'A' <= s[i] <= 'Z' ==> text::ascii_lowered(s)[i] as u32 == s[i] as u32 + 'a' as u32
            - 'A' as u32,
        !('A' <= s[i] <= 'Z') ==> text::ascii_lowered(s)[i] == s[i],
{
}

/// In a text without braces no placeholder is replaced.
pub proof fn texts_without_braces_stay(s: Seq<char>, pat: Seq<char>, with: Seq<char>)
    requires
        !s.contains('{'),
        pat.len() > 0,
        pat[0] == '{',
    ensures
        text::replaced(s, pat, with) == s,
    decreases s.len(),
{
    if s.len() >= pat.len() {
        if pat.is_prefix_of(s) {
            assert(s[0] == pat[0]);
            assert(s.contains('{'));
        }
        let rest = s.skip(1);
        assert(!rest.contains('{')) by {
            if rest.contains('{') {
                let i = choose|i: int| 0 <= i < rest.len() && rest[i] == '{';
                assert(s[i + 1] == '{');
            }
        }
        texts_without_braces_stay(rest, pat, with);
        assert(seq![s[0]] + rest =~= s);
    }
}

/// A placeholder between texts without braces is replaced, and nothing else.
pub proof fn one_placeholder_is_replaced(a: Seq<char>, pat: Seq<char>, b: Seq<char>, with: Seq<char>)
    requires
        !a.contains('{'),
        !b.contains('{'),
        pat.len() > 0,
        pat[0] == '{',
    ensures
        text::replaced(a + pat + b, pat, with) == a + with + b,
    decreases a.len(),
{
    let s = a + pat + b;
    if a.len() == 0 {
        assert(s.take(pat.len() as int) =~= pat);
        assert(s.skip(pat.len() as int) =~= b);
        texts_without_braces_stay(b, pat, with);
        assert(with + b =~= a + with + b);
    } else {
        if pat.is_prefix_of(s) {
            assert(s[0] == pat[0]);
            assert(a[0] == '{');
        }
        let rest = a.skip(1);
        assert(!rest.contains('{')) by {
            if rest.contains('{') {
                let i = choose|i: int| 0 <= i < rest.len() && rest[i] == '{';
                assert(a[i + 1] == '{');
            }
        }
        one_placeholder_is_replaced(rest, pat, b, with);
        assert(s.skip(1) =~= rest + pat + b);
        assert(seq![s[0]] + (rest + with + b) =~= a + with + b);
    }
}

/// A text in whose rest nothing is replaced, and which does not begin with what is looked for.
proof fn lemma_not_here(s: Seq<char>, pat: Seq<char>, with: Seq<char>)
    requires
        s.len() > 0,
        pat.len() > 0,
        !pat.is_prefix_of(s),
        text::replaced(s.skip(1), pat, with) == s.skip(1),
    ensures
        text::replaced(s, pat, with) == s,
{
    assert(seq![s[0]] + s.skip(1) =~= s);
}

/// Whether two placeholders differ.
pub open spec fn differ(a: Seq<char>, b: Seq<char>) -> bool {
    &&& a.len() > 7 && b.len() > 7
    &&& a[0] == '{' && a[1] == '{' && b[0] == '{' && b[1] == '{'
    &&& !a.skip(2).contains('{')
    &&& a[2] != b[2] || a[6] != b[6]
}

proof fn lemma_other_at_front(
    pat: Seq<char>,
    b: Seq<char>,
    other: Seq<char>,
    with: Seq<char>,
)
    requires
        !b.contains('{'),
        differ(pat, other),
    ensures
        text::replaced(pat + b, other, with) == pat + b,
{
    let s = pat + b;
    let r1 = s.skip(1);
    let r2 = r1.skip(1);
    assert(r2 =~= pat.skip(2) + b);
    assert(!r2.contains('{')) by {
        if r2.contains('{') {
            let i = choose|i: int| 0 <= i < r2.len() && r2[i] == '{';
            if i < pat.skip(2).len() {
                assert(pat.skip(2)[i] == '{');
            } else {
                assert(b[i - pat.skip(2).len()] == '{');
            }
        }
    }
    texts_without_braces_stay(r2, other, with);
    assert(!other.is_prefix_of(r1)) by {
        if other.is_prefix_of(r1) {
            assert(r1.take(other.len() as int)[1] == other[1]);
            assert(r2[0] == '{');
        }
    }
    lemma_not_here(r1, other, with);
    assert(!other.is_prefix_of(s)) by {
        if other.is_prefix_of(s) {
            assert(s.take(other.len() as int)[2] == other[2]);
            assert(s.take(other.len() as int)[6] == other[6]);
        }
    }
    lemma_not_here(s, other, with);
}

/// Another placeholder than the one that stands in a text is not found in it.
pub proof fn other_placeholders_stay(
    a: Seq<char>,
    pat: Seq<char>,
    b: Seq<char>,
    other: Seq<char>,
    with: Seq<char>,
)
    requires
        !a.contains('{'),
        !b.contains('{'),
        differ(pat, other),
    ensures
        text::replaced(a + pat + b, other, with) == a + pat + b,
    decreases a.len(),
{
    let s = a + pat + b;
    if a.len() == 0 {
        lemma_other_at_front(pat, b, other, with);
        assert(s =~= pat + b);
    } else {
        let rest = a.skip(1);
        assert(!rest.contains('{')) by {
            if rest.contains('{') {
                let i = choose|i: int| 0 <= i < rest.len() && rest[i] == '{';
                assert(a[i + 1] == '{');
            }
        }
        other_placeholders_stay(rest, pat, b, other, with);
        assert(s.skip(1) =~= rest + pat + b);
        assert(!other.is_prefix_of(s)) by {
            if other.is_prefix_of(s) {
                assert(s.take(other.len() as int)[0] == other[0]);
                assert(a[0] == '{');
            }
        }
        lemma_not_here(s, other, with);
    }
}

/// Texts without braces one after the other are a text without braces.
pub proof fn joined_without_braces(a: Seq<char>, v: Seq<char>, b: Seq<char>)
    requires
        !a.contains('{'),
        !v.contains('{'),
        !b.contains('{'),
    ensures
        !(a + v + b).contains('{'),
{
    let s = a + v + b;
    if s.contains('{') {
        let i = choose|i: int| 0 <= i < s.len() && s[i] == '{';
        if i < a.len() {
            assert(a[i] == '{');
        } else if i < a.len() + v.len() {
            assert(v[i - a.len()] == '{');
        } else {
            assert(b[i - a.len() - v.len()] == '{');
        }
    }
}

} // verus!
