//! Operations on text, stated over sequences of characters.

use vstd::prelude::*;
use vstd::utf8::is_ascii_chars;

verus! {

/// Whether `c` is white space as Unicode defines it (`White_Space`).
pub open spec fn is_white_space(c: char) -> bool {
    ||| '\u{9}' <= c <= '\u{d}'
    ||| c == ' '
    ||| c == '\u{85}'
    ||| c == '\u{a0}'
    ||| c == '\u{1680}'
    ||| '\u{2000}' <= c <= '\u{200a}'
    ||| c == '\u{2028}'
    ||| c == '\u{2029}'
    ||| c == '\u{202f}'
    ||| c == '\u{205f}'
    ||| c == '\u{3000}'
}

/// `s` without the white space it starts with.
pub open spec fn trim_start(s: Seq<char>) -> Seq<char>
    decreases s.len(),
{
    if s.len() > 0 && is_white_space(s[0]) {
        trim_start(s.drop_first())
    } else {
        s
    }
}

/// `s` without the white space it ends with.
pub open spec fn trim_end(s: Seq<char>) -> Seq<char>
    decreases s.len(),
{
    if s.len() > 0 && is_white_space(s.last()) {
        trim_end(s.drop_last())
    } else {
        s
    }
}

/// `s` without the white space around it.
pub open spec fn trimmed(s: Seq<char>) -> Seq<char> {
    trim_end(trim_start(s))
}

/// Whether every character of `s` is white space.
pub open spec fn blank(s: Seq<char>) -> bool {
    forall|i: int| 0 <= i < s.len() ==> is_white_space(#[trigger] s[i])
}

/// The lower-case form of an ASCII capital letter; any other character unchanged.
pub open spec fn lower_char(c: char) -> char {
    if 'A' <= c <= 'Z' {
        ((c as u8) + 32) as char
    } else {
        c
    }
}

/// `s` with each ASCII capital letter replaced by its lower-case form.
pub open spec fn ascii_lowered(s: Seq<char>) -> Seq<char> {
    s.map_values(|c: char| lower_char(c))
}

/// The capital form of a small ASCII letter; any other character unchanged.
pub open spec fn upper_char(c: char) -> char {
    if 'a' <= c <= 'z' {
        ((c as u8) - 32) as char
    } else {
        c
    }
}

/// `s` with each small ASCII letter replaced by its capital form.
pub open spec fn ascii_uppered(s: Seq<char>) -> Seq<char> {
    s.map_values(|c: char| upper_char(c))
}

/// What `str::to_lowercase` returns for the text `s`.
pub uninterp spec fn lowercase_of(s: Seq<char>) -> Seq<char>;

/// The lower-case form of `s`: computed letter by letter where `s` is ASCII,
/// and otherwise what the standard library's Unicode conversion gives.
pub open spec fn lowered(s: Seq<char>) -> Seq<char> {
    if is_ascii_chars(s) {
        ascii_lowered(s)
    } else {
        lowercase_of(s)
    }
}

/// The form in which a code is compared: trimmed, then lower case.
pub open spec fn normalized(s: Seq<char>) -> Seq<char> {
    lowered(trimmed(s))
}

/// `line` without a carriage return at its end.
pub open spec fn chomp(line: Seq<char>) -> Seq<char> {
    if line.len() > 0 && line.last() == '\r' {
        line.drop_last()
    } else {
        line
    }
}

/// The lines of `pending + rest`, where `pending` is the part of the current
/// line that was already passed and holds no line feed.
pub open spec fn lines_from(pending: Seq<char>, rest: Seq<char>) -> Seq<Seq<char>>
    decreases rest.len(),
{
    if rest.len() == 0 {
        if pending.len() == 0 {
            Seq::empty()
        } else {
            seq![pending]
        }
    } else if rest[0] == '\n' {
        seq![chomp(pending)] + lines_from(Seq::empty(), rest.drop_first())
    } else {
        lines_from(pending.push(rest[0]), rest.drop_first())
    }
}

/// The lines of a text. A line ends at a line feed, or at a carriage return
/// directly followed by one; neither belongs to the line. Text after the last
/// line feed is a line of its own.
pub open spec fn lines_of(text: Seq<char>) -> Seq<Seq<char>> {
    lines_from(Seq::empty(), text)
}

/// The text made of the given lines, a line feed after each.
pub open spec fn unlines(lines: Seq<Seq<char>>) -> Seq<char>
    decreases lines.len(),
{
    if lines.len() == 0 {
        Seq::empty()
    } else {
        lines[0] + seq!['\n'] + unlines(lines.drop_first())
    }
}

/// Whether no line feed of `text` has a carriage return before it.
pub open spec fn unbroken(text: Seq<char>) -> bool {
    forall|i: int| 0 < i < text.len() && #[trigger] text[i] == '\n' ==> text[i - 1] != '\r'
}

/// Whether every line of `text` ends with a line feed that no carriage return
/// precedes.
pub open spec fn plain_lines(text: Seq<char>) -> bool {
    &&& text.len() > 0 ==> text.last() == '\n'
    &&& unbroken(text)
}

/// Whether `value` can be read back from the line in which it stands before
/// a line feed: it holds no carriage return before a line feed and does not
/// end with one.
pub open spec fn plain_value(value: Seq<char>) -> bool {
    &&& value.len() > 0 ==> value.last() != '\r'
    &&& unbroken(value)
}

/// `String::from_iter` over the characters of a vector: the text that holds
/// exactly these characters, in this order.
#[verifier::external_body]
fn text_of(chars: &Vec<char>) -> (r: String)
    ensures
        r@ == chars@,
{
    String::from_iter(chars.iter())
}

/// `str::to_lowercase`: the Unicode lower-case form of `s`. Nothing is claimed
/// of it but that it depends on the characters of `s` alone.
#[verifier::external_body]
fn lowercase(s: &str) -> (r: String)
    ensures
        r@ == lowercase_of(s@),
{
    s.to_lowercase()
}

/// The characters of a text.
pub fn chars_of(s: &str) -> (v: Vec<char>)
    ensures
        v@ == s@,
{
    let mut v: Vec<char> = Vec::new();
    for c in it: s.chars()
        invariant
            it.seq() == s@,
            v@ == s@.take(it.index()),
    {
        v.push(c);
    }
    v
}

/// Tells whether a character is white space.
pub fn white_space(c: char) -> (r: bool)
    ensures
        r == is_white_space(c),
{
    ('\u{9}' <= c && c <= '\u{d}') || c == ' ' || c == '\u{85}' || c == '\u{a0}' || c == '\u{1680}'
        || ('\u{2000}' <= c && c <= '\u{200a}') || c == '\u{2028}' || c == '\u{2029}' || c
        == '\u{202f}' || c == '\u{205f}' || c == '\u{3000}'
}

/// The text without the white space around it.
pub fn trim(s: &str) -> (r: String)
    ensures
        r@ == trimmed(s@),
{
    let v = chars_of(s);
    let n = v.len();
    let mut a: usize = 0;
    while a < n && white_space(v[a])
        invariant
            a <= n,
            n == v.len(),
            forall|i: int| 0 <= i < a ==> is_white_space(#[trigger] v@[i]),
        decreases n - a,
    {
        a = a + 1;
    }
    let mut b: usize = n;
    while b > a && white_space(v[b - 1])
        invariant
            a <= b <= n,
            n == v.len(),
            forall|i: int| b <= i < n ==> is_white_space(#[trigger] v@[i]),
        decreases b,
    {
        b = b - 1;
    }
    let mut kept: Vec<char> = Vec::new();
    let mut i: usize = a;
    while i < b
        invariant
            a <= i <= b <= n,
            n == v.len(),
            kept@ == v@.subrange(a as int, i as int),
        decreases b - i,
    {
        kept.push(v[i]);
        i = i + 1;
    }
    proof {
        let rest = v@.subrange(a as int, n as int);
        lemma_trim_start(v@, a as int);
        assert forall|i: int| b - a <= i < rest.len() implies is_white_space(
            #[trigger] rest[i],
        ) by {
            assert(rest[i] == v@[i + a]);
        }
        lemma_trim_end(rest, b - a);
        assert(rest.subrange(0, b - a) =~= v@.subrange(a as int, b as int));
    }
    text_of(&kept)
}

/// The lower-case form of one character, within ASCII.
pub fn lower_ascii(c: char) -> (r: char)
    ensures
        r == lower_char(c),
{
    if 'A' <= c && c <= 'Z' {
        let b: u8 = c as u8;
        (b + 32) as char
    } else {
        c
    }
}

/// The capital form of one character, within ASCII.
pub fn upper_ascii(c: char) -> (r: char)
    ensures
        r == upper_char(c),
{
    if 'a' <= c && c <= 'z' {
        let b: u8 = c as u8;
        (b - 32) as char
    } else {
        c
    }
}

/// The text with each small ASCII letter as a capital letter. Characters
/// outside ASCII stay as they are.
pub fn capitals(s: &str) -> (r: String)
    ensures
        r@ == ascii_uppered(s@),
{
    let v = chars_of(s);
    let mut out: Vec<char> = Vec::new();
    let mut i: usize = 0;
    while i < v.len()
        invariant
            i <= v.len(),
            out@ == ascii_uppered(v@.take(i as int)),
        decreases v.len() - i,
    {
        out.push(upper_ascii(v[i]));
        proof {
            assert(v@.take(i + 1) =~= v@.take(i as int).push(v@[i as int]));
            assert(out@ =~= ascii_uppered(v@.take(i + 1)));
        }
        i = i + 1;
    }
    proof {
        assert(v@.take(i as int) =~= v@);
    }
    text_of(&out)
}

/// The lower-case form of a text. An ASCII text is converted here, letter by
/// letter; any other is handed to the standard library.
pub fn lower(s: &str) -> (r: String)
    ensures
        r@ == lowered(s@),
{
    if s.is_ascii() {
        let v = chars_of(s);
        let mut out: Vec<char> = Vec::new();
        let mut i: usize = 0;
        while i < v.len()
            invariant
                i <= v.len(),
                out@ == ascii_lowered(v@.take(i as int)),
            decreases v.len() - i,
        {
            out.push(lower_ascii(v[i]));
            proof {
                assert(v@.take(i + 1) =~= v@.take(i as int).push(v@[i as int]));
                assert(out@ =~= ascii_lowered(v@.take(i + 1)));
            }
            i = i + 1;
        }
        proof {
            assert(v@.take(i as int) =~= v@);
        }
        text_of(&out)
    } else {
        lowercase(s)
    }
}

/// The form in which a code is compared: trimmed, then lower case.
pub fn normalize(s: &str) -> (r: String)
    ensures
        r@ == normalized(s@),
{
    let t = trim(s);
    lower(t.as_str())
}

/// The lines of a text, in their order.
pub fn lines(text: &str) -> (r: Vec<String>)
    ensures
        r.deep_view() == lines_of(text@),
{
    let v = chars_of(text);
    let mut out: Vec<String> = Vec::new();
    let mut pending: Vec<char> = Vec::new();
    let mut i: usize = 0;
    proof {
        assert(v@.skip(0) =~= v@);
        assert(out.deep_view() =~= Seq::<Seq<char>>::empty());
        assert(out.deep_view() + lines_of(v@) =~= lines_of(v@));
    }
    while i < v.len()
        invariant
            i <= v.len(),
            out.deep_view() + lines_from(pending@, v@.skip(i as int)) == lines_of(v@),
        decreases v.len() - i,
    {
        let ghost before = out.deep_view();
        let ghost rest = v@.skip(i as int);
        proof {
            assert(rest.drop_first() =~= v@.skip(i + 1));
            assert(rest[0] == v@[i as int]);
        }
        let c = v[i];
        if c == '\n' {
            let k = pending.len();
            if k > 0 && pending[k - 1] == '\r' {
                pending.pop();
            }
            let line = text_of(&pending);
            out.push(line);
            pending = Vec::new();
            proof {
                assert(out.deep_view() =~= before.push(line@));
                let later = lines_from(Seq::empty(), v@.skip(i + 1));
                assert(before.push(line@) + later =~= before + (seq![line@] + later));
            }
        } else {
            pending.push(c);
        }
        i = i + 1;
    }
    if pending.len() > 0 {
        let ghost before = out.deep_view();
        let line = text_of(&pending);
        out.push(line);
        proof {
            assert(out.deep_view() =~= before.push(line@));
            assert(before.push(line@) =~= before + seq![line@]);
        }
    } else {
        proof {
            assert(out.deep_view() + Seq::<Seq<char>>::empty() =~= out.deep_view());
        }
    }
    out
}

/// Within ASCII the case in which a text is written does not show in its
/// lower-case form: its capital form and its lower-case form have the
/// lower-case form of the text itself.
pub proof fn lemma_ascii_case(s: Seq<char>)
    ensures
        ascii_lowered(ascii_uppered(s)) == ascii_lowered(s),
        ascii_lowered(ascii_lowered(s)) == ascii_lowered(s),
        ascii_uppered(ascii_lowered(s)) == ascii_uppered(s),
{
    assert(ascii_lowered(ascii_uppered(s)) =~= ascii_lowered(s));
    assert(ascii_lowered(ascii_lowered(s)) =~= ascii_lowered(s));
    assert(ascii_uppered(ascii_lowered(s)) =~= ascii_uppered(s));
}

/// What is left when the start is trimmed does not start with white space.
pub proof fn lemma_trim_start_first(s: Seq<char>)
    ensures
        trim_start(s).len() > 0 ==> !is_white_space(trim_start(s)[0]),
    decreases s.len(),
{
    if s.len() > 0 && is_white_space(s[0]) {
        lemma_trim_start_first(s.drop_first());
    }
}

/// What is left when the end is trimmed is the start of the text, and it
/// does not end with white space.
pub proof fn lemma_trim_end_last(s: Seq<char>)
    ensures
        trim_end(s).len() <= s.len(),
        trim_end(s) == s.take(trim_end(s).len() as int),
        trim_end(s).len() > 0 ==> !is_white_space(trim_end(s).last()),
    decreases s.len(),
{
    if s.len() > 0 && is_white_space(s.last()) {
        let t = s.drop_last();
        lemma_trim_end_last(t);
        assert(t.take(trim_end(t).len() as int) =~= s.take(trim_end(t).len() as int));
    } else {
        assert(s.take(s.len() as int) =~= s);
    }
}

/// A trimmed text neither starts nor ends with white space.
pub proof fn lemma_trimmed_ends(s: Seq<char>)
    ensures
        trimmed(s).len() > 0 ==> !is_white_space(trimmed(s)[0]) && !is_white_space(
            trimmed(s).last(),
        ),
{
    let u = trim_start(s);
    lemma_trim_start_first(u);
    lemma_trim_start_first(s);
    lemma_trim_end_last(u);
    if trimmed(s).len() > 0 {
        assert(trimmed(s)[0] == u[0]);
    }
}

/// Within ASCII neither letter case nor white space around it changes the
/// form in which a code is compared: the capital form and the lower-case
/// form of the trimmed code are compared as the code itself is.
pub proof fn lemma_normalized_case(code: Seq<char>)
    requires
        is_ascii_chars(trimmed(code)),
    ensures
        normalized(ascii_uppered(trimmed(code))) == normalized(code),
        normalized(ascii_lowered(trimmed(code))) == normalized(code),
        normalized(normalized(code)) == normalized(code),
{
    let t = trimmed(code);
    let up = ascii_uppered(t);
    let low = ascii_lowered(t);
    let none = Seq::<char>::empty();
    lemma_trimmed_ends(code);
    lemma_ascii_case(t);
    assert(is_ascii_chars(up));
    assert(is_ascii_chars(low));
    if t.len() > 0 {
        lemma_trimmed_padded(none, up, none);
        lemma_trimmed_padded(none, low, none);
        assert(none + up + none =~= up);
        assert(none + low + none =~= low);
    } else {
        assert(up =~= none);
        assert(low =~= none);
    }
}

/// Where only white space stands before `a`, and `a` is the end or no white
/// space, trimming the start leaves what begins at `a`.
pub proof fn lemma_trim_start(s: Seq<char>, a: int)
    requires
        0 <= a <= s.len(),
        forall|i: int| 0 <= i < a ==> is_white_space(#[trigger] s[i]),
        a < s.len() ==> !is_white_space(s[a]),
    ensures
        trim_start(s) == s.subrange(a, s.len() as int),
    decreases a,
{
    if a == 0 {
        assert(s.subrange(0, s.len() as int) =~= s);
    } else {
        let t = s.drop_first();
        assert forall|i: int| 0 <= i < a - 1 implies is_white_space(#[trigger] t[i]) by {
            assert(t[i] == s[i + 1]);
        }
        lemma_trim_start(t, a - 1);
        assert(t.subrange(a - 1, t.len() as int) =~= s.subrange(a, s.len() as int));
    }
}

/// Where only white space stands from `b` on, and the character before `b`,
/// if there is one, is no white space, trimming the end leaves what ends at `b`.
pub proof fn lemma_trim_end(s: Seq<char>, b: int)
    requires
        0 <= b <= s.len(),
        forall|i: int| b <= i < s.len() ==> is_white_space(#[trigger] s[i]),
        0 < b ==> !is_white_space(s[b - 1]),
    ensures
        trim_end(s) == s.subrange(0, b),
    decreases s.len() - b,
{
    if b == s.len() {
        assert(s.subrange(0, b) =~= s);
    } else {
        let t = s.drop_last();
        assert forall|i: int| b <= i < t.len() implies is_white_space(#[trigger] t[i]) by {
            assert(t[i] == s[i]);
        }
        lemma_trim_end(t, b);
        assert(t.subrange(0, b) =~= s.subrange(0, b));
    }
}

/// A word that neither starts nor ends with white space is what trimming
/// leaves of it, whatever white space stands around it.
pub proof fn lemma_trimmed_padded(before: Seq<char>, word: Seq<char>, after: Seq<char>)
    requires
        blank(before),
        blank(after),
        word.len() > 0,
        !is_white_space(word[0]),
        !is_white_space(word.last()),
    ensures
        trimmed(before + word + after) == word,
{
    let s = before + word + after;
    let a = before.len() as int;
    let rest = word + after;
    assert forall|i: int| 0 <= i < a implies is_white_space(#[trigger] s[i]) by {
        assert(s[i] == before[i]);
    }
    assert(s[a] == word[0]);
    lemma_trim_start(s, a);
    assert(s.subrange(a, s.len() as int) =~= rest);
    assert forall|i: int| word.len() <= i < rest.len() implies is_white_space(
        #[trigger] rest[i],
    ) by {
        assert(rest[i] == after[i - word.len()]);
    }
    assert(rest[word.len() - 1] == word.last());
    lemma_trim_end(rest, word.len() as int);
    assert(rest.subrange(0, word.len() as int) =~= word);
}

/// Whether `pending + rest` ends with a line feed or is empty, `pending`
/// being the start of a line.
spec fn closed_lines(pending: Seq<char>, rest: Seq<char>) -> bool {
    &&& rest.len() > 0 ==> rest.last() == '\n'
    &&& rest.len() == 0 ==> pending.len() == 0
}

proof fn lemma_unlines_cons(line: Seq<char>, more: Seq<Seq<char>>)
    ensures
        unlines(seq![line] + more) == line + seq!['\n'] + unlines(more),
{
    assert((seq![line] + more).drop_first() =~= more);
}

proof fn lemma_lines_from_concat(pending: Seq<char>, a: Seq<char>, b: Seq<char>)
    requires
        a.len() > 0,
        a.last() == '\n',
    ensures
        lines_from(pending, a + b) == lines_from(pending, a) + lines_of(b),
    decreases a.len(),
{
    let rest = a.drop_first();
    assert((a + b).drop_first() =~= rest + b);
    assert((a + b)[0] == a[0]);
    let next = if a[0] == '\n' {
        Seq::empty()
    } else {
        pending.push(a[0])
    };
    if rest.len() == 0 {
        assert(rest + b =~= b);
        assert(a[0] == '\n');
        assert(lines_from(next, rest) =~= Seq::<Seq<char>>::empty());
        assert(seq![chomp(pending)] + lines_of(b) =~= seq![chomp(pending)] + Seq::<
            Seq<char>,
        >::empty() + lines_of(b));
    } else {
        assert(rest.last() == a.last());
        lemma_lines_from_concat(next, rest, b);
        if a[0] == '\n' {
            assert(seq![chomp(pending)] + (lines_from(next, rest) + lines_of(b)) =~= seq![
                chomp(pending),
            ] + lines_from(next, rest) + lines_of(b));
        }
    }
}

/// The lines of two texts, one behind the other, are the lines of the first
/// and then those of the second, where the first is empty or ends with a
/// line feed.
pub proof fn lemma_lines_concat(a: Seq<char>, b: Seq<char>)
    requires
        a.len() > 0 ==> a.last() == '\n',
    ensures
        lines_of(a + b) == lines_of(a) + lines_of(b),
{
    if a.len() == 0 {
        assert(a + b =~= b);
        assert(lines_of(a) + lines_of(b) =~= lines_of(b));
    } else {
        lemma_lines_from_concat(Seq::empty(), a, b);
    }
}

proof fn lemma_unlines_from(pending: Seq<char>, rest: Seq<char>)
    requires
        closed_lines(pending, rest),
        unbroken(pending + rest),
    ensures
        unlines(lines_from(pending, rest)) == pending + rest,
    decreases rest.len(),
{
    let all = pending + rest;
    if rest.len() == 0 {
        assert(all =~= Seq::<char>::empty());
    } else {
        let more = rest.drop_first();
        assert(all[pending.len() as int] == rest[0]);
        if rest[0] == '\n' {
            assert(chomp(pending) == pending) by {
                if pending.len() > 0 {
                    assert(all[pending.len() - 1] == pending.last());
                }
            }
            assert(unbroken(Seq::<char>::empty() + more)) by {
                assert(all =~= pending.push('\n') + more);
                lemma_unbroken_concat(pending.push('\n'), more);
                assert(Seq::<char>::empty() + more =~= more);
            }
            if more.len() > 0 {
                assert(more.last() == rest.last());
            }
            lemma_unlines_from(Seq::empty(), more);
            lemma_unlines_cons(pending, lines_from(Seq::empty(), more));
            assert(pending + seq!['\n'] + (Seq::<char>::empty() + more) =~= all);
        } else {
            let longer = pending.push(rest[0]);
            assert(longer + more =~= all);
            assert(more.len() > 0);
            assert(more.last() == rest.last());
            lemma_unlines_from(longer, more);
        }
    }
}

proof fn lemma_unlines_ends(lines: Seq<Seq<char>>)
    ensures
        unlines(lines).len() > 0 ==> unlines(lines).last() == '\n',
        lines.len() > 0 ==> unlines(lines).len() > 0,
    decreases lines.len(),
{
    if lines.len() > 0 {
        lemma_unlines_ends(lines.drop_first());
    }
}

proof fn lemma_unlines_len(pending: Seq<char>, rest: Seq<char>)
    requires
        closed_lines(pending, rest),
    ensures
        unlines(lines_from(pending, rest)).len() <= pending.len() + rest.len(),
    decreases rest.len(),
{
    if rest.len() > 0 {
        let more = rest.drop_first();
        if more.len() > 0 {
            assert(more.last() == rest.last());
        }
        if rest[0] == '\n' {
            lemma_unlines_len(Seq::empty(), more);
            lemma_unlines_cons(chomp(pending), lines_from(Seq::empty(), more));
        } else {
            lemma_unlines_len(pending.push(rest[0]), more);
        }
    }
}

proof fn lemma_unlines_shorter(pending: Seq<char>, rest: Seq<char>, i: int)
    requires
        closed_lines(pending, rest),
        0 < i,
        pending.len() <= i < pending.len() + rest.len(),
        (pending + rest)[i] == '\n',
        (pending + rest)[i - 1] == '\r',
    ensures
        unlines(lines_from(pending, rest)).len() < pending.len() + rest.len(),
    decreases rest.len(),
{
    let all = pending + rest;
    let more = rest.drop_first();
    assert(all[pending.len() as int] == rest[0]);
    if more.len() > 0 {
        assert(more.last() == rest.last());
    }
    if rest[0] == '\n' {
        lemma_unlines_cons(chomp(pending), lines_from(Seq::empty(), more));
        if i == pending.len() {
            assert(all[i - 1] == pending.last());
            lemma_unlines_len(Seq::empty(), more);
        } else {
            let j = i - pending.len() - 1;
            assert(all[i] == more[j]);
            assert(j > 0) by {
                if j == 0 {
                    assert(all[i - 1] == rest[0]);
                }
            }
            assert(all[i - 1] == more[j - 1]);
            assert((Seq::<char>::empty() + more) =~= more);
            lemma_unlines_shorter(Seq::empty(), more, j);
        }
    } else {
        let longer = pending.push(rest[0]);
        assert(longer + more =~= all);
        lemma_unlines_shorter(longer, more, i);
    }
}

/// Putting a line feed behind each line of a text gives the text back where
/// every line of the text ends with a line feed that no carriage return
/// precedes, and only there.
pub proof fn lemma_unlines_lines(text: Seq<char>)
    ensures
        unlines(lines_of(text)) == text <==> plain_lines(text),
{
    let none = Seq::<char>::empty();
    assert(none + text =~= text);
    if plain_lines(text) {
        lemma_unlines_from(none, text);
    } else if text.len() > 0 && text.last() != '\n' {
        lemma_unlines_ends(lines_of(text));
    } else {
        let i = choose|i: int|
            0 < i < text.len() && #[trigger] text[i] == '\n' && text[i - 1] == '\r';
        lemma_unlines_shorter(none, text, i);
    }
}

/// A text made of two has a carriage return before a line feed where one of
/// the two has, or where the first ends with the one and the second starts
/// with the other.
pub proof fn lemma_unbroken_concat(a: Seq<char>, b: Seq<char>)
    ensures
        unbroken(a + b) <==> {
            &&& unbroken(a)
            &&& unbroken(b)
            &&& !(a.len() > 0 && b.len() > 0 && a.last() == '\r' && b[0] == '\n')
        },
{
    let all = a + b;
    if unbroken(all) {
        assert forall|i: int| 0 < i < a.len() && #[trigger] a[i] == '\n' implies a[i - 1]
            != '\r' by {
            assert(all[i] == a[i] && all[i - 1] == a[i - 1]);
        }
        assert forall|i: int| 0 < i < b.len() && #[trigger] b[i] == '\n' implies b[i - 1]
            != '\r' by {
            assert(all[i + a.len()] == b[i] && all[i + a.len() - 1] == b[i - 1]);
        }
        if a.len() > 0 && b.len() > 0 {
            assert(all[a.len() as int] == b[0] && all[a.len() - 1] == a.last());
        }
    }
    if unbroken(a) && unbroken(b) && !(a.len() > 0 && b.len() > 0 && a.last() == '\r' && b[0]
        == '\n') {
        assert forall|i: int| 0 < i < all.len() && #[trigger] all[i] == '\n' implies all[i - 1]
            != '\r' by {
            if i < a.len() {
                assert(all[i] == a[i]);
            } else if i == a.len() {
                assert(all[i] == b[0] && all[i - 1] == a.last());
            } else {
                assert(all[i] == b[i - a.len()]);
                assert(all[i - 1] == b[i - a.len() - 1]);
            }
        }
    }
}

/// Two texts with plain lines, one behind the other, have plain lines.
pub proof fn lemma_plain_lines_concat(a: Seq<char>, b: Seq<char>)
    requires
        plain_lines(a),
        plain_lines(b),
    ensures
        plain_lines(a + b),
{
    lemma_unbroken_concat(a, b);
    if b.len() == 0 {
        assert(a + b =~= a);
    }
}

} // verus!
