//! Character-sequence helpers shared by the library: the mathematical meaning of
//! trimming, line splitting, joining, searching and decimal numbers, with
//! executable versions proved against it.

use vstd::prelude::*;

verus! {

// ───────────────────────────── specifications ─────────────────────────────

/// The text of an optional string.
pub open spec fn opt_view(o: Option<String>) -> Option<Seq<char>> {
    match o {
        Some(s) => Some(s@),
        None => None,
    }
}

/// Unicode `White_Space`, the set that `char::is_whitespace` and `str::trim` use.
pub open spec fn is_ws(c: char) -> bool {
    ||| ('\u{9}' <= c && c <= '\u{d}')
    ||| c == ' '
    ||| c == '\u{85}'
    ||| c == '\u{a0}'
    ||| c == '\u{1680}'
    ||| ('\u{2000}' <= c && c <= '\u{200a}')
    ||| c == '\u{2028}'
    ||| c == '\u{2029}'
    ||| c == '\u{202f}'
    ||| c == '\u{205f}'
    ||| c == '\u{3000}'
}

/// `s` without its leading whitespace.
pub open spec fn trim_start(s: Seq<char>) -> Seq<char>
    decreases s.len(),
{
    if s.len() > 0 && is_ws(s[0]) {
        trim_start(s.drop_first())
    } else {
        s
    }
}

/// `s` without its trailing whitespace.
pub open spec fn trim_end(s: Seq<char>) -> Seq<char>
    decreases s.len(),
{
    if s.len() > 0 && is_ws(s.last()) {
        trim_end(s.drop_last())
    } else {
        s
    }
}

/// `s` without leading and trailing whitespace (`str::trim`).
pub open spec fn trim(s: Seq<char>) -> Seq<char> {
    trim_end(trim_start(s))
}

/// The position of the first whitespace character of `t`, or its length.
pub open spec fn first_ws(t: Seq<char>) -> int
    decreases t.len(),
{
    if t.len() == 0 {
        0
    } else if is_ws(t[0]) {
        0
    } else {
        1 + first_ws(t.drop_first())
    }
}

/// `s` without every trailing occurrence of `c` (`str::trim_end_matches(c)`).
pub open spec fn trim_end_char(s: Seq<char>, c: char) -> Seq<char>
    decreases s.len(),
{
    if s.len() > 0 && s.last() == c {
        trim_end_char(s.drop_last(), c)
    } else {
        s
    }
}

/// `s` without every leading occurrence of `c` (`str::trim_start_matches(c)`).
pub open spec fn trim_start_char(s: Seq<char>, c: char) -> Seq<char>
    decreases s.len(),
{
    if s.len() > 0 && s[0] == c {
        trim_start_char(s.drop_first(), c)
    } else {
        s
    }
}

/// `s` without leading and trailing occurrences of `c` (`str::trim_matches(c)`).
pub open spec fn trim_char(s: Seq<char>, c: char) -> Seq<char> {
    trim_end_char(trim_start_char(s, c), c)
}

/// `p` occurs in `s` starting at position `i`.
pub open spec fn matches_at(s: Seq<char>, i: int, p: Seq<char>) -> bool {
    0 <= i && i + p.len() <= s.len() && s.subrange(i, i + p.len()) == p
}

/// `s` contains `p` (`str::contains`).
pub open spec fn contains(s: Seq<char>, p: Seq<char>) -> bool {
    exists|i: int| matches_at(s, i, p)
}

/// `s` starts with `p` (`str::starts_with`).
pub open spec fn starts_with(s: Seq<char>, p: Seq<char>) -> bool {
    matches_at(s, 0, p)
}

/// `s` ends with `p` (`str::ends_with`).
pub open spec fn ends_with(s: Seq<char>, p: Seq<char>) -> bool {
    p.len() <= s.len() && matches_at(s, s.len() - p.len(), p)
}

/// `s` with every `c` replaced by `r` (`str::replace(c, r)`).
pub open spec fn replace_char(s: Seq<char>, c: char, r: Seq<char>) -> Seq<char>
    decreases s.len(),
{
    if s.len() == 0 {
        s
    } else {
        replace_char(s.drop_last(), c, r) + (if s.last() == c {
            r
        } else {
            seq![s.last()]
        })
    }
}

/// Replacing a character distributes over concatenation.
pub proof fn lemma_replace_char_append(a: Seq<char>, b: Seq<char>, c: char, r: Seq<char>)
    ensures
        replace_char(a + b, c, r) == replace_char(a, c, r) + replace_char(b, c, r),
    decreases b.len(),
{
    if b.len() == 0 {
        assert(a + b =~= a);
        assert(replace_char(a, c, r) + replace_char(b, c, r) =~= replace_char(a, c, r));
    } else {
        lemma_replace_char_append(a, b.drop_last(), c, r);
        assert((a + b).drop_last() =~= a + b.drop_last());
        assert((a + b).last() == b.last());
    }
}

/// The number of occurrences of `c` in `s`.
pub open spec fn count_char(s: Seq<char>, c: char) -> nat
    decreases s.len(),
{
    if s.len() == 0 {
        0
    } else {
        count_char(s.drop_last(), c) + (if s.last() == c {
            1nat
        } else {
            0nat
        })
    }
}

/// `s` with its last character removed when that character is `'\r'`.
pub open spec fn strip_cr(s: Seq<char>) -> Seq<char> {
    if s.len() > 0 && s.last() == '\r' {
        s.drop_last()
    } else {
        s
    }
}

/// Line splitting as `str::lines` does it, with `cur` the part of the current
/// line already read and `rest` the text still to read: a line ends at `'\n'`
/// (and then loses one trailing `'\r'`), and a final line is kept only when it
/// is not empty.
pub open spec fn lines_from(cur: Seq<char>, rest: Seq<char>) -> Seq<Seq<char>>
    decreases rest.len(),
{
    if rest.len() == 0 {
        if cur.len() == 0 {
            seq![]
        } else {
            seq![cur]
        }
    } else if rest[0] == '\n' {
        seq![strip_cr(cur)] + lines_from(seq![], rest.drop_first())
    } else {
        lines_from(cur.push(rest[0]), rest.drop_first())
    }
}

/// The lines of `s` (`str::lines`).
pub open spec fn lines(s: Seq<char>) -> Seq<Seq<char>> {
    lines_from(seq![], s)
}

/// The parts of `l` put end to end with `sep` between neighbours (`[..].join(sep)`).
pub open spec fn join(l: Seq<Seq<char>>, sep: Seq<char>) -> Seq<char>
    decreases l.len(),
{
    if l.len() == 0 {
        seq![]
    } else if l.len() == 1 {
        l[0]
    } else {
        join(l.drop_last(), sep) + sep + l.last()
    }
}

/// ASCII letters and digits (`char::is_ascii_alphanumeric`).
pub open spec fn is_ascii_alnum(c: char) -> bool {
    ('0' <= c && c <= '9') || ('a' <= c && c <= 'z') || ('A' <= c && c <= 'Z')
}

/// `char::to_ascii_lowercase`.
pub open spec fn ascii_lower(c: char) -> char {
    if 'A' <= c && c <= 'Z' {
        ((c as u32) + 32) as char
    } else {
        c
    }
}

/// `char::to_ascii_uppercase`.
pub open spec fn ascii_upper(c: char) -> char {
    if 'a' <= c && c <= 'z' {
        ((c as u32) - 32) as char
    } else {
        c
    }
}

/// Every character of `s` is ASCII.
pub open spec fn all_ascii(s: Seq<char>) -> bool {
    forall|i: int| 0 <= i < s.len() ==> (s[i] as u32) < 128
}

/// `str::eq_ignore_ascii_case`.
pub open spec fn eq_ignore_ascii_case(a: Seq<char>, b: Seq<char>) -> bool {
    a.len() == b.len() && forall|i: int| 0 <= i < a.len() ==> ascii_lower(a[i]) == ascii_lower(b[i])
}

/// The decimal digit for `d < 10`.
pub open spec fn digit_char(d: nat) -> char {
    if d == 0 {
        '0'
    } else if d == 1 {
        '1'
    } else if d == 2 {
        '2'
    } else if d == 3 {
        '3'
    } else if d == 4 {
        '4'
    } else if d == 5 {
        '5'
    } else if d == 6 {
        '6'
    } else if d == 7 {
        '7'
    } else if d == 8 {
        '8'
    } else {
        '9'
    }
}

/// The decimal text of `n`, as `format!("{}", n)` writes it.
pub open spec fn dec(n: nat) -> Seq<char>
    decreases n,
{
    if n < 10 {
        seq![digit_char(n)]
    } else {
        dec(n / 10).push(digit_char(n % 10))
    }
}

/// An ASCII decimal digit.
pub open spec fn is_digit(c: char) -> bool {
    '0' <= c && c <= '9'
}

/// The value of a digit character.
pub open spec fn digit_value(c: char) -> nat {
    ((c as u32) - ('0' as u32)) as nat
}

/// The value of a string of digits (0 for the empty string).
pub open spec fn digits_value(s: Seq<char>) -> nat
    decreases s.len(),
{
    if s.len() == 0 {
        0
    } else {
        digits_value(s.drop_last()) * 10 + digit_value(s.last())
    }
}

/// Every character of `s` is a digit.
pub open spec fn all_digits(s: Seq<char>) -> bool {
    forall|i: int| 0 <= i < s.len() ==> is_digit(#[trigger] s[i])
}

/// The digits of an unsigned number as `FromStr` for an unsigned integer type
/// reads them: one optional leading `'+'`, then at least one digit, nothing else.
pub open spec fn unsigned_digits(s: Seq<char>) -> Option<Seq<char>> {
    let d = if s.len() > 0 && s[0] == '+' {
        s.drop_first()
    } else {
        s
    };
    if d.len() > 0 && all_digits(d) {
        Some(d)
    } else {
        None
    }
}

/// `s.parse::<T>()` for an unsigned integer type `T` whose largest value is `max`.
pub open spec fn parse_unsigned(s: Seq<char>, max: nat) -> Option<nat> {
    match unsigned_digits(s) {
        Some(d) => if digits_value(d) <= max {
            Some(digits_value(d))
        } else {
            None
        },
        None => None,
    }
}

/// `s.parse::<i64>()`: an optional sign, then at least one digit, in range.
pub open spec fn parse_i64(s: Seq<char>) -> Option<int> {
    if s.len() > 0 && s[0] == '-' {
        let d = s.drop_first();
        if d.len() > 0 && all_digits(d) && digits_value(d) <= 0x8000_0000_0000_0000 {
            Some(-(digits_value(d) as int))
        } else {
            None
        }
    } else {
        match parse_unsigned(s, 0x7fff_ffff_ffff_ffff) {
            Some(v) => Some(v as int),
            None => None,
        }
    }
}

/// A line that is empty after trimming.
pub open spec fn is_blank(l: Seq<char>) -> bool {
    trim(l).len() == 0
}

/// The lines without their leading blank lines.
pub open spec fn drop_blank_front(ls: Seq<Seq<char>>) -> Seq<Seq<char>>
    decreases ls.len(),
{
    if ls.len() > 0 && is_blank(ls[0]) {
        drop_blank_front(ls.drop_first())
    } else {
        ls
    }
}

/// The lines without their trailing blank lines.
pub open spec fn drop_blank_back(ls: Seq<Seq<char>>) -> Seq<Seq<char>>
    decreases ls.len(),
{
    if ls.len() > 0 && is_blank(ls.last()) {
        drop_blank_back(ls.drop_last())
    } else {
        ls
    }
}


/// `str::to_lowercase` of `s` (full Unicode lower-casing).
pub uninterp spec fn lowercase(s: Seq<char>) -> Seq<char>;

/// `str::to_uppercase` of `s` (full Unicode upper-casing).
pub uninterp spec fn uppercase(s: Seq<char>) -> Seq<char>;

/// The position of the last `c` in `s`, if any.
pub open spec fn last_index(s: Seq<char>, c: char) -> Option<int>
    decreases s.len(),
{
    if s.len() == 0 {
        None
    } else if s.last() == c {
        Some(s.len() - 1)
    } else {
        last_index(s.drop_last(), c)
    }
}

/// The text after the last `c`, or all of `s` when there is none (`s.rsplit(c).next()`).
pub open spec fn after_last(s: Seq<char>, c: char) -> Seq<char> {
    match last_index(s, c) {
        Some(i) => s.subrange(i + 1, s.len() as int),
        None => s,
    }
}

/// The text before the last `c`, or all of `s` when there is none
/// (`s.rsplit_once(c).map(|(a, _)| a).unwrap_or(s)`).
pub open spec fn before_last(s: Seq<char>, c: char) -> Seq<char> {
    match last_index(s, c) {
        Some(i) => s.subrange(0, i),
        None => s,
    }
}

/// The position of the first `c` in `s`, if any.
pub open spec fn first_index(s: Seq<char>, c: char) -> Option<int>
    decreases s.len(),
{
    if s.len() == 0 {
        None
    } else if s[0] == c {
        Some(0)
    } else {
        match first_index(s.drop_first(), c) {
            Some(i) => Some(i + 1),
            None => None,
        }
    }
}

/// `s.splitn(2, c)`: the text before the first `c` and, when there is one, the text after it.
pub open spec fn split_once_first(s: Seq<char>, c: char) -> (Seq<char>, Option<Seq<char>>) {
    match first_index(s, c) {
        Some(i) => (s.subrange(0, i), Some(s.subrange(i + 1, s.len() as int))),
        None => (s, None),
    }
}


/// `s.split(c)`: the pieces between occurrences of `c` (one piece more than there are `c`).
pub open spec fn split_all(s: Seq<char>, c: char) -> Seq<Seq<char>>
    decreases s.len(),
{
    if s.len() == 0 {
        seq![Seq::<char>::empty()]
    } else {
        let prev = split_all(s.drop_last(), c);
        if s.last() == c {
            prev.push(Seq::<char>::empty())
        } else {
            prev.update(prev.len() - 1, prev.last().push(s.last()))
        }
    }
}

proof fn lemma_split_all_nonempty(s: Seq<char>, c: char)
    ensures
        split_all(s, c).len() > 0,
    decreases s.len(),
{
    if s.len() > 0 {
        lemma_split_all_nonempty(s.drop_last(), c);
    }
}

// ───────────────────────────── lemmas ─────────────────────────────

proof fn lemma_lines_step(s: Seq<char>, i: int, cur: Seq<char>)
    requires
        0 <= i < s.len(),
    ensures
        s.subrange(i, s.len() as int).drop_first() == s.subrange(i + 1, s.len() as int),
        s.subrange(i, s.len() as int)[0] == s[i],
{
    assert(s.subrange(i, s.len() as int).drop_first() =~= s.subrange(i + 1, s.len() as int));
}


/// `s` holds no line break.
pub open spec fn no_newline(s: Seq<char>) -> bool {
    forall|i: int| 0 <= i < s.len() ==> s[i] != '\n'
}

/// Reading a piece without line breaks and then a line break ends the current line there.
pub proof fn lemma_lines_through(cur: Seq<char>, x: Seq<char>, rest: Seq<char>)
    requires
        no_newline(x),
    ensures
        lines_from(cur, x + "\n"@ + rest) == seq![strip_cr(cur + x)] + lines_from(seq![], rest),
    decreases x.len(),
{
    reveal_strlit("\n");
    let t = x + "\n"@ + rest;
    if x.len() == 0 {
        assert(t =~= "\n"@ + rest);
        assert(t.drop_first() =~= rest);
        assert(cur + x =~= cur);
    } else {
        assert(t[0] == x[0]);
        assert(t.drop_first() =~= x.drop_first() + "\n"@ + rest);
        lemma_lines_through(cur.push(x[0]), x.drop_first(), rest);
        assert(cur.push(x[0]) + x.drop_first() =~= cur + x);
    }
}

/// The end of a text without line breaks is one last line when it is not empty.
pub proof fn lemma_lines_tail(cur: Seq<char>, x: Seq<char>)
    requires
        no_newline(x),
    ensures
        lines_from(cur, x) == (if (cur + x).len() == 0 {
            Seq::<Seq<char>>::empty()
        } else {
            seq![cur + x]
        }),
    decreases x.len(),
{
    if x.len() == 0 {
        assert(cur + x =~= cur);
    } else {
        lemma_lines_tail(cur.push(x[0]), x.drop_first());
        assert(cur.push(x[0]) + x.drop_first() =~= cur + x);
    }
}

/// Lines joined by `\n`, with a `\n` after the last, read back as those lines
/// (each without one trailing `\r`), followed by the lines of what comes next.
pub proof fn lemma_lines_of_join(k: Seq<Seq<char>>, rest: Seq<char>)
    requires
        k.len() > 0,
        forall|i: int| 0 <= i < k.len() ==> no_newline(#[trigger] k[i]),
    ensures
        lines_from(seq![], join(k, "\n"@) + "\n"@ + rest) == k.map_values(|l: Seq<char>| strip_cr(l))
            + lines_from(seq![], rest),
    decreases k.len(),
{
    if k.len() == 1 {
        lemma_lines_through(seq![], k[0], rest);
        assert(seq![] + k[0] =~= k[0]);
        assert(k.map_values(|l: Seq<char>| strip_cr(l)) =~= seq![strip_cr(k[0])]);
    } else {
        let front = k.drop_last();
        let rest2 = k.last() + "\n"@ + rest;
        assert(join(k, "\n"@) + "\n"@ + rest =~= join(front, "\n"@) + "\n"@ + rest2);
        lemma_lines_of_join(front, rest2);
        lemma_lines_through(seq![], k.last(), rest);
        assert(seq![] + k.last() =~= k.last());
        assert(k.map_values(|l: Seq<char>| strip_cr(l)) =~= front.map_values(|l: Seq<char>| strip_cr(l)).push(
            strip_cr(k.last()),
        ));
    }
}

/// Every line `lines` reads holds no line break.
pub proof fn lemma_lines_no_newline(cur: Seq<char>, rest: Seq<char>)
    requires
        no_newline(cur),
    ensures
        forall|i: int| 0 <= i < lines_from(cur, rest).len() ==> no_newline(#[trigger] lines_from(cur, rest)[i]),
    decreases rest.len(),
{
    if rest.len() == 0 {
        assert(lines_from(cur, rest) == (if cur.len() == 0 {
            Seq::<Seq<char>>::empty()
        } else {
            seq![cur]
        }));
        if cur.len() > 0 {
            assert(lines_from(cur, rest)[0] == cur);
        }
    } else if rest[0] == '\n' {
        assert(no_newline(strip_cr(cur))) by {
            assert forall|j: int| 0 <= j < strip_cr(cur).len() implies strip_cr(cur)[j] != '\n' by {
                assert(strip_cr(cur)[j] == cur[j]);
            }
        }
        lemma_lines_no_newline(seq![], rest.drop_first());
        let tail = lines_from(seq![], rest.drop_first());
        assert forall|i: int| 0 <= i < lines_from(cur, rest).len() implies no_newline(
            #[trigger] lines_from(cur, rest)[i],
        ) by {
            if i > 0 {
                assert(lines_from(cur, rest)[i] == tail[i - 1]);
            } else {
                assert(lines_from(cur, rest)[0] == strip_cr(cur));
            }
        }
    } else {
        assert(no_newline(cur.push(rest[0]))) by {
            assert forall|j: int| 0 <= j < cur.push(rest[0]).len() implies cur.push(rest[0])[j] != '\n' by {
                if j < cur.len() {
                    assert(cur.push(rest[0])[j] == cur[j]);
                }
            }
        }
        lemma_lines_no_newline(cur.push(rest[0]), rest.drop_first());
        assert(lines_from(cur, rest) == lines_from(cur.push(rest[0]), rest.drop_first()));
    }
}

/// Dropping a trailing whitespace character does not change what `trim` gives.
pub proof fn lemma_trim_drop_ws_last(s: Seq<char>)
    requires
        s.len() > 0,
        is_ws(s.last()),
    ensures
        trim(s.drop_last()) == trim(s),
    decreases s.len(),
{
    lemma_trim_start_drop_ws_last(s);
    let a = trim_start(s);
    if a.len() > 0 {
        assert(a.last() == s.last());
        assert(trim_end(a) == trim_end(a.drop_last()));
    }
}

proof fn lemma_trim_start_drop_ws_last(s: Seq<char>)
    requires
        s.len() > 0,
        is_ws(s.last()),
    ensures
        trim_start(s).len() == 0 ==> trim_start(s.drop_last()).len() == 0,
        trim_start(s).len() > 0 ==> trim_start(s.drop_last()) == trim_start(s).drop_last()
            && trim_start(s).last() == s.last(),
    decreases s.len(),
{
    if is_ws(s[0]) {
        if s.len() == 1 {
            assert(s.drop_last().len() == 0);
            assert(s.drop_first().len() == 0);
        } else {
            lemma_trim_start_drop_ws_last(s.drop_first());
            assert(s.drop_last().drop_first() =~= s.drop_first().drop_last());
            assert(s.drop_last()[0] == s[0]);
            assert(trim_start(s) == trim_start(s.drop_first()));
            assert(trim_start(s.drop_last()) == trim_start(s.drop_last().drop_first()));
            assert(s.drop_first().last() == s.last());
        }
    } else {
        assert(s.len() >= 2);
        assert(s.drop_last()[0] == s[0]);
        assert(trim_start(s) == s);
        assert(trim_start(s.drop_last()) == s.drop_last());
    }
}

/// `trim` gives the same for a line with or without one trailing `\r`.
pub proof fn lemma_trim_strip_cr(s: Seq<char>)
    ensures
        trim(strip_cr(s)) == trim(s),
{
    if s.len() > 0 && s.last() == '\r' {
        lemma_trim_drop_ws_last(s);
    }
}

/// Every line that stays after dropping leading or trailing blank lines was
/// one of the lines; each of the two keeps a prefix or suffix of them.
pub proof fn lemma_drop_blank_back_prefix(ls: Seq<Seq<char>>)
    ensures
        drop_blank_back(ls).len() <= ls.len(),
        drop_blank_back(ls) == ls.subrange(0, drop_blank_back(ls).len() as int),
    decreases ls.len(),
{
    if ls.len() > 0 && is_blank(ls.last()) {
        lemma_drop_blank_back_prefix(ls.drop_last());
        assert(ls.drop_last().subrange(0, drop_blank_back(ls).len() as int) =~= ls.subrange(
            0,
            drop_blank_back(ls).len() as int,
        ));
    } else {
        assert(ls.subrange(0, ls.len() as int) =~= ls);
    }
}

/// Dropping leading blank lines keeps a suffix of the lines.
pub proof fn lemma_drop_blank_front_suffix(ls: Seq<Seq<char>>)
    ensures
        drop_blank_front(ls).len() <= ls.len(),
        drop_blank_front(ls) == ls.subrange(ls.len() - drop_blank_front(ls).len(), ls.len() as int),
    decreases ls.len(),
{
    if ls.len() > 0 && is_blank(ls[0]) {
        lemma_drop_blank_front_suffix(ls.drop_first());
        assert(ls.drop_first().subrange(
            ls.drop_first().len() - drop_blank_front(ls).len(),
            ls.drop_first().len() as int,
        ) =~= ls.subrange(ls.len() - drop_blank_front(ls).len(), ls.len() as int));
    } else {
        assert(ls.subrange(0, ls.len() as int) =~= ls);
    }
}

/// The first `c` is at `k` when `s[k]` is `c` and no earlier character is.
pub proof fn lemma_first_index_at(s: Seq<char>, c: char, k: int)
    requires
        0 <= k < s.len(),
        s[k] == c,
        forall|j: int| 0 <= j < k ==> s[j] != c,
    ensures
        first_index(s, c) == Some(k),
    decreases k,
{
    if k > 0 {
        lemma_first_index_at(s.drop_first(), c, k - 1);
    }
}

proof fn lemma_first_index_none(s: Seq<char>, c: char)
    requires
        forall|j: int| 0 <= j < s.len() ==> s[j] != c,
    ensures
        first_index(s, c) is None,
    decreases s.len(),
{
    if s.len() > 0 {
        lemma_first_index_none(s.drop_first(), c);
    }
}

/// The digits value of a prefix never exceeds that of the whole.
proof fn lemma_digits_value_prefix(s: Seq<char>, k: int)
    requires
        0 <= k <= s.len(),
    ensures
        digits_value(s.take(k)) <= digits_value(s),
    decreases s.len() - k,
{
    if k < s.len() {
        lemma_digits_value_prefix(s, k + 1);
        assert(s.take(k + 1).drop_last() =~= s.take(k));
        assert(digits_value(s.take(k + 1)) == digits_value(s.take(k)) * 10 + digit_value(
            s.take(k + 1).last(),
        ));
    } else {
        assert(s.take(k) =~= s);
    }
}

// ───────────────────────────── executable helpers ─────────────────────────────

/// Appends one character (`String::push`).
#[verifier::external_body]
pub fn push_char(s: &mut String, c: char)
    ensures
        final(s)@ == old(s)@.push(c),
{
    s.push(c);
}

/// The characters of `s`, one per element.
pub fn chars_of(s: &str) -> (v: Vec<char>)
    ensures
        v@ == s@,
{
    let mut v: Vec<char> = Vec::new();
    for c in it: s.chars()
        invariant
            v@ == it.seq().take(it.index() as int),
    {
        v.push(c);
    }
    v
}

/// An owned copy of `s`.
pub fn to_owned_string(s: &str) -> (r: String)
    ensures
        r@ == s@,
{
    let mut r = String::new();
    r.append(s);
    r
}

/// The characters `v[lo..hi]` as a `String`.
pub fn string_of_range(v: &Vec<char>, lo: usize, hi: usize) -> (r: String)
    requires
        lo <= hi <= v.len(),
    ensures
        r@ == v@.subrange(lo as int, hi as int),
{
    let mut r = String::new();
    let mut i = lo;
    while i < hi
        invariant
            lo <= i <= hi <= v.len(),
            r@ == v@.subrange(lo as int, i as int),
        decreases hi - i,
    {
        push_char(&mut r, v[i]);
        i += 1;
        assert(r@ =~= v@.subrange(lo as int, i as int));
    }
    r
}

/// All of `v` as a `String`.
pub fn string_of(v: &Vec<char>) -> (r: String)
    ensures
        r@ == v@,
{
    let r = string_of_range(v, 0, v.len());
    assert(v@.subrange(0, v.len() as int) =~= v@);
    r
}

/// Appends `v[lo..hi]` to `r`.
pub fn append_range(r: &mut String, v: &Vec<char>, lo: usize, hi: usize)
    requires
        lo <= hi <= v.len(),
    ensures
        final(r)@ == old(r)@ + v@.subrange(lo as int, hi as int),
{
    let ghost start = r@;
    let mut i = lo;
    while i < hi
        invariant
            lo <= i <= hi <= v.len(),
            r@ == start + v@.subrange(lo as int, i as int),
        decreases hi - i,
    {
        push_char(r, v[i]);
        i += 1;
        assert(r@ =~= start + v@.subrange(lo as int, i as int));
    }
}

/// `char::is_whitespace`.
pub fn char_is_ws(c: char) -> (b: bool)
    ensures
        b == is_ws(c),
{
    ('\u{9}' <= c && c <= '\u{d}') || c == ' ' || c == '\u{85}' || c == '\u{a0}' || c == '\u{1680}'
        || ('\u{2000}' <= c && c <= '\u{200a}') || c == '\u{2028}' || c == '\u{2029}' || c
        == '\u{202f}' || c == '\u{205f}' || c == '\u{3000}'
}

/// The bounds of `trim(v)` inside `v`.
pub fn trim_bounds(v: &Vec<char>) -> (r: (usize, usize))
    ensures
        r.0 <= r.1 <= v.len(),
        v@.subrange(r.0 as int, r.1 as int) == trim(v@),
{
    let n = v.len();
    let mut lo: usize = 0;
    assert(v@.subrange(0, n as int) =~= v@);
    while lo < n && char_is_ws(v[lo])
        invariant
            lo <= n == v.len(),
            trim_start(v@) == trim_start(v@.subrange(lo as int, n as int)),
        decreases n - lo,
    {
        assert(v@.subrange(lo as int, n as int).drop_first() =~= v@.subrange(lo + 1, n as int));
        lo += 1;
    }
    assert(trim_start(v@.subrange(lo as int, n as int)) == v@.subrange(lo as int, n as int));
    let mut hi: usize = n;
    while hi > lo && char_is_ws(v[hi - 1])
        invariant
            lo <= hi <= n == v.len(),
            trim(v@) == trim_end(v@.subrange(lo as int, hi as int)),
        decreases hi,
    {
        assert(v@.subrange(lo as int, hi as int).drop_last() =~= v@.subrange(
            lo as int,
            hi - 1,
        ));
        hi -= 1;
    }
    (lo, hi)
}

/// `trim(s)` as a `String`.
pub fn trim_string(s: &str) -> (r: String)
    ensures
        r@ == trim(s@),
{
    let v = chars_of(s);
    let (lo, hi) = trim_bounds(&v);
    string_of_range(&v, lo, hi)
}

/// Whether `p` occurs in `s` at `i`.
pub fn matches_at_exec(s: &Vec<char>, i: usize, p: &Vec<char>) -> (b: bool)
    ensures
        b == matches_at(s@, i as int, p@),
{
    if i > s.len() || p.len() > s.len() - i {
        return false;
    }
    let mut k: usize = 0;
    while k < p.len()
        invariant
            i + p.len() <= s.len(),
            k <= p.len(),
            forall|j: int| 0 <= j < k ==> s@[i + j] == p@[j],
        decreases p.len() - k,
    {
        if s[i + k] != p[k] {
            assert(s@.subrange(i as int, i + p.len())[k as int] != p@[k as int]);
            return false;
        }
        k += 1;
    }
    assert(s@.subrange(i as int, i + p.len()) =~= p@);
    true
}

/// Whether `p` occurs anywhere in `s`.
pub fn contains_exec(s: &Vec<char>, p: &Vec<char>) -> (b: bool)
    ensures
        b == contains(s@, p@),
{
    if p.len() > s.len() {
        return false;
    }
    let limit = s.len() - p.len();
    let mut i: usize = 0;
    loop
        invariant
            limit == s.len() - p.len(),
            p.len() <= s.len(),
            i <= limit,
            forall|j: int| 0 <= j < i ==> !matches_at(s@, j, p@),
        decreases limit - i,
    {
        if matches_at_exec(s, i, p) {
            return true;
        }
        if i == limit {
            return false;
        }
        i += 1;
    }
}

/// `str::contains` on string slices.
pub fn str_contains(s: &str, p: &str) -> (b: bool)
    ensures
        b == contains(s@, p@),
{
    let sv = chars_of(s);
    let pv = chars_of(p);
    contains_exec(&sv, &pv)
}

/// `str::starts_with` on string slices.
pub fn str_starts_with(s: &str, p: &str) -> (b: bool)
    ensures
        b == starts_with(s@, p@),
{
    let sv = chars_of(s);
    let pv = chars_of(p);
    matches_at_exec(&sv, 0, &pv)
}

/// `str::ends_with` on string slices.
pub fn str_ends_with(s: &str, p: &str) -> (b: bool)
    ensures
        b == ends_with(s@, p@),
{
    let sv = chars_of(s);
    let pv = chars_of(p);
    if pv.len() > sv.len() {
        return false;
    }
    matches_at_exec(&sv, sv.len() - pv.len(), &pv)
}

/// Character equality of two strings.
pub fn str_eq(a: &str, b: &str) -> (r: bool)
    ensures
        r == (a@ == b@),
{
    let av = chars_of(a);
    let bv = chars_of(b);
    if av.len() != bv.len() {
        return false;
    }
    let r = matches_at_exec(&av, 0, &bv);
    assert(av@ =~= av@.subrange(0, bv@.len() as int));
    r
}

/// `s` with every `c` replaced by `r`, appended to `out`.
pub fn append_replace_char(out: &mut String, s: &Vec<char>, c: char, r: &str)
    ensures
        final(out)@ == old(out)@ + replace_char(s@, c, r@),
{
    let ghost start = out@;
    let mut i: usize = 0;
    while i < s.len()
        invariant
            i <= s.len(),
            out@ == start + replace_char(s@.take(i as int), c, r@),
        decreases s.len() - i,
    {
        assert(s@.take(i + 1).drop_last() =~= s@.take(i as int));
        if s[i] == c {
            out.append(r);
        } else {
            push_char(out, s[i]);
        }
        i += 1;
        assert(out@ =~= start + replace_char(s@.take(i as int), c, r@));
    }
    assert(s@.take(s.len() as int) =~= s@);
}

/// `s.replace(c, r)`.
pub fn replace_char_string(s: &str, c: char, r: &str) -> (o: String)
    ensures
        o@ == replace_char(s@, c, r@),
{
    let v = chars_of(s);
    let mut o = String::new();
    append_replace_char(&mut o, &v, c, r);
    o
}

/// The lines of `s` (`str::lines`), each as a character vector.
pub fn lines_of(s: &Vec<char>) -> (r: Vec<Vec<char>>)
    ensures
        r.len() == lines(s@).len(),
        forall|i: int| 0 <= i < r.len() ==> (#[trigger] r[i])@ == lines(s@)[i],
{
    let mut done: Vec<Vec<char>> = Vec::new();
    let mut cur: Vec<char> = Vec::new();
    let n = s.len();
    let mut i: usize = 0;
    assert(s@.subrange(0, n as int) =~= s@);
    assert(done@.map_values(|l: Vec<char>| l@) =~= Seq::<Seq<char>>::empty());
    while i < n
        invariant
            i <= n == s.len(),
            done@.map_values(|l: Vec<char>| l@) + lines_from(cur@, s@.subrange(i as int, n as int))
                == lines(s@),
        decreases n - i,
    {
        proof {
            lemma_lines_step(s@, i as int, cur@);
        }
        if s[i] == '\n' {
            let mut line = cur;
            if line.len() > 0 && line[line.len() - 1] == '\r' {
                line.pop();
            }
            assert(line@ == strip_cr(cur@)) by {
                if cur@.len() > 0 && cur@.last() == '\r' {
                    assert(line@ =~= cur@.drop_last());
                }
            }
            let ghost before = done@;
            done.push(line);
            assert(done@.map_values(|l: Vec<char>| l@) =~= before.map_values(|l: Vec<char>| l@)
                + seq![line@]);
            cur = Vec::new();
        } else {
            cur.push(s[i]);
        }
        i += 1;
    }
    let ghost before = done@;
    if cur.len() > 0 {
        done.push(cur);
        assert(done@.map_values(|l: Vec<char>| l@) =~= before.map_values(|l: Vec<char>| l@)
            + lines_from(cur@, seq![]));
    } else {
        assert(done@.map_values(|l: Vec<char>| l@) =~= before.map_values(|l: Vec<char>| l@)
            + lines_from(cur@, seq![]));
    }
    assert(s@.subrange(n as int, n as int) =~= Seq::<char>::empty());
    proof {
        assert forall|k: int| 0 <= k < done.len() implies (#[trigger] done[k])@ == lines(s@)[k] by {
            assert(done@.map_values(|l: Vec<char>| l@)[k] == done@[k]@);
        }
    }
    done
}



/// The character views of a vector of strings.
pub open spec fn texts(v: Seq<String>) -> Seq<Seq<char>> {
    v.map_values(|s: String| s@)
}

/// Pushes `s` onto `v`.
pub fn push_text(v: &mut Vec<String>, s: String)
    ensures
        texts(final(v)@) == texts(old(v)@).push(s@),
{
    let ghost before = v@;
    v.push(s);
    assert(texts(v@) =~= texts(before).push(s@));
}

/// Pushes a copy of `s` onto `v`.
pub fn push_str_text(v: &mut Vec<String>, s: &str)
    ensures
        texts(final(v)@) == texts(old(v)@).push(s@),
{
    push_text(v, to_owned_string(s));
}

/// Text `format!("{:?}", s)` writes for a string: it in double quotes, with
/// the characters that `Debug` escapes escaped.
pub uninterp spec fn debug_quoted(s: Seq<char>) -> Seq<char>;

/// `format!("{:?}", s)`: `s` quoted and escaped as `Debug` does it for `str`.
#[verifier::external_body]
pub fn debug_quote(s: &str) -> (r: String)
    ensures
        r@ == debug_quoted(s@),
{
    format!("{:?}", s)
}


/// The characters `v[lo..hi]` as a new vector.
pub fn vec_range(v: &Vec<char>, lo: usize, hi: usize) -> (r: Vec<char>)
    requires
        lo <= hi <= v.len(),
    ensures
        r@ == v@.subrange(lo as int, hi as int),
{
    let mut r: Vec<char> = Vec::new();
    let mut i = lo;
    while i < hi
        invariant
            lo <= i <= hi <= v.len(),
            r@ == v@.subrange(lo as int, i as int),
        decreases hi - i,
    {
        r.push(v[i]);
        i += 1;
        assert(r@ =~= v@.subrange(lo as int, i as int));
    }
    r
}

/// The length of `trim_end(v)`.
pub fn trim_end_len(v: &Vec<char>) -> (k: usize)
    ensures
        k <= v.len(),
        v@.subrange(0, k as int) == trim_end(v@),
{
    let mut k = v.len();
    assert(v@.subrange(0, k as int) =~= v@);
    while k > 0 && char_is_ws(v[k - 1])
        invariant
            k <= v.len(),
            trim_end(v@) == trim_end(v@.subrange(0, k as int)),
        decreases k,
    {
        assert(v@.subrange(0, k as int).drop_last() =~= v@.subrange(0, k - 1));
        k -= 1;
    }
    k
}

/// `trim(v)` as a new vector.
pub fn trimmed(v: &Vec<char>) -> (r: Vec<char>)
    ensures
        r@ == trim(v@),
{
    let (lo, hi) = trim_bounds(v);
    vec_range(v, lo, hi)
}

/// Bytes that `urlencoding::encode` leaves as they are: ASCII letters, digits, `-`, `.`, `_`, `~`.
pub open spec fn is_unreserved_byte(b: u8) -> bool {
    (48 <= b <= 57) || (65 <= b <= 90) || (97 <= b <= 122) || b == 45 || b == 46 || b == 95
        || b == 126
}

/// The upper-case hexadecimal digit for `d < 16`.
pub open spec fn hex_upper(d: u8) -> char {
    if d < 10 {
        ((d as u32) + 48) as char
    } else {
        ((d as u32) + 55) as char
    }
}

/// Percent-encoding of a byte string: unreserved bytes stay, every other byte
/// becomes `%` and two upper-case hexadecimal digits.
pub open spec fn percent_encode(b: Seq<u8>) -> Seq<char>
    decreases b.len(),
{
    if b.len() == 0 {
        seq![]
    } else {
        percent_encode(b.drop_last()) + (if is_unreserved_byte(b.last()) {
            seq![(b.last() as u32) as char]
        } else {
            seq!['%', hex_upper(b.last() / 16), hex_upper(b.last() % 16)]
        })
    }
}

/// The text `urlencoding::encode` gives for `s`: its UTF-8 bytes percent-encoded.
pub open spec fn url_encoded(s: Seq<char>) -> Seq<char> {
    percent_encode(vstd::utf8::encode_utf8(s))
}

/// `urlencoding::encode`: percent-encodes every UTF-8 byte of `s` except ASCII
/// letters, digits and `-`, `.`, `_`, `~`, with upper-case hexadecimal digits.
#[verifier::external_body]
pub fn url_encode(s: &str) -> (r: String)
    ensures
        r@ == url_encoded(s@),
{
    urlencoding::encode(s).into_owned()
}

/// `char::to_ascii_lowercase`.
pub fn lower_ascii(c: char) -> (r: char)
    ensures
        r == ascii_lower(c),
{
    if 'A' <= c && c <= 'Z' {
        ((c as u8) + 32) as char
    } else {
        c
    }
}

/// Whether `v` is blank (empty after trimming).
pub fn blank_chars(v: &Vec<char>) -> (b: bool)
    ensures
        b == is_blank(v@),
{
    let (lo, hi) = trim_bounds(v);
    lo == hi
}

/// The bounds `lo..hi` with `ls[lo..hi]` equal to `drop_blank_back(drop_blank_front(ls))`.
pub fn blank_trim_bounds(ls: &Vec<String>) -> (r: (usize, usize))
    ensures
        r.0 <= r.1 <= ls.len(),
        texts(ls@).subrange(r.0 as int, r.1 as int) == drop_blank_back(drop_blank_front(texts(ls@))),
{
    let ghost ks = texts(ls@);
    let n = ls.len();
    let mut lo: usize = 0;
    assert(ks.subrange(0, n as int) =~= ks);
    while lo < n && blank_chars(&chars_of(ls[lo].as_str()))
        invariant
            lo <= n == ls.len(),
            ks == texts(ls@),
            drop_blank_front(ks) == drop_blank_front(ks.subrange(lo as int, n as int)),
        decreases n - lo,
    {
        assert(ks.subrange(lo as int, n as int).drop_first() =~= ks.subrange(lo + 1, n as int));
        lo += 1;
    }
    let ghost front = ks.subrange(lo as int, n as int);
    let mut hi: usize = n;
    while hi > lo && blank_chars(&chars_of(ls[hi - 1].as_str()))
        invariant
            lo <= hi <= n == ls.len(),
            ks == texts(ls@),
            drop_blank_back(front) == drop_blank_back(ks.subrange(lo as int, hi as int)),
        decreases hi,
    {
        assert(ks.subrange(lo as int, hi as int).drop_last() =~= ks.subrange(lo as int, hi - 1));
        hi -= 1;
    }
    (lo, hi)
}

/// Copies `ls[lo..hi]`.
pub fn texts_range(ls: &Vec<String>, lo: usize, hi: usize) -> (r: Vec<String>)
    requires
        lo <= hi <= ls.len(),
    ensures
        texts(r@) == texts(ls@).subrange(lo as int, hi as int),
{
    let mut r: Vec<String> = Vec::new();
    let mut j = lo;
    while j < hi
        invariant
            lo <= j <= hi <= ls.len(),
            texts(r@) == texts(ls@).subrange(lo as int, j as int),
        decreases hi - j,
    {
        push_text(&mut r, ls[j].clone());
        j += 1;
        assert(texts(r@) =~= texts(ls@).subrange(lo as int, j as int));
    }
    r
}


/// `str::to_lowercase`: full Unicode lower-casing of `s`; on ASCII text it
/// maps `A`-`Z` to `a`-`z` and keeps every other character.
#[verifier::external_body]
pub fn to_lowercase(s: &str) -> (r: String)
    ensures
        r@ == lowercase(s@),
        all_ascii(s@) ==> r@ == s@.map_values(|c: char| ascii_lower(c)),
{
    s.to_lowercase()
}

/// `str::to_uppercase`: full Unicode upper-casing of `s`; on ASCII text it
/// maps `a`-`z` to `A`-`Z` and keeps every other character.
#[verifier::external_body]
pub fn to_uppercase(s: &str) -> (r: String)
    ensures
        r@ == uppercase(s@),
        all_ascii(s@) ==> r@ == s@.map_values(|c: char| ascii_upper(c)),
{
    s.to_uppercase()
}

/// The position of the last `c` in `v`.
pub fn last_index_exec(v: &Vec<char>, c: char) -> (r: Option<usize>)
    ensures
        r matches Some(i) ==> i < v.len(),
        match r {
            Some(i) => last_index(v@, c) == Some(i as int),
            None => last_index(v@, c) is None,
        },
{
    let mut k = v.len();
    assert(v@.subrange(0, k as int) =~= v@);
    while k > 0
        invariant
            k <= v.len(),
            last_index(v@, c) == last_index(v@.subrange(0, k as int), c),
        decreases k,
    {
        if v[k - 1] == c {
            return Some(k - 1);
        }
        assert(v@.subrange(0, k as int).drop_last() =~= v@.subrange(0, k - 1));
        k -= 1;
    }
    None
}

/// The position of the first `c` in `v[lo..]`, counted from `lo`.
pub fn first_index_exec(v: &Vec<char>, c: char) -> (r: Option<usize>)
    ensures
        r matches Some(i) ==> i < v.len(),
        match r {
            Some(i) => first_index(v@, c) == Some(i as int),
            None => first_index(v@, c) is None,
        },
{
    let n = v.len();
    let mut k: usize = 0;
    while k < n
        invariant
            k <= n == v.len(),
            forall|j: int| 0 <= j < k ==> v@[j] != c,
        decreases n - k,
    {
        if v[k] == c {
            proof {
                lemma_first_index_at(v@, c, k as int);
            }
            return Some(k);
        }
        k += 1;
    }
    proof {
        lemma_first_index_none(v@, c);
    }
    None
}

/// `after_last(s, c)` as a `String`.
pub fn after_last_string(s: &str, c: char) -> (r: String)
    ensures
        r@ == after_last(s@, c),
{
    let v = chars_of(s);
    match last_index_exec(&v, c) {
        Some(i) => string_of_range(&v, i + 1, v.len()),
        None => string_of(&v),
    }
}

/// `before_last(s, c)` as a `String`.
pub fn before_last_string(s: &str, c: char) -> (r: String)
    ensures
        r@ == before_last(s@, c),
{
    let v = chars_of(s);
    match last_index_exec(&v, c) {
        Some(i) => string_of_range(&v, 0, i),
        None => string_of(&v),
    }
}

/// `split_once_first(s, c)` as strings.
pub fn split_once_first_exec(s: &str, c: char) -> (r: (String, Option<String>))
    ensures
        r.0@ == split_once_first(s@, c).0,
        match r.1 {
            Some(t) => split_once_first(s@, c).1 == Some(t@),
            None => split_once_first(s@, c).1 is None,
        },
{
    let v = chars_of(s);
    match first_index_exec(&v, c) {
        Some(i) => (string_of_range(&v, 0, i), Some(string_of_range(&v, i + 1, v.len()))),
        None => (string_of(&v), None),
    }
}


/// `s.split(c)` as strings.
pub fn split_all_exec(s: &str, c: char) -> (r: Vec<String>)
    ensures
        texts(r@) == split_all(s@, c),
{
    let v = chars_of(s);
    let mut done: Vec<String> = Vec::new();
    let mut cur = String::new();
    let mut i: usize = 0;
    proof {
        assert(v@.take(0) =~= Seq::<char>::empty());
    }
    while i < v.len()
        invariant
            i <= v.len(),
            v@ == s@,
            texts(done@).push(cur@) == split_all(v@.take(i as int), c),
        decreases v.len() - i,
    {
        proof {
            assert(v@.take(i + 1).drop_last() =~= v@.take(i as int));
            lemma_split_all_nonempty(v@.take(i as int), c);
        }
        if v[i] == c {
            push_text(&mut done, cur);
            cur = String::new();
            assert(texts(done@).push(cur@) =~= split_all(v@.take(i + 1), c));
        } else {
            let ghost before = cur@;
            push_char(&mut cur, v[i]);
            assert(texts(done@).push(cur@) =~= split_all(v@.take(i + 1), c));
        }
        i += 1;
    }
    assert(v@.take(v.len() as int) =~= v@);
    push_text(&mut done, cur);
    done
}


/// Reads `v[lo..hi]` as `parse_i64` does.
pub fn parse_i64_exec(v: &Vec<char>, lo: usize, hi: usize) -> (r: Option<i64>)
    requires
        lo <= hi <= v.len(),
    ensures
        match r {
            Some(x) => parse_i64(v@.subrange(lo as int, hi as int)) == Some(x as int),
            None => parse_i64(v@.subrange(lo as int, hi as int)) is None,
        },
{
    let ghost s = v@.subrange(lo as int, hi as int);
    if lo < hi && v[lo] == '-' {
        let ghost d = s.drop_first();
        assert(d =~= v@.subrange(lo + 1, hi as int));
        if lo + 1 >= hi || v[lo + 1] == '+' {
            proof {
                if d.len() > 0 {
                    assert(!is_digit(d[0]));
                }
            }
            return None;
        }
        assert(unsigned_digits(d) == (if all_digits(d) { Some(d) } else { None }));
        match parse_unsigned_exec(v, lo + 1, hi, 0x8000_0000_0000_0000u64) {
            Some(x) => {
                if x == 0x8000_0000_0000_0000u64 {
                    Some(i64::MIN)
                } else {
                    Some(-(x as i64))
                }
            },
            None => None,
        }
    } else {
        match parse_unsigned_exec(v, lo, hi, 0x7fff_ffff_ffff_ffffu64) {
            Some(x) => Some(x as i64),
            None => None,
        }
    }
}

/// The length of `trim_end_char(v, c)`.
pub fn trim_end_char_len(v: &Vec<char>, c: char) -> (k: usize)
    ensures
        k <= v.len(),
        v@.subrange(0, k as int) == trim_end_char(v@, c),
{
    let mut k = v.len();
    assert(v@.subrange(0, k as int) =~= v@);
    while k > 0 && v[k - 1] == c
        invariant
            k <= v.len(),
            trim_end_char(v@, c) == trim_end_char(v@.subrange(0, k as int), c),
        decreases k,
    {
        assert(v@.subrange(0, k as int).drop_last() =~= v@.subrange(0, k - 1));
        k -= 1;
    }
    k
}

/// The number of leading `c` in `v`, so that `v[k..]` is `trim_start_char(v, c)`.
pub fn trim_start_char_len(v: &Vec<char>, c: char) -> (k: usize)
    ensures
        k <= v.len(),
        v@.subrange(k as int, v.len() as int) == trim_start_char(v@, c),
{
    let n = v.len();
    let mut k: usize = 0;
    assert(v@.subrange(0, n as int) =~= v@);
    while k < n && v[k] == c
        invariant
            k <= n == v.len(),
            trim_start_char(v@, c) == trim_start_char(v@.subrange(k as int, n as int), c),
        decreases n - k,
    {
        assert(v@.subrange(k as int, n as int).drop_first() =~= v@.subrange(k + 1, n as int));
        k += 1;
    }
    k
}

/// Appends `trim_end_char(s, c)` to `out`.
pub fn append_trim_end_char(out: &mut String, s: &str, c: char)
    ensures
        final(out)@ == old(out)@ + trim_end_char(s@, c),
{
    let v = chars_of(s);
    let k = trim_end_char_len(&v, c);
    append_range(out, &v, 0, k);
}

/// `s.trim_matches(c)` as a `String`.
pub fn trim_char_string(s: &str, c: char) -> (r: String)
    ensures
        r@ == trim_char(s@, c),
{
    let v = chars_of(s);
    let lo = trim_start_char_len(&v, c);
    let w = string_of_range(&v, lo, v.len());
    let wv = chars_of(w.as_str());
    let hi = trim_end_char_len(&wv, c);
    string_of_range(&wv, 0, hi)
}

/// Appends the text of `parts` joined by `sep`.
pub fn append_join(out: &mut String, parts: &Vec<String>, sep: &str)
    ensures
        final(out)@ == old(out)@ + join(parts@.map_values(|p: String| p@), sep@),
{
    let ghost start = out@;
    let ghost l = parts@.map_values(|p: String| p@);
    let mut i: usize = 0;
    while i < parts.len()
        invariant
            i <= parts.len(),
            l == parts@.map_values(|p: String| p@),
            out@ == start + join(l.take(i as int), sep@),
        decreases parts.len() - i,
    {
        assert(l.take(i + 1).drop_last() =~= l.take(i as int));
        assert(l.take(i + 1).last() == parts@[i as int]@);
        if i > 0 {
            out.append(sep);
        } else {
            assert(l.take(0) =~= Seq::<Seq<char>>::empty());
        }
        out.append(parts[i].as_str());
        i += 1;
        assert(out@ =~= start + join(l.take(i as int), sep@));
    }
    assert(l.take(parts.len() as int) =~= l);
}

/// Appends the decimal text of `n`.
pub fn push_dec(s: &mut String, n: u64)
    ensures
        final(s)@ == old(s)@ + dec(n as nat),
    decreases n,
{
    if n >= 10 {
        push_dec(s, n / 10);
    }
    let d = n % 10;
    let c = if d == 0 {
        '0'
    } else if d == 1 {
        '1'
    } else if d == 2 {
        '2'
    } else if d == 3 {
        '3'
    } else if d == 4 {
        '4'
    } else if d == 5 {
        '5'
    } else if d == 6 {
        '6'
    } else if d == 7 {
        '7'
    } else if d == 8 {
        '8'
    } else {
        '9'
    };
    push_char(s, c);
}

/// Reads the digits `v[lo..hi]` as `parse_unsigned` does, for a largest value `max`.
pub fn parse_unsigned_exec(v: &Vec<char>, lo: usize, hi: usize, max: u64) -> (r: Option<u64>)
    requires
        lo <= hi <= v.len(),
    ensures
        r matches Some(x) ==> parse_unsigned(v@.subrange(lo as int, hi as int), max as nat) == Some(
            x as nat,
        ),
        r is None ==> parse_unsigned(v@.subrange(lo as int, hi as int), max as nat) is None,
{
    let ghost s = v@.subrange(lo as int, hi as int);
    let mut start = lo;
    if lo < hi && v[lo] == '+' {
        start = lo + 1;
    }
    let ghost d = v@.subrange(start as int, hi as int);
    assert(d =~= (if s.len() > 0 && s[0] == '+' {
        s.drop_first()
    } else {
        s
    }));
    if start >= hi {
        return None;
    }
    let mut acc: u64 = 0;
    let mut i = start;
    while i < hi
        invariant
            start <= i <= hi <= v.len(),
            s == v@.subrange(lo as int, hi as int),
            d == (if s.len() > 0 && s[0] == '+' {
                s.drop_first()
            } else {
                s
            }),
            d.len() > 0,
            d == v@.subrange(start as int, hi as int),
            acc as nat == digits_value(d.take(i - start)),
            acc <= max,
            all_digits(d.take(i - start)),
        decreases hi - i,
    {
        let c = v[i];
        if !('0' <= c && c <= '9') {
            assert(d[i - start] == c);
            assert(!all_digits(d));
            return None;
        }
        let dv = (c as u32 - '0' as u32) as u64;
        assert(d.take(i - start + 1).drop_last() =~= d.take(i - start));
        assert(d.take(i - start + 1).last() == c);
        if dv > max || acc > (max - dv) / 10 {
            proof {
                if dv <= max {
                    assert(acc * 10 + dv > max) by (nonlinear_arith)
                        requires
                            acc > (max - dv) / 10,
                            dv <= max,
                    ;
                }
                lemma_digits_value_prefix(d, i - start + 1);
                assert(!all_digits(d) || digits_value(d) > max);
            }
            return None;
        }
        assert(acc * 10 + dv <= max) by (nonlinear_arith)
            requires
                acc <= (max - dv) / 10,
                dv <= 9,
        ;
        acc = acc * 10 + dv;
        i += 1;
        assert(all_digits(d.take(i - start)));
    }
    assert(d.take(hi - start) =~= d);
    Some(acc)
}

} // verus!
