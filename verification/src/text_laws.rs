//! What holds of every text operation, and of the texts that dialogues show.
use vstd::prelude::*;
use crate::prompt::AttemptsView;
use crate::requester::{requester, sanitized};
use crate::text::{
    decimal, decimal_digits, digit, has_prefix, joined, occurs_at, occurs_in, replaced, trimmed_end,
};
use crate::unicode::{trimmed, trimmed_start, trimmed_tail, unicode_whitespace};

verus! {

/// A text that has a prefix is the prefix followed by a rest, and the other way
/// round.
pub proof fn law_prefix_splits_off(s: Seq<char>, prefix: Seq<char>, rest: Seq<char>)
    ensures
        has_prefix(prefix + rest, prefix),
        has_prefix(s, prefix) ==> s == prefix + s.skip(prefix.len() as int),
{
    assert((prefix + rest).take(prefix.len() as int) =~= prefix);
    if has_prefix(s, prefix) {
        assert(s =~= s.take(prefix.len() as int) + s.skip(prefix.len() as int));
    }
}

/// A pattern is found in every text that has it anywhere.
pub proof fn law_occurrence_is_found(before: Seq<char>, pattern: Seq<char>, after: Seq<char>)
    ensures
        occurs_in(before + pattern + after, pattern),
{
    let s = before + pattern + after;
    let at = before.len() as int;
    assert(s.subrange(at, at + pattern.len()) =~= pattern);
    assert(occurs_at(s, pattern, at));
}

/// Where a pattern is found, the text has it between two other texts.
pub proof fn law_found_pattern_is_there(s: Seq<char>, pattern: Seq<char>) -> (r: (
    Seq<char>,
    Seq<char>,
))
    requires
        occurs_in(s, pattern),
    ensures
        s == r.0 + pattern + r.1,
{
    let at = choose|at: int| occurs_at(s, pattern, at);
    let before = s.take(at);
    let after = s.skip(at + pattern.len());
    assert(s =~= before + s.subrange(at, at + pattern.len()) + after);
    (before, after)
}

/// A text without its trailing copies of a character does not end in it, and
/// nothing but such copies is gone.
pub proof fn law_trimmed_end_takes_copies_only(s: Seq<char>, c: char)
    ensures
        trimmed_end(s, c).len() <= s.len(),
        trimmed_end(s, c) == s.take(trimmed_end(s, c).len() as int),
        trimmed_end(s, c).len() > 0 ==> trimmed_end(s, c).last() != c,
        forall|i: int| trimmed_end(s, c).len() <= i < s.len() ==> #[trigger] s[i] == c,
    decreases s.len(),
{
    if s.len() > 0 && s.last() == c {
        let head = s.drop_last();
        law_trimmed_end_takes_copies_only(head, c);
        let kept = trimmed_end(head, c).len() as int;
        assert(head.take(kept) =~= s.take(kept));
        assert forall|i: int| kept <= i < s.len() implies #[trigger] s[i] == c by {
            if i < head.len() {
                assert(head[i] == s[i]);
            }
        }
    } else {
        assert(s.take(s.len() as int) =~= s);
    }
}

/// A text without the whitespace at its ends neither starts nor ends in
/// whitespace, and nothing but whitespace is gone.
pub proof fn law_trimmed_takes_whitespace_only(s: Seq<char>) -> (r: (int, int))
    ensures
        0 <= r.0 <= r.1 <= s.len(),
        trimmed(s) == s.subrange(r.0, r.1),
        r.0 < r.1 ==> !unicode_whitespace(s[r.0]) && !unicode_whitespace(s[r.1 - 1]),
        forall|i: int| 0 <= i < r.0 || r.1 <= i < s.len() ==> unicode_whitespace(#[trigger] s[i]),
{
    let from = lemma_start_is_trimmed(s);
    let rest = s.skip(from);
    let len = lemma_tail_is_trimmed(rest);
    assert(rest.take(len) =~= s.subrange(from, from + len));
    assert forall|i: int| 0 <= i < from || from + len <= i < s.len() implies unicode_whitespace(
        #[trigger] s[i],
    ) by {
        if i >= from {
            assert(rest[i - from] == s[i]);
        }
    }
    (from, from + len)
}

proof fn lemma_start_is_trimmed(s: Seq<char>) -> (from: int)
    ensures
        0 <= from <= s.len(),
        trimmed_start(s) == s.skip(from),
        from < s.len() ==> !unicode_whitespace(s[from]),
        forall|i: int| 0 <= i < from ==> unicode_whitespace(#[trigger] s[i]),
    decreases s.len(),
{
    if s.len() > 0 && unicode_whitespace(s[0]) {
        let rest = s.drop_first();
        let from = lemma_start_is_trimmed(rest);
        assert(rest.skip(from) =~= s.skip(from + 1));
        assert forall|i: int| 0 <= i < from + 1 implies unicode_whitespace(#[trigger] s[i]) by {
            if i > 0 {
                assert(rest[i - 1] == s[i]);
            }
        }
        from + 1
    } else {
        assert(s.skip(0) =~= s);
        0
    }
}

proof fn lemma_tail_is_trimmed(s: Seq<char>) -> (len: int)
    ensures
        0 <= len <= s.len(),
        trimmed_tail(s) == s.take(len),
        len > 0 ==> !unicode_whitespace(s[len - 1]),
        forall|i: int| len <= i < s.len() ==> unicode_whitespace(#[trigger] s[i]),
    decreases s.len(),
{
    if s.len() > 0 && unicode_whitespace(s.last()) {
        let head = s.drop_last();
        let len = lemma_tail_is_trimmed(head);
        assert(head.take(len) =~= s.take(len));
        assert forall|i: int| len <= i < s.len() implies unicode_whitespace(#[trigger] s[i]) by {
            if i < head.len() {
                assert(head[i] == s[i]);
            }
        }
        len
    } else {
        assert(s.take(s.len() as int) =~= s);
        s.len() as int
    }
}

/// One more part is joined to the others by the separator, and a first part
/// stands alone.
pub proof fn law_joined_by_the_separator(
    parts: Seq<Seq<char>>,
    part: Seq<char>,
    separator: Seq<char>,
)
    ensures
        joined(seq![part], separator) == part,
        joined(Seq::empty(), separator) == Seq::<char>::empty(),
        parts.len() > 0 ==> joined(parts.push(part), separator) == joined(parts, separator)
            + separator + part,
{
    assert(parts.push(part).drop_last() =~= parts);
}

/// Where the searched text does not occur, nothing is replaced.
pub proof fn law_nothing_else_is_replaced(s: Seq<char>, from: Seq<char>, to: Seq<char>)
    requires
        !occurs_in(s, from),
    ensures
        replaced(s, from, to) == s,
    decreases s.len(),
{
    if s.len() > 0 {
        assert(s.subrange(0, s.len() as int) =~= s);
        if has_prefix(s, from) {
            assert(s.subrange(0, from.len() as int) =~= s.take(from.len() as int));
            assert(occurs_at(s, from, 0));
        }
        let rest = s.skip(1);
        if occurs_in(rest, from) {
            let at = choose|at: int| occurs_at(rest, from, at);
            assert(rest.subrange(at, at + from.len()) =~= s.subrange(
                at + 1,
                at + 1 + from.len(),
            ));
            assert(occurs_at(s, from, at + 1));
        }
        law_nothing_else_is_replaced(rest, from, to);
        assert(seq![s[0]] + rest =~= s);
    }
}

/// A text that starts with what is searched for, and has it nowhere else, has its
/// start replaced.
pub proof fn law_start_is_replaced(from: Seq<char>, rest: Seq<char>, to: Seq<char>)
    requires
        from.len() > 0,
        !occurs_in(rest, from),
    ensures
        replaced(from + rest, from, to) == to + rest,
{
    law_prefix_splits_off(from + rest, from, rest);
    assert((from + rest).skip(from.len() as int) =~= rest);
    law_nothing_else_is_replaced(rest, from, to);
}

/// The number that some decimal digits stand for.
pub open spec fn number_of(digits: Seq<char>) -> int
    decreases digits.len(),
{
    if digits.len() == 0 {
        0
    } else {
        number_of(digits.drop_last()) * 10 + (digits.last() as int - '0' as int)
    }
}

/// The decimal notation of a number is made of digits, has no leading zero unless
/// it is zero, and stands for the number; that of a negative number starts with a
/// minus sign.
pub proof fn law_decimal_stands_for_its_number(n: int)
    ensures
        n >= 0 ==> number_of(decimal(n)) == n,
        n >= 0 ==> forall|i: int|
            0 <= i < decimal(n).len() ==> '0' <= #[trigger] decimal(n)[i] <= '9',
        n > 0 ==> decimal(n).len() > 0 && decimal(n)[0] != '0',
        n == 0 ==> decimal(n) == seq!['0'],
        n < 0 ==> decimal(n) == seq!['-'] + decimal(-n),
{
    if n >= 0 {
        lemma_digits_stand_for_their_number(n as nat);
    }
}

proof fn lemma_digits_stand_for_their_number(n: nat)
    ensures
        decimal_digits(n).len() > 0,
        number_of(decimal_digits(n)) == n,
        forall|i: int|
            0 <= i < decimal_digits(n).len() ==> '0' <= #[trigger] decimal_digits(n)[i] <= '9',
        n > 0 ==> decimal_digits(n)[0] != '0',
    decreases n,
{
    let digits = decimal_digits(n);
    lemma_digit(n % 10);
    if n < 10 {
        assert(n % 10 == n);
        assert(digits.drop_last() =~= Seq::empty());
        assert(number_of(Seq::<char>::empty()) == 0);
        assert(digits.last() == digit(n));
    } else {
        let head = decimal_digits(n / 10);
        lemma_digits_stand_for_their_number(n / 10);
        assert(digits.drop_last() =~= head);
        assert(digits.last() == digit(n % 10));
        assert forall|i: int| 0 <= i < digits.len() implies '0' <= #[trigger] digits[i] <= '9' by {
            if i < head.len() {
                assert(digits[i] == head[i]);
            }
        }
        assert(digits[0] == head[0]);
    }
}

proof fn lemma_digit(n: nat)
    requires
        n < 10,
    ensures
        '0' <= digit(n) <= '9',
        digit(n) as int - '0' as int == n,
{
}

/// The dialogue of a first attempt shows no error. That of a later one shows why
/// the last answer was turned down, and the number of the attempt out of three.
/// After the third there is none.
pub proof fn law_later_attempts_show_the_reason(attempt: AttemptsView, message: Seq<char>)
    ensures
        AttemptsView::first().number == 1,
        AttemptsView::first().error() is None,
        attempt.turned_down(message) is Some <==> attempt.number < 3,
        attempt.turned_down(message) matches Some(next) ==> {
            &&& next.number == attempt.number + 1
            &&& next.error() == Some(
                message + " (attempt "@ + decimal(attempt.number + 1) + "/3)"@,
            )
        },
{
}

/// A shown process name has the characters of the name, up to a hundred and
/// twenty-eight of them; letters and digits of ASCII, dots, underscores, hyphens
/// and plus signs stay, and any other becomes a question mark.
pub proof fn law_shown_name_keeps_safe_characters(name: Seq<char>)
    ensures
        name.len() <= 128 ==> sanitized(name).len() == name.len(),
        name.len() > 128 ==> sanitized(name).len() == 128,
        forall|i: int|
            0 <= i < sanitized(name).len() ==> {
                let c = name[i];
                #[trigger] sanitized(name)[i] == if 'a' <= c <= 'z' || 'A' <= c <= 'Z' || '0' <= c
                    <= '9' || c == '.' || c == '_' || c == '-' || c == '+' {
                    c
                } else {
                    '?'
                }
            },
{
}

/// A dialogue names a process by its program, as far as that is known, and by its
/// number; a process without a number is unknown.
pub proof fn law_requester_names_program_and_number(pid: i32, executable: Seq<char>)
    ensures
        requester(Some(pid), Some(executable)) == sanitized(executable) + " (pid "@ + decimal(
            pid as int,
        ) + ")"@,
        requester(Some(pid), None) == "process (pid "@ + decimal(pid as int) + ")"@,
        requester(None, Some(executable)) == "unknown process"@,
        requester(None, None) == "unknown process"@,
{
}

} // verus!
