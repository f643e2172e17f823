//! The name of the process that asks for a signature, as a dialogue shows it.
use vstd::prelude::*;
use vstd::string::StringExecFns;
use crate::text;

verus! {

/// How many characters of a process name are shown.
pub const MAX_PROCESS_NAME: usize = 128;

/// Whether the character is shown as it is.
pub open spec fn safe_char(c: char) -> bool {
    ||| 'a' <= c <= 'z'
    ||| 'A' <= c <= 'Z'
    ||| '0' <= c <= '9'
    ||| c == '.'
    ||| c == '_'
    ||| c == '-'
    ||| c == '+'
}

/// The character that is shown in place of `c`.
pub open spec fn shown(c: char) -> char {
    if safe_char(c) {
        c
    } else {
        '?'
    }
}

/// A process name as it is shown: its first characters, with question marks for
/// those that are not letters, digits or one of a few signs.
pub open spec fn sanitized(name: Seq<char>) -> Seq<char> {
    let len = if name.len() < MAX_PROCESS_NAME {
        name.len() as int
    } else {
        MAX_PROCESS_NAME as int
    };
    name.take(len).map_values(|c: char| shown(c))
}

/// Makes a process name fit to be shown.
pub fn sanitize_process_name(name: &str) -> (r: String)
    ensures
        r@ == sanitized(name@),
{
    let chars = text::chars_of(name);
    let len: usize = if chars.len() < MAX_PROCESS_NAME {
        chars.len()
    } else {
        MAX_PROCESS_NAME
    };
    let mut r = String::new();
    let mut i: usize = 0;
    while i < len
        invariant
            i <= len <= chars@.len(),
            r@ == chars@.take(i as int).map_values(|c: char| shown(c)),
        decreases len - i,
    {
        let c: char = chars[i];
        let safe = ('a' <= c && c <= 'z') || ('A' <= c && c <= 'Z') || ('0' <= c && c <= '9') || c
            == '.' || c == '_' || c == '-' || c == '+';
        r.push(if safe {
            c
        } else {
            '?'
        });
        i = i + 1;
        assert(r@ =~= chars@.take(i as int).map_values(|c: char| shown(c)));
    }
    r
}

/// What a dialogue says of the process with an identifier and the file name of
/// its program, as far as they are known.
pub open spec fn requester(pid: Option<i32>, executable: Option<Seq<char>>) -> Seq<char> {
    match (pid, executable) {
        (None, _) => "unknown process"@,
        (Some(pid), Some(name)) => sanitized(name) + " (pid "@ + text::decimal(pid as int) + ")"@,
        (Some(pid), None) => "process (pid "@ + text::decimal(pid as int) + ")"@,
    }
}

/// Names the process that asks for a signature.
pub fn requester_name(pid: Option<i32>, executable: Option<&str>) -> (r: String)
    ensures
        r@ == requester(pid, executable.deep_view()),
{
    let pid: i32 = match pid {
        Some(pid) => pid,
        None => return "unknown process".to_owned(),
    };
    let number = text::decimal_of(pid);
    let mut r = match executable {
        Some(name) => {
            let mut r = sanitize_process_name(name);
            r.append(" (pid ");
            r
        },
        None => "process (pid ".to_owned(),
    };
    r.append(number.as_str());
    r.append(")");
    r
}

/// A shown process name is short and holds nothing but safe characters and
/// question marks, and making it fit once more changes nothing.
pub proof fn law_sanitized_name_is_safe(name: Seq<char>)
    ensures
        sanitized(name).len() <= MAX_PROCESS_NAME,
        forall|i: int|
            0 <= i < sanitized(name).len() ==> safe_char(#[trigger] sanitized(name)[i])
                || sanitized(name)[i] == '?',
        sanitized(sanitized(name)) == sanitized(name),
{
    assert(sanitized(sanitized(name)) =~= sanitized(name));
}

/// Whether the character can stand in the name of a requester.
pub open spec fn requester_char(c: char) -> bool {
    safe_char(c) || c == '?' || c == ' ' || c == '(' || c == ')'
}

/// Whatever a program is called, the name of the process in a dialogue holds
/// nothing but safe characters, question marks, blanks and brackets.
pub proof fn law_requester_is_safe(pid: Option<i32>, executable: Option<Seq<char>>)
    ensures
        forall|i: int|
            0 <= i < requester(pid, executable).len() ==> requester_char(
                #[trigger] requester(pid, executable)[i],
            ),
{
    reveal_strlit("unknown process");
    reveal_strlit(" (pid ");
    reveal_strlit("process (pid ");
    reveal_strlit(")");
    if let Some(pid) = pid {
        lemma_decimal_is_safe(pid as int);
        if let Some(name) = executable {
            law_sanitized_name_is_safe(name);
        }
    }
}

proof fn lemma_decimal_is_safe(n: int)
    ensures
        forall|i: int| 0 <= i < text::decimal(n).len() ==> safe_char(#[trigger] text::decimal(n)[i]),
{
    lemma_digits_are_safe(
        if n < 0 {
            (-n) as nat
        } else {
            n as nat
        },
    );
}

proof fn lemma_digits_are_safe(n: nat)
    ensures
        forall|i: int|
            0 <= i < text::decimal_digits(n).len() ==> safe_char(
                #[trigger] text::decimal_digits(n)[i],
            ),
    decreases n,
{
    if n >= 10 {
        let head = text::decimal_digits(n / 10);
        lemma_digits_are_safe(n / 10);
        assert forall|i: int| 0 <= i < text::decimal_digits(n).len() implies safe_char(
            #[trigger] text::decimal_digits(n)[i],
        ) by {
            if i < head.len() {
                assert(text::decimal_digits(n)[i] == head[i]);
            }
        }
    }
}

} // verus!
