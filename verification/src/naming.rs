//! The names of a session's files.

use vstd::prelude::*;

verus! {

/// The character that stands for a digit; `'0'` for a number that is none.
pub open spec fn spec_digit(d: nat) -> char {
    if d == 1 {
        '1'
    } else if d == 2 {
        '2'
    } else if d == 3 {
        '3'
    } else if d == 4 {
        '4'
    } else if d == 5 {
        '5'
    } else if d == 6 {
        '6'
    } else if d == 7 {
        '7'
    } else if d == 8 {
        '8'
    } else if d == 9 {
        '9'
    } else {
        '0'
    }
}

/// A number written in base ten, without sign and without leading zeros.
pub open spec fn spec_decimal(n: nat) -> Seq<char>
    decreases n,
{
    if n < 10 {
        seq![spec_digit(n)]
    } else {
        spec_decimal(n / 10).push(spec_digit(n % 10))
    }
}

/// `text` with each `from` in it exchanged for `to`.
pub open spec fn spec_replace(text: Seq<char>, from: char, to: Seq<char>) -> Seq<char>
    decreases text.len(),
{
    if text.len() == 0 {
        Seq::<char>::empty()
    } else if text.last() == from {
        spec_replace(text.drop_last(), from, to) + to
    } else {
        spec_replace(text.drop_last(), from, to).push(text.last())
    }
}

/// What every file of a gamepad begins with: the gamepad's name with `_` for
/// each blank, `_`, the gamepad's number, `_`.
pub open spec fn spec_controller_name_prefix(name: Seq<char>, id: usize) -> Seq<char> {
    spec_replace(name, ' ', seq!['_']) + seq!['_'] + spec_decimal(id as nat) + seq!['_']
}

/// The name of a session's file: what the gamepad's files begin with, the
/// kind of the file, `_`, the session's stamp, `.csv`.
pub open spec fn spec_file_name(prefix: Seq<char>, kind: Seq<char>, stamp: Seq<char>) -> Seq<char> {
    prefix + kind + seq!['_'] + stamp + seq!['.', 'c', 's', 'v']
}

/// The kind of the file that holds the presses of buttons.
pub open spec fn spec_buttons_kind() -> Seq<char> {
    seq!['b', 'u', 't', 't', 'o', 'n', 's']
}

/// The kind of the file that holds the moves of the sticks.
pub open spec fn spec_sticks_kind() -> Seq<char> {
    seq!['s', 't', 'i', 'c', 'k', 's']
}

/// One digit as text.
fn digit_text(d: usize) -> (t: &'static str)
    requires
        d < 10,
    ensures
        t@ == seq![spec_digit(d as nat)],
{
    proof {
        reveal_strlit("0");
        reveal_strlit("1");
        reveal_strlit("2");
        reveal_strlit("3");
        reveal_strlit("4");
        reveal_strlit("5");
        reveal_strlit("6");
        reveal_strlit("7");
        reveal_strlit("8");
        reveal_strlit("9");
    }
    let t = if d == 0 {
        "0"
    } else if d == 1 {
        "1"
    } else if d == 2 {
        "2"
    } else if d == 3 {
        "3"
    } else if d == 4 {
        "4"
    } else if d == 5 {
        "5"
    } else if d == 6 {
        "6"
    } else if d == 7 {
        "7"
    } else if d == 8 {
        "8"
    } else {
        "9"
    };
    assert(t@ =~= seq![spec_digit(d as nat)]);
    t
}

/// Writes a number in base ten.
pub fn decimal(n: usize) -> (text: String)
    ensures
        text@ == spec_decimal(n as nat),
    decreases n,
{
    if n < 10 {
        String::from_str(digit_text(n))
    } else {
        let mut text = decimal(n / 10);
        text.append(digit_text(n % 10));
        assert(text@ =~= spec_decimal(n as nat));
        text
    }
}

/// Exchanges each `from` in `text` for `to`.
pub fn replace_char(text: &str, from: char, to: &str) -> (replaced: String)
    ensures
        replaced@ == spec_replace(text@, from, to@),
{
    let n: usize = text.unicode_len();
    let mut replaced = String::new();
    let mut i: usize = 0;
    while i < n
        invariant
            0 <= i <= n,
            n == text@.len(),
            replaced@ == spec_replace(text@.take(i as int), from, to@),
        decreases n - i,
    {
        let c = text.get_char(i);
        proof {
            assert(text@.take(i + 1).drop_last() =~= text@.take(i as int));
            assert(text@.take(i + 1).last() == c);
        }
        if c == from {
            replaced.append(to);
        } else {
            replaced.append(text.substring_char(i, i + 1));
            assert(text@.subrange(i as int, i + 1) =~= seq![c]);
            assert(replaced@ =~= spec_replace(text@.take(i as int), from, to@).push(c));
        }
        i = i + 1;
    }
    assert(text@.take(n as int) =~= text@);
    replaced
}

/// The pattern of a session's stamp: year, month and day, then hour, minute
/// and second, the greater unit before the smaller.
pub open spec fn spec_stamp_pattern() -> Seq<char> {
    "%Y-%m-%d_%H-%M-%S"@
}

/// What chrono writes for the moment `secs` seconds after the beginning of
/// 1970 under `pattern`, or nothing where chrono's calendar does not reach
/// that moment.
pub uninterp spec fn spec_formatted_moment(secs: int, pattern: Seq<char>) -> Option<Seq<char>>;

/// A text that may be missing, as a sequence of characters.
pub open spec fn spec_text(text: Option<String>) -> Option<Seq<char>> {
    match text {
        Some(t) => Some(t@),
        None => None,
    }
}

/// Calls chrono's `DateTime::from_timestamp` and, on the moment it gives,
/// `NaiveDateTime::format`. The result depends on the two arguments alone;
/// it is not said here what it is. The pattern is held to the session's
/// stamp, which chrono can always write.
#[verifier::external_body]
fn format_moment(secs: i64, pattern: &str) -> (text: Option<String>)
    requires
        pattern@ == spec_stamp_pattern(),
    ensures
        spec_text(text) == spec_formatted_moment(secs as int, pattern@),
{
    match chrono::DateTime::from_timestamp(secs, 0) {
        Some(moment) => Some(moment.naive_utc().format(pattern).to_string()),
        None => None,
    }
}

/// The stamp of a session that begins `local_secs` seconds after the
/// beginning of 1970 on the local clock, or nothing for a moment that the
/// calendar does not reach.
pub fn session_stamp(local_secs: i64) -> (stamp: Option<String>)
    ensures
        spec_text(stamp) == spec_formatted_moment(local_secs as int, spec_stamp_pattern()),
{
    format_moment(local_secs, "%Y-%m-%d_%H-%M-%S")
}

/// What every file of the gamepad `id`, called `name`, begins with.
pub fn make_controller_name_prefix(name: &str, id: usize) -> (prefix: String)
    ensures
        prefix@ == spec_controller_name_prefix(name@, id),
{
    proof {
        reveal_strlit("_");
    }
    let mut prefix = replace_char(name, ' ', "_");
    assert("_"@ =~= seq!['_']);
    prefix.append("_");
    let number = decimal(id);
    prefix.append(number.as_str());
    prefix.append("_");
    prefix
}

/// The names of the two files of a session, first the one for buttons, then
/// the one for sticks.
pub fn session_file_names(prefix: &str, stamp: &str) -> (names: (String, String))
    ensures
        names.0@ == spec_file_name(prefix@, spec_buttons_kind(), stamp@),
        names.1@ == spec_file_name(prefix@, spec_sticks_kind(), stamp@),
{
    proof {
        reveal_strlit("_");
        reveal_strlit(".csv");
        reveal_strlit("buttons");
        reveal_strlit("sticks");
    }
    assert("_"@ =~= seq!['_']);
    assert(".csv"@ =~= seq!['.', 'c', 's', 'v']);
    assert("buttons"@ =~= spec_buttons_kind());
    assert("sticks"@ =~= spec_sticks_kind());
    let mut buttons = String::from_str(prefix);
    buttons.append("buttons");
    buttons.append("_");
    buttons.append(stamp);
    buttons.append(".csv");
    let mut sticks = String::from_str(prefix);
    sticks.append("sticks");
    sticks.append("_");
    sticks.append(stamp);
    sticks.append(".csv");
    (buttons, sticks)
}

} // verus!
