use vstd::prelude::*;
use vstd::string::*;

verus! {

/// The character that stands for one decimal digit.
pub open spec fn digit_char(d: int) -> char {
    if d == 0 {
        '0'
    } else if d == 1 {
        '1'
    } else if d == 2 {
        '2'
    } else if d == 3 {
        '3'
    } else if d == 4 {
        '4'
    } else if d == 5 {
        '5'
    } else if d == 6 {
        '6'
    } else if d == 7 {
        '7'
    } else if d == 8 {
        '8'
    } else {
        '9'
    }
}

/// The decimal numeral of a natural number: most significant digit first,
/// no leading zero, and `"0"` for zero.
pub open spec fn decimal(n: nat) -> Seq<char>
    decreases n,
{
    if n < 10 {
        seq![digit_char(n as int)]
    } else {
        decimal(n / 10) + seq![digit_char((n % 10) as int)]
    }
}

/// What `{:?}` prints for a string slice: the text between double quotes,
/// with the escapes that the standard library applies. Left uninterpreted;
/// it is a function of the characters alone.
pub uninterp spec fn str_debug(s: Seq<char>) -> Seq<char>;

/// What `{:?}` prints for a BSON date-time that stands `millis` milliseconds
/// from the Unix epoch. Left uninterpreted; it is a function of the number
/// alone, since the rendering is always in UTC.
pub uninterp spec fn date_time_debug(millis: i64) -> Seq<char>;

/// `<str as Debug>::fmt`, reached through `format!`. The contract only names
/// the result: equal texts are printed alike.
#[verifier::external_body]
pub(crate) fn debug_str(s: &str) -> (text: String)
    ensures
        text@ == str_debug(s@),
{
    format!("{:?}", s)
}

/// `<bson::DateTime as Debug>::fmt`, reached through `format!` on the value
/// that `DateTime::from_millis` makes of `millis`. The contract only names the
/// result: the date-time is a wrapper around the number, and its rendering
/// reads nothing else.
#[verifier::external_body]
pub(crate) fn debug_date_time(millis: i64) -> (text: String)
    ensures
        text@ == date_time_debug(millis),
{
    format!("{:?}", mongodb::bson::DateTime::from_millis(millis))
}

/// `bson::DateTime::now`, read back as milliseconds since the Unix epoch.
/// Nothing is promised of the clock.
#[verifier::external_body]
pub(crate) fn current_millis() -> (millis: i64) {
    mongodb::bson::DateTime::now().timestamp_millis()
}

fn digit_text(d: u64) -> (text: &'static str)
    requires
        d < 10,
    ensures
        text@ == seq![digit_char(d as int)],
{
    proof {
        reveal_strlit("0");
        reveal_strlit("1");
        reveal_strlit("2");
        reveal_strlit("3");
        reveal_strlit("4");
        reveal_strlit("5");
        reveal_strlit("6");
        reveal_strlit("7");
        reveal_strlit("8");
        reveal_strlit("9");
    }
    let text: &'static str = if d == 0 {
        "0"
    } else if d == 1 {
        "1"
    } else if d == 2 {
        "2"
    } else if d == 3 {
        "3"
    } else if d == 4 {
        "4"
    } else if d == 5 {
        "5"
    } else if d == 6 {
        "6"
    } else if d == 7 {
        "7"
    } else if d == 8 {
        "8"
    } else {
        "9"
    };
    assert(text@ =~= seq![digit_char(d as int)]);
    text
}

/// Renders a count in decimal.
pub fn decimal_text(n: u64) -> (text: String)
    ensures
        text@ == decimal(n as nat),
    decreases n,
{
    if n < 10 {
        String::from_str(digit_text(n))
    } else {
        let mut text = decimal_text(n / 10);
        text.append(digit_text(n % 10));
        text
    }
}

/// The text `head` followed by the text `tail`.
pub fn join_text(head: &str, tail: &str) -> (text: String)
    ensures
        text@ == head@ + tail@,
{
    let mut text = String::from_str(head);
    text.append(tail);
    text
}

} // verus!
