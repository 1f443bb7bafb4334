//! Handler logic of a small number-guessing service built on the transformers.

use vstd::prelude::*;
use vstd::string::StringExecFns;
use crate::catch::{catch, transparent_stop};
use crate::response::{default_response, plain_view, transparent, Response, ResponseView};
use crate::status::{digit_char, nat_text};

verus! {

/// A handler that always fails with `"bad"`.
pub fn bad() -> (r: Result<&'static str, &'static str>)
    ensures
        r matches Err(e) && e@ == "bad"@,
{
    proof {
        reveal_strlit("bad");
    }
    Err("bad")
}

/// A handler that always succeeds with `"good"`.
pub fn good() -> (r: Result<&'static str, &'static str>)
    ensures
        r matches Ok(v) && v@ == "good"@,
{
    proof {
        reveal_strlit("good");
    }
    Ok("good")
}

#[verifier::external_type_specification]
#[verifier::external_body]
pub struct ExParseIntError(std::num::ParseIntError);

/// Whether every character is a decimal digit, and there is at least one.
pub open spec fn is_digits(s: Seq<char>) -> bool {
    s.len() > 0 && forall|i: int| 0 <= i < s.len() ==> '0' <= #[trigger] s[i] && s[i] <= '9'
}

/// The value of a run of decimal digits.
pub open spec fn digits_value(s: Seq<char>) -> int
    decreases s.len(),
{
    if s.len() == 0 {
        0
    } else {
        digits_value(s.drop_last()) * 10 + (s.last() as int - '0' as int)
    }
}

/// The integer that `s` writes: an optional sign, then decimal digits.
pub open spec fn decimal_int(s: Seq<char>) -> Option<int> {
    if s.len() > 0 && (s[0] == '+' || s[0] == '-') {
        let t = s.drop_first();
        if is_digits(t) {
            Some(if s[0] == '-' { -digits_value(t) } else { digits_value(t) })
        } else {
            None
        }
    } else if is_digits(s) {
        Some(digits_value(s))
    } else {
        None
    }
}

/// Whether `s` writes an integer that fits in an `i32`.
pub open spec fn parses_as_i32(s: Seq<char>) -> bool {
    decimal_int(s) matches Some(v) && i32::MIN <= v <= i32::MAX
}

/// Relies on `i32::from_str`: an optional `+` or `-` sign followed by
/// decimal digits, whose value must fit in an `i32`.
#[verifier::external_body]
fn parse_i32(s: &str) -> (r: Result<i32, std::num::ParseIntError>)
    ensures
        r is Ok <==> parses_as_i32(s@),
        r matches Ok(v) ==> decimal_int(s@) == Some(v as int),
{
    s.parse::<i32>()
}

/// The decimal text of an integer, with a leading `-` when negative.
pub open spec fn int_text(n: int) -> Seq<char> {
    if n < 0 {
        seq!['-'] + nat_text((-n) as nat)
    } else {
        nat_text(n as nat)
    }
}

/// Relies on the `Display` impl of `i32`: decimal digits, with a leading
/// `-` when negative.
#[verifier::external_body]
fn i32_text(n: i32) -> (r: String)
    ensures
        r@ == int_text(n as int),
{
    n.to_string()
}

/// The message for an empty guess.
pub open spec fn empty_message() -> Seq<char> {
    "You must provide a number."@
}

/// The message for a guess with more than five characters.
pub open spec fn long_message() -> Seq<char> {
    "The number is too long. Try again with fewer digits."@
}

/// The message for a guess below the secret number.
pub open spec fn low_message(n: int) -> Seq<char> {
    "The number "@ + int_text(n) + " is too low. Try higher :)"@
}

/// The message for a guess above the secret number.
pub open spec fn high_message(n: int) -> Seq<char> {
    "The number "@ + int_text(n) + " is too high. Try lower :)"@
}

/// The message for the right guess.
pub open spec fn win_message(n: int) -> Seq<char> {
    "Nice! You guessed the right number, which is "@ + int_text(n) + "!!!"@
}

/// The number to guess.
pub const SECRET: i32 = 69;

/// The number of bytes that `s` takes in UTF-8.
pub open spec fn utf8_len(s: Seq<char>) -> nat {
    vstd::utf8::encode_utf8(s).len()
}

/// Accepts a guess of one to five bytes.
pub fn validate_length(number: String) -> (r: Result<String, &'static str>)
    ensures
        number@.len() == 0 ==> (r matches Err(e) && e@ == empty_message()),
        number@.len() > 0 && utf8_len(number@) > 5 ==> (r matches Err(e) && e@
            == long_message()),
        number@.len() > 0 && utf8_len(number@) <= 5 ==> r == Ok::<
            String,
            &'static str,
        >(number),
{
    proof {
        reveal_strlit("You must provide a number.");
        reveal_strlit("The number is too long. Try again with fewer digits.");
    }
    if number.as_str().is_empty() {
        Err("You must provide a number.")
    } else if number.as_str().as_bytes().len() > 5 {
        Err("The number is too long. Try again with fewer digits.")
    } else {
        Ok(number)
    }
}

/// Compares a guess with the secret number.
pub fn validate_range(number: i32) -> (r: Result<String, String>)
    ensures
        number < SECRET ==> (r matches Err(e) && e@ == low_message(number as int)),
        number == SECRET ==> (r matches Ok(v) && v@ == win_message(number as int)),
        number > SECRET ==> (r matches Err(e) && e@ == high_message(number as int)),
{
    proof {
        reveal_strlit("The number ");
        reveal_strlit(" is too low. Try higher :)");
        reveal_strlit(" is too high. Try lower :)");
        reveal_strlit("Nice! You guessed the right number, which is ");
        reveal_strlit("!!!");
    }
    let text = i32_text(number);
    if number < SECRET {
        Err(String::from_str("The number ").concat(text.as_str()).concat(" is too low. Try higher :)"))
    } else if number == SECRET {
        Ok(String::from_str("Nice! You guessed the right number, which is ").concat(text.as_str()).concat("!!!"))
    } else {
        Err(String::from_str("The number ").concat(text.as_str()).concat(" is too high. Try lower :)"))
    }
}

/// The outcome of a guess.
pub enum Guess {
    /// The right number, with the message for the winner.
    Answer(String),
    /// A response that turns the guess down.
    Rejected(Response),
    /// The guess is not an integer; the parse error is left for a custom
    /// handler to render.
    NotANumber(std::num::ParseIntError),
}

/// What a guess outcome is made of.
pub enum GuessView {
    Answer(Seq<char>),
    Rejected(ResponseView),
    NotANumber,
}

impl View for Guess {
    type V = GuessView;

    open spec fn view(&self) -> GuessView {
        match self {
            Guess::Answer(s) => GuessView::Answer(s@),
            Guess::Rejected(r) => GuessView::Rejected(r@),
            Guess::NotANumber(_) => GuessView::NotANumber,
        }
    }
}

/// The status code of a rejected guess.
pub const BAD_REQUEST: u16 = 400;

/// The outcome of guessing with the text `s`.
pub open spec fn guess_outcome(s: Seq<char>) -> GuessView {
    if s.len() == 0 {
        GuessView::Rejected(plain_view(BAD_REQUEST, empty_message()))
    } else if utf8_len(s) > 5 {
        GuessView::Rejected(plain_view(BAD_REQUEST, long_message()))
    } else if !parses_as_i32(s) {
        GuessView::NotANumber
    } else {
        let v = decimal_int(s).unwrap();
        if v < SECRET {
            GuessView::Rejected(plain_view(BAD_REQUEST, low_message(v)))
        } else if v == SECRET {
            GuessView::Answer(win_message(v))
        } else {
            GuessView::Rejected(plain_view(BAD_REQUEST, high_message(v)))
        }
    }
}

/// Checks a guess: its length, that it is an integer, then its value.
/// Length and range failures are shown to the user as they are.
pub fn guess(number: String) -> (r: Guess)
    ensures
        r@ == guess_outcome(number@),
{
    let number = match validate_length(number) {
        Ok(n) => n,
        Err(msg) => {
            let shown = catch(BAD_REQUEST, transparent, default_response);
            return Guess::Rejected(shown.apply(String::from_str(msg)));
        },
    };
    let n = match parse_i32(number.as_str()) {
        Ok(n) => n,
        Err(e) => {
            return Guess::NotANumber(e);
        },
    };
    match validate_range(n) {
        Ok(s) => Guess::Answer(s),
        Err(msg) => Guess::Rejected(transparent_stop(BAD_REQUEST).apply(msg)),
    }
}

} // verus!
