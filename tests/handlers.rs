use apierr::handlers::{bad, good, guess, validate_length, validate_range, Guess};

fn rejected(g: Guess) -> (u16, String) {
    match g {
        Guess::Rejected(r) => (r.status.code(), r.body),
        _ => panic!("expected a rejection"),
    }
}

#[test]
fn bad_and_good() {
    assert_eq!(bad(), Err("bad"));
    assert_eq!(good(), Ok("good"));
}

#[test]
fn empty_guess() {
    assert_eq!(
        rejected(guess(String::new())),
        (400, "You must provide a number.".to_string())
    );
}

#[test]
fn long_guess() {
    assert_eq!(
        rejected(guess("123456".to_string())),
        (400, "The number is too long. Try again with fewer digits.".to_string())
    );
    // Three two-byte characters make six bytes.
    assert_eq!(
        rejected(guess("ééé".to_string())),
        (400, "The number is too long. Try again with fewer digits.".to_string())
    );
}

#[test]
fn not_a_number_guess() {
    for s in ["abc", "1a", "-", "+", " 12", "ééx"] {
        match guess(s.to_string()) {
            Guess::NotANumber(e) => assert!(!e.to_string().is_empty()),
            _ => panic!("expected a parse failure for {s:?}"),
        }
    }
}

#[test]
fn low_and_high_guesses() {
    assert_eq!(
        rejected(guess("12".to_string())),
        (400, "The number 12 is too low. Try higher :)".to_string())
    );
    assert_eq!(
        rejected(guess("-5".to_string())),
        (400, "The number -5 is too low. Try higher :)".to_string())
    );
    assert_eq!(
        rejected(guess("68".to_string())),
        (400, "The number 68 is too low. Try higher :)".to_string())
    );
    assert_eq!(
        rejected(guess("70".to_string())),
        (400, "The number 70 is too high. Try lower :)".to_string())
    );
    assert_eq!(
        rejected(guess("99999".to_string())),
        (400, "The number 99999 is too high. Try lower :)".to_string())
    );
}

#[test]
fn right_guess() {
    for s in ["69", "+69", "0069"] {
        match guess(s.to_string()) {
            Guess::Answer(m) => {
                assert_eq!(m, "Nice! You guessed the right number, which is 69!!!")
            }
            _ => panic!("expected the answer for {s:?}"),
        }
    }
}

#[test]
fn length_validation() {
    assert_eq!(validate_length(String::new()), Err("You must provide a number."));
    assert_eq!(validate_length("12345".to_string()), Ok("12345".to_string()));
    assert_eq!(
        validate_length("123456".to_string()),
        Err("The number is too long. Try again with fewer digits.")
    );
}

#[test]
fn range_validation() {
    assert_eq!(
        validate_range(i32::MIN),
        Err("The number -2147483648 is too low. Try higher :)".to_string())
    );
    assert_eq!(
        validate_range(69),
        Ok("Nice! You guessed the right number, which is 69!!!".to_string())
    );
    assert_eq!(
        validate_range(i32::MAX),
        Err("The number 2147483647 is too high. Try lower :)".to_string())
    );
}
