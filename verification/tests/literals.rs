use nse_entropy::numeric::is_float_token;

#[test]
fn plain_decimals_are_accepted() {
    for s in ["0", "7", "42", "1.5", "1.", ".5", "0.0", "3.14159", "55.942"] {
        assert!(is_float_token(s), "{} should be accepted", s);
    }
}

#[test]
fn scientific_notation_is_accepted() {
    for s in ["1e10", "1E10", "4e-3", "7.1e-1", "2.5e+07", "1.e5", ".5e2", "9e0"] {
        assert!(is_float_token(s), "{} should be accepted", s);
    }
}

#[test]
fn signs_and_special_words_are_accepted() {
    for s in ["+1", "-1", "-0.001", "+.5", "-1e-300", "inf", "-inf", "Inf", "infinity", "Infinity", "nan", "NaN", "-NAN"] {
        assert!(is_float_token(s), "{} should be accepted", s);
    }
}

#[test]
fn malformed_literals_are_refused() {
    for s in [
        "", ".", "+", "-", "e5", "1e", "1e+", "1.2.3", "abc", "0x10", "1 2", "--1", "+-1",
        "1,5", "nan7", "infi", "infinit", "1e5.5", "5f", "_1", "1_000",
    ] {
        assert!(!is_float_token(s), "{} should be refused", s);
    }
}

#[test]
fn acceptance_agrees_with_float_conversion() {
    // whatever the checker accepts, the standard parser converts, and the
    // other way round
    let samples = [
        "0", "1.5", "1.", ".5", "1e10", "1E-3", "+2.5e+07", "-0.001", "inf", "-inf", "NaN",
        "Infinity", "1e-301", "1e-299", "7.1e-1", "", ".", "+", "e5", "1e", "1.2.3", "abc",
        "0x10", "--1", "1e+", "nan7", "infi", "1.e5", ".5e2", "5.", "1_000", " 1", "1 ",
    ];
    for s in samples {
        assert_eq!(
            is_float_token(s),
            s.parse::<f64>().is_ok(),
            "checker and standard parser disagree on {:?}",
            s
        );
    }
}
