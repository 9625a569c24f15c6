use calculator::eval::evaluate;
use calculator::eval::preprocess;

fn chars(s: &str) -> Vec<char> {
    s.chars().collect()
}

#[test]
fn preprocess_expands_pi() {
    assert_eq!(preprocess(&chars("\u{3c0}*2")), chars("3.141592653589793*2"));
}

#[test]
fn preprocess_expands_sqrt_symbol() {
    assert_eq!(preprocess(&chars("\u{221a}(16)")), chars("sqrt(16)"));
}

#[test]
fn preprocess_leaves_plain_text_alone() {
    assert_eq!(preprocess(&chars("2+3*4")), chars("2+3*4"));
}

#[test]
fn evaluate_respects_precedence() {
    assert_eq!(evaluate(&chars("2+3*4")), Some(chars("14")));
}

#[test]
fn evaluate_power() {
    assert_eq!(evaluate(&chars("2^10")), Some(chars("1024")));
}

#[test]
fn evaluate_power_is_right_associative() {
    assert_eq!(evaluate(&chars("2^3^2")), Some(chars("512")));
}

#[test]
fn evaluate_division_by_zero_is_infinite() {
    assert_eq!(evaluate(&chars("1/0")), Some(chars("inf")));
}

#[test]
fn evaluate_pi_symbol() {
    assert_eq!(evaluate(&chars("\u{3c0}")), Some(chars("3.141592653589793")));
}

#[test]
fn evaluate_sqrt_symbol() {
    assert_eq!(evaluate(&chars("\u{221a}(16)")), Some(chars("4")));
}

#[test]
fn evaluate_parentheses_and_functions() {
    assert_eq!(evaluate(&chars("ln(1)+cos(0)")), Some(chars("1")));
}

#[test]
fn evaluate_log_is_base_ten() {
    assert_eq!(evaluate(&chars("log(100)")), Some(chars("2")));
}

#[test]
fn evaluate_ln_is_natural() {
    assert_eq!(evaluate(&chars("ln(1)")), Some(chars("0")));
}

#[test]
fn evaluate_blank_text_fails() {
    assert_eq!(evaluate(&chars(" ")), None);
    assert_eq!(evaluate(&chars("\t\r\n ")), None);
}

#[test]
fn evaluate_empty_text_fails() {
    assert_eq!(evaluate(&chars("")), None);
}

#[test]
fn evaluate_tolerates_surrounding_whitespace() {
    assert_eq!(evaluate(&chars(" 2 + 3 ")), Some(chars("5")));
}

#[test]
fn evaluate_decimal_result() {
    assert_eq!(evaluate(&chars("1/4")), Some(chars("0.25")));
}

#[test]
fn evaluate_negative_result() {
    assert_eq!(evaluate(&chars("2-5")), Some(chars("-3")));
}

#[test]
fn evaluate_rejects_trailing_operator() {
    assert_eq!(evaluate(&chars("2+")), None);
}

#[test]
fn evaluate_rejects_unmatched_parenthesis() {
    assert_eq!(evaluate(&chars("(2+3")), None);
}

#[test]
fn evaluate_rejects_unknown_name() {
    assert_eq!(evaluate(&chars("frobnicate(2)")), None);
}
