use rust_calculator::{
    calculator, parse_operand, parse_operation, transform_input, verify_numeric_input,
    verify_operation, Operation, Session,
};

#[test]
fn numeric_accepts_signed_digit_runs() {
    assert!(verify_numeric_input("42\n"));
    assert!(verify_numeric_input("  -7 "));
    assert!(verify_numeric_input("+5"));
    assert!(verify_numeric_input("007"));
    assert!(verify_numeric_input("\t0\r\n"));
    assert!(verify_numeric_input("\u{3000}12\u{a0}"));
}

#[test]
fn numeric_rejects_everything_else() {
    assert!(!verify_numeric_input(""));
    assert!(!verify_numeric_input("   \n"));
    assert!(!verify_numeric_input("-"));
    assert!(!verify_numeric_input("+"));
    assert!(!verify_numeric_input("abc"));
    assert!(!verify_numeric_input("1 2"));
    assert!(!verify_numeric_input("1.5"));
    assert!(!verify_numeric_input("--1"));
    assert!(!verify_numeric_input("+-1"));
    assert!(!verify_numeric_input("12a"));
    assert!(!verify_numeric_input("\u{663}"));
}

#[test]
fn numeric_agrees_with_std_parse() {
    let cases = [
        "0", "-0", "+0", " 17 ", "-17\n", "x", "", "99999999999999999999", "1_000", " +3",
        "9223372036854775807", "-9223372036854775808", "9223372036854775808",
    ];
    for c in cases.iter() {
        let expected = c.trim().parse::<i64>().ok();
        assert_eq!(parse_operand(c), expected, "input {:?}", c);
        assert_eq!(verify_numeric_input(c), expected.is_some(), "input {:?}", c);
    }
}

#[test]
fn operation_names_are_trimmed_and_case_insensitive() {
    assert!(verify_operation("addition"));
    assert!(verify_operation("Subtraction\n"));
    assert!(verify_operation(" MoDuLo \r\n"));
    assert!(verify_operation("MULTIPLICATION"));
    assert!(verify_operation("division"));
    assert_eq!(parse_operation("  division\n"), Some(Operation::Division));
    assert_eq!(parse_operation("Multiplication"), Some(Operation::Multiplication));
}

#[test]
fn operation_rejects_other_names() {
    assert!(!verify_operation(""));
    assert!(!verify_operation("Add"));
    assert!(!verify_operation("additions"));
    assert!(!verify_operation("MULITIPLICATION"));
    assert!(!verify_operation("Addition Subtraction"));
    assert!(!verify_operation("mod ulo"));
    assert_eq!(parse_operation("plus"), None);
}

#[test]
fn validation_twice_gives_the_same_verdict() {
    for c in ["12", "abc", "Modulo", " division ", ""].iter() {
        assert_eq!(verify_numeric_input(c), verify_numeric_input(c));
        assert_eq!(verify_operation(c), verify_operation(c));
    }
    let s = String::from(" 5\n");
    let first = verify_numeric_input(&s);
    let second = verify_numeric_input(&s);
    assert!(first && second);
    assert_eq!(s, " 5\n");
}

#[test]
fn dispatch_table() {
    assert_eq!(calculator(String::from("Addition"), 3, 4), 7);
    assert_eq!(calculator(String::from("Subtraction"), 10, 4), 6);
    assert_eq!(calculator(String::from("Multiplication"), 6, 7), 42);
    assert_eq!(calculator(String::from("Division"), 9, 2), 4);
    assert_eq!(calculator(String::from("Modulo"), 9, 4), 1);
    assert_eq!(calculator(String::from("Bogus"), 1, 1), 0);
}

#[test]
fn dispatch_ignores_case_and_white_space() {
    assert_eq!(calculator(String::from("  addition\n"), 2, 2), 4);
    assert_eq!(calculator(String::from("\tmULTIPLICATION  "), -3, 5), -15);
}

#[test]
fn division_and_remainder_round_toward_zero() {
    assert_eq!(calculator(String::from("Division"), -9, 2), -4);
    assert_eq!(calculator(String::from("Division"), 9, -2), -4);
    assert_eq!(calculator(String::from("Division"), -9, -2), 4);
    assert_eq!(calculator(String::from("Modulo"), -9, 4), -1);
    assert_eq!(calculator(String::from("Modulo"), 9, -4), 1);
    assert_eq!(calculator(String::from("Modulo"), -9, -4), -1);
    assert_eq!(calculator(String::from("Division"), 0, 7), 0);
}

#[test]
fn checked_apply_reports_undefined_results() {
    assert_eq!(Operation::Division.checked_apply(5, 0), None);
    assert_eq!(Operation::Modulo.checked_apply(5, 0), None);
    assert_eq!(Operation::Division.checked_apply(i64::MIN, -1), None);
    assert_eq!(Operation::Modulo.checked_apply(i64::MIN, -1), None);
    assert_eq!(Operation::Addition.checked_apply(i64::MAX, 1), None);
    assert_eq!(Operation::Subtraction.checked_apply(i64::MIN, 1), None);
    assert_eq!(Operation::Multiplication.checked_apply(i64::MAX, 2), None);
    assert_eq!(Operation::Addition.checked_apply(i64::MAX, -1), Some(i64::MAX - 1));
    assert_eq!(Operation::Modulo.checked_apply(i64::MIN, 2), Some(0));
    assert_eq!(Operation::Division.checked_apply(i64::MIN, 1), Some(i64::MIN));
    assert_eq!(Operation::Modulo.checked_apply(7, 3), Some(1));
}

#[test]
fn apply_gives_each_operation() {
    assert_eq!(Operation::Addition.apply(3, 4), 7);
    assert_eq!(Operation::Subtraction.apply(3, 4), -1);
    assert_eq!(Operation::Multiplication.apply(-6, 7), -42);
    assert_eq!(Operation::Division.apply(7, 7), 1);
    assert_eq!(Operation::Modulo.apply(i64::MAX, 10), 7);
}

#[test]
fn names_of_operations() {
    assert_eq!(Operation::Addition.name_text(), "ADDITION");
    assert_eq!(Operation::Subtraction.name_text(), "SUBTRACTION");
    assert_eq!(Operation::Multiplication.name_text(), "MULTIPLICATION");
    assert_eq!(Operation::Division.name_text(), "DIVISION");
    assert_eq!(Operation::Modulo.name_text(), "MODULO");
}

#[test]
fn retry_on_first_operand() {
    let lines = vec![String::from("abc"), String::from("5")];
    let (s, rejected) = Session::new().run(&lines);
    assert_eq!(s, Session::AwaitingSecond { first: 5 });
    assert_eq!(rejected, 1);

    let (s1, ok1) = Session::new().step("abc\n");
    assert!(!ok1);
    assert_eq!(s1, Session::AwaitingFirst);
    let (s2, ok2) = s1.step("5\n");
    assert!(ok2);
    assert_eq!(s2, Session::AwaitingSecond { first: 5 });
}

#[test]
fn session_runs_to_a_result() {
    let lines: Vec<String> = ["x", "3", "y", "4", "nope", "  multiplication\n"]
        .iter()
        .map(|l| String::from(*l))
        .collect();
    let (s, rejected) = Session::new().run(&lines);
    assert_eq!(
        s,
        Session::Ready { first: 3, second: 4, operation: Operation::Multiplication }
    );
    assert_eq!(rejected, 3);
    assert_eq!(s.result(), Some(12));
    let (after, ok) = s.step("7");
    assert!(!ok);
    assert_eq!(after, s);
}

#[test]
fn session_result_is_none_until_ready_or_undefined() {
    assert_eq!(Session::new().result(), None);
    assert_eq!(Session::AwaitingOperation { first: 1, second: 0 }.result(), None);
    let lines = vec![String::from("1"), String::from("0"), String::from("Division")];
    let (s, rejected) = Session::new().run(&lines);
    assert_eq!(rejected, 0);
    assert_eq!(s.result(), None);
    let (empty, none_rejected) = Session::new().run(&Vec::new());
    assert_eq!(empty, Session::AwaitingFirst);
    assert_eq!(none_rejected, 0);
}

#[test]
fn operand_bounds() {
    assert!(verify_numeric_input("9223372036854775807"));
    assert!(verify_numeric_input("-9223372036854775808"));
    assert!(!verify_numeric_input("9223372036854775808"));
    assert!(!verify_numeric_input("-9223372036854775809"));
    assert_eq!(transform_input("9223372036854775807\n"), i64::MAX);
    assert_eq!(transform_input("-9223372036854775808\n"), i64::MIN);
    assert_eq!(parse_operand("9223372036854775808"), None);
}

#[test]
fn transform_falls_back_to_zero() {
    assert_eq!(transform_input("abc"), 0);
    assert_eq!(transform_input(""), 0);
    assert_eq!(transform_input(" -12 \n"), -12);
    assert_eq!(transform_input("+34"), 34);
}
