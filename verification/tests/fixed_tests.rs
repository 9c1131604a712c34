use natlab_buildr26::fixed::{printed_percent_exec, push_centi_one, push_centi_two};

fn one(v: u64) -> String {
    let mut s = String::new();
    push_centi_one(&mut s, v);
    s
}

fn two(v: u64) -> String {
    let mut s = String::new();
    push_centi_two(&mut s, v);
    s
}

#[test]
fn one_decimal_reads_the_double_as_printing_does() {
    for v in 0..50000u64 {
        assert_eq!(one(v), format!("{:.1}", v as f64 / 100.0), "v = {}", v);
    }
    for v in [123456789u64, 987654321987, 4503599627370495, 9007199254740991] {
        assert_eq!(one(v), format!("{:.1}", v as f64 / 100.0), "v = {}", v);
    }
}

#[test]
fn one_decimal_ties_go_to_even() {
    assert_eq!(one(1225), "12.2");
    assert_eq!(one(1235), "12.3");
    assert_eq!(one(25), "0.2");
    assert_eq!(one(75), "0.8");
    assert_eq!(one(15), "0.1");
    assert_eq!(one(45), "0.5");
}

#[test]
fn two_decimals_read_the_double_as_printing_does() {
    for v in 0..50000u64 {
        assert_eq!(two(v), format!("{:.2}", v as f64 / 100.0), "v = {}", v);
    }
    for v in [123456789u64, 987654321987, 4503599627370495, 9007199254740991] {
        assert_eq!(two(v), format!("{:.2}", v as f64 / 100.0), "v = {}", v);
    }
}

#[test]
fn budget_percent_reads_the_quotient_as_printing_does() {
    let budgets = [1u64, 3, 7, 100, 200, 256, 512, 999, 1000, 4096, 123457, 9007199254740993, u64::MAX];
    for &b in budgets.iter() {
        for used in (1..20000u64).step_by(7) {
            let expected = format!("{:.0}", (used as f64 / 100.0 / b as f64) * 100.0);
            assert_eq!(printed_percent_exec(used, b).to_string(), expected, "used = {}, budget = {}", used, b);
        }
    }
    assert_eq!(printed_percent_exec(17300, 200), 86);
}
