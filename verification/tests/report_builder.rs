use cjvalpy::Classification;
use cjvalpy::print_errors;
use cjvalpy::print_summary;

#[test]
fn empty_findings_print_ok() {
    let mut s = String::from("head:");
    print_errors(&mut s, &Vec::new());
    assert_eq!(s, "head:ok\n");
}

#[test]
fn findings_are_numbered_from_one_in_order() {
    let mut s = String::new();
    let findings = vec![
        String::from("first defect"),
        String::from("second defect"),
        String::from("third defect"),
    ];
    print_errors(&mut s, &findings);
    assert_eq!(s, "  1. first defect\n  2. second defect\n  3. third defect\n");
}

#[test]
fn many_findings_use_two_digit_numbers() {
    let mut s = String::new();
    let mut findings: Vec<String> = Vec::new();
    for _ in 0..12 {
        findings.push(String::from("d"));
    }
    print_errors(&mut s, &findings);
    assert!(s.contains("  9. d\n  10. d\n  11. d\n  12. d\n"));
}

#[test]
fn summary_failed_marker() {
    let mut s = String::new();
    print_summary(&mut s, Classification::Failed);
    assert_eq!(
        s,
        "\n\n============ SUMMARY ============\n❌ File is invalid\n================================="
    );
}

#[test]
fn summary_warning_marker() {
    let mut s = String::new();
    print_summary(&mut s, Classification::PassedWithWarnings);
    assert_eq!(
        s,
        "\n\n============ SUMMARY ============\n⚠️  File is valid but has warnings\n================================="
    );
}

#[test]
fn summary_passed_marker() {
    let mut s = String::new();
    print_summary(&mut s, Classification::Passed);
    assert_eq!(
        s,
        "\n\n============ SUMMARY ============\n✅ File is valid\n================================="
    );
}

#[test]
fn summary_is_appended_per_call() {
    let mut s = String::new();
    print_summary(&mut s, Classification::Passed);
    let once = s.len();
    print_summary(&mut s, Classification::Passed);
    assert_eq!(s.len(), 2 * once);
}
