use license_check::license::{parse_license, parse_row, read_license, LicenseError, ScanState};
use license_check::object_type::ObjectType;
use license_check::objects::ObjectRange;
use license_check::text::{parse_i64, split_lines, split_words};

fn chars(s: &str) -> Vec<char> {
    s.chars().collect()
}

fn report(rows: &[&str]) -> String {
    let mut text = String::from("License report\r\nObject Assignment\r\n");
    for h in ["h1", "h2", "h3", "h4", "h5"] {
        text.push_str(h);
        text.push_str("\r\n");
    }
    for r in rows {
        text.push_str(r);
        text.push_str("\r\n");
    }
    text.push_str("Module Objects and Permissions\r\ntrailer\r\n");
    text
}

fn summary(v: &[ObjectRange]) -> Vec<(ObjectType, i64, i64, i64, String)> {
    v.iter()
        .map(|r| (r.object_type, r.range_from, r.range_to, r.quantity, r.permission.clone()))
        .collect()
}

#[test]
fn rows_follow_the_seed_in_file_order() {
    let text = report(&["Codeunit  10  60000  60009  RIMDX", "", "Page 1 70000 70000 X"]);
    let v = parse_license(&chars(&text)).unwrap();
    assert_eq!(v.len(), 8);
    assert_eq!(
        summary(&v[6..]),
        vec![
            (ObjectType::Codeunit, 60000, 60009, 10, "RIMDX".to_string()),
            (ObjectType::Page, 70000, 70000, 1, "X".to_string()),
        ]
    );
    assert_eq!(v[0].object_type, ObjectType::TableData);
}

#[test]
fn quantity_column_is_not_trusted() {
    let text = report(&["Report 999 60000 60004 X"]);
    let v = parse_license(&chars(&text)).unwrap();
    assert_eq!(v[6].quantity, 5);
}

#[test]
fn header_lines_are_skipped_unread() {
    let text = "Object Assignment\nnot a row\nnot a row\nnot a row\nnot a row\nnot a row\nQuery 1 60000 60000 X\nModule Objects and Permissions\n";
    let v = parse_license(&chars(text)).unwrap();
    assert_eq!(summary(&v[6..]), vec![(ObjectType::Query, 60000, 60000, 1, "X".to_string())]);
}

#[test]
fn missing_start_marker_is_fatal() {
    let text = "License report\nCodeunit 1 60000 60000 X\nModule Objects and Permissions\n";
    assert_eq!(parse_license(&chars(text)).unwrap_err(), LicenseError::MissingSectionStart);
    assert_eq!(parse_license(&[]).unwrap_err(), LicenseError::MissingSectionStart);
}

#[test]
fn missing_end_marker_is_fatal() {
    let text = "Object Assignment\n1\n2\n3\n4\n5\nCodeunit 1 60000 60000 X\n";
    assert_eq!(parse_license(&chars(text)).unwrap_err(), LicenseError::MissingSectionEnd);
}

#[test]
fn row_errors() {
    let four = report(&["Codeunit 1 60000 60000"]);
    assert_eq!(parse_license(&chars(&four)).unwrap_err(), LicenseError::RowFormat);
    let six = report(&["Codeunit 1 60000 60000 X Y"]);
    assert_eq!(parse_license(&chars(&six)).unwrap_err(), LicenseError::RowFormat);
    let unknown = report(&["Widget 1 60000 60000 X"]);
    assert_eq!(parse_license(&chars(&unknown)).unwrap_err(), LicenseError::UnknownType);
    let number = report(&["Codeunit 1 6000a 60000 X"]);
    assert_eq!(parse_license(&chars(&number)).unwrap_err(), LicenseError::InvalidNumber);
    let overflow = report(&["Codeunit 1 1 9223372036854775808 X"]);
    assert_eq!(parse_license(&chars(&overflow)).unwrap_err(), LicenseError::InvalidNumber);
    let reversed = report(&["Codeunit 1 60010 60000 X"]);
    assert_eq!(parse_license(&chars(&reversed)).unwrap_err(), LicenseError::InvalidRange);
}

#[test]
fn parse_row_reads_five_words() {
    let r = parse_row(&chars("\tTableData 10 60000\u{a0}60009 RIMDX ")).unwrap();
    assert_eq!(summary(&[r]), vec![(ObjectType::TableData, 60000, 60009, 10, "RIMDX".to_string())]);
}

#[test]
fn decodes_windows_1252() {
    let mut bytes: Vec<u8> = report(&["Codeunit 1 60000 60000 X"]).into_bytes();
    let at = bytes.len() - "\r\nModule Objects and Permissions\r\ntrailer\r\n".len();
    bytes.insert(at, 0xE9);
    let v = read_license(&bytes).unwrap();
    assert_eq!(v[6].permission, "X\u{e9}");
}

#[test]
fn scan_steps() {
    let marker = chars("Object Assignment");
    let end = chars("Module Objects and Permissions");
    assert_eq!(ScanState::SeekingStart.step(&marker), (ScanState::SkippingHeader(5), false));
    assert_eq!(ScanState::SeekingStart.step(&end), (ScanState::SeekingStart, false));
    assert_eq!(ScanState::SkippingHeader(2).step(&end), (ScanState::SkippingHeader(1), false));
    assert_eq!(ScanState::SkippingHeader(1).step(&marker), (ScanState::CollectingRows, false));
    assert_eq!(ScanState::CollectingRows.step(&[]), (ScanState::CollectingRows, false));
    assert_eq!(ScanState::CollectingRows.step(&marker), (ScanState::CollectingRows, true));
    assert_eq!(ScanState::CollectingRows.step(&end), (ScanState::Finished, false));
    assert_eq!(ScanState::Finished.step(&marker), (ScanState::Finished, false));
}

#[test]
fn lines_and_words() {
    let lines = split_lines(&chars("a\r\n\nb\rc\nd"));
    assert_eq!(lines, vec![chars("a"), chars(""), chars("b\rc"), chars("d")]);
    assert_eq!(split_lines(&chars("x\n")), vec![chars("x")]);
    assert!(split_lines(&[]).is_empty());
    assert_eq!(split_words(&chars("  a\t bc  ")), vec![chars("a"), chars("bc")]);
}

#[test]
fn integers() {
    assert_eq!(parse_i64(&chars("+42")), Some(42));
    assert_eq!(parse_i64(&chars("-42")), Some(-42));
    assert_eq!(parse_i64(&chars("-9223372036854775808")), Some(i64::MIN));
    assert_eq!(parse_i64(&chars("9223372036854775807")), Some(i64::MAX));
    assert_eq!(parse_i64(&chars("-9223372036854775809")), None);
    assert_eq!(parse_i64(&chars("-")), None);
    assert_eq!(parse_i64(&chars("")), None);
    assert_eq!(parse_i64(&chars("1 2")), None);
}
