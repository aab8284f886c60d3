use license_check::object_type::ObjectType;
use license_check::objects::{default_ranges, Object, ObjectRange};

const ALL_NAMES: [&str; 19] = [
    "TableData",
    "Table",
    "Report",
    "Codeunit",
    "XMLPort",
    "MenuSuite",
    "Page",
    "Query",
    "System",
    "FieldNumber",
    "PageExtension",
    "TableExtension",
    "Enum",
    "EnumExtension",
    "Profile",
    "ProfileExtension",
    "PermissionSet",
    "PermissionSetExtension",
    "ReportExtension",
];

#[test]
fn every_name_round_trips() {
    for name in ALL_NAMES {
        assert_eq!(ObjectType::from(name).to_string(), name);
    }
}

#[test]
fn xmlport_accepts_both_spellings() {
    assert_eq!(ObjectType::from("XMLport"), ObjectType::XMLport);
    assert_eq!(ObjectType::from("XMLPort"), ObjectType::XMLport);
    assert_eq!(ObjectType::XMLport.to_string(), "XMLPort");
}

#[test]
fn names_are_case_sensitive() {
    let lower: Vec<char> = "page".chars().collect();
    assert_eq!(ObjectType::parse(&lower), None);
    let unknown: Vec<char> = "Widget".chars().collect();
    assert_eq!(ObjectType::parse(&unknown), None);
    let page: Vec<char> = "Page".chars().collect();
    assert_eq!(ObjectType::parse(&page), Some(ObjectType::Page));
}

#[test]
fn licensed_types() {
    let licensed: Vec<&str> = ALL_NAMES
        .iter()
        .copied()
        .filter(|n| ObjectType::from(n).is_licensed())
        .collect();
    assert_eq!(licensed, vec!["TableData", "Report", "Codeunit", "XMLPort", "Page", "Query"]);
}

#[test]
fn range_quantity_counts_both_bounds() {
    let r = ObjectRange::new("Codeunit", 60000, 60009, "RIMDX");
    assert_eq!(r.object_type, ObjectType::Codeunit);
    assert_eq!(r.quantity, 10);
    assert_eq!(r.range_from, 60000);
    assert_eq!(r.range_to, 60009);
    assert_eq!(r.permission, "RIMDX");
    let single = ObjectRange::new("Page", 7, 7, "X");
    assert_eq!(single.quantity, 1);
}

#[test]
fn object_new_keeps_fields() {
    let o = Object::new("Page", 50050, "Customer List");
    assert_eq!(o.object_type, ObjectType::Page);
    assert_eq!(o.id, 50050);
    assert_eq!(o.name, "Customer List");
}

#[test]
fn seed_ranges() {
    let seed = default_ranges();
    let got: Vec<(ObjectType, i64, i64, i64, String)> = seed
        .iter()
        .map(|r| (r.object_type, r.range_from, r.range_to, r.quantity, r.permission.clone()))
        .collect();
    assert_eq!(
        got,
        vec![
            (ObjectType::TableData, 50000, 50009, 10, "RIMDX".to_string()),
            (ObjectType::Page, 50000, 50099, 100, "X".to_string()),
            (ObjectType::Report, 50000, 50099, 100, "X".to_string()),
            (ObjectType::Codeunit, 50000, 50099, 100, "X".to_string()),
            (ObjectType::XMLport, 50000, 50099, 100, "X".to_string()),
            (ObjectType::Query, 50000, 50099, 100, "X".to_string()),
        ]
    );
}
