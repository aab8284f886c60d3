use license_check::inventory::{
    load_inventory, pick_sheet, resolve_choice, Cell, InventoryError, SheetError, SheetPick,
};
use license_check::objects::{default_ranges, Object, ObjectRange};
use license_check::reconcile::{find_range, find_violations};
use license_check::report::{console_line, csv_document, csv_row, render_report};

fn ids(v: &[Object]) -> Vec<i64> {
    v.iter().map(|o| o.id).collect()
}

#[test]
fn scenario_seed_covers_page() {
    let objects = vec![Object::new("Page", 50050, "Customer List")];
    let ranges = default_ranges();
    assert_eq!(find_range(&ranges, &objects[0]), Some(1));
    assert!(find_violations(&ranges, &objects).is_empty());
}

#[test]
fn scenario_uncovered_codeunit() {
    let objects = vec![Object::new("Codeunit", 60000, "Import Engine")];
    let v = find_violations(&default_ranges(), &objects);
    assert_eq!(ids(&v), vec![60000]);
    assert_eq!(v[0].name, "Import Engine");
    assert_eq!(console_line(&v[0]), "60000 Codeunit\tImport Engine");
    assert_eq!(
        csv_row(&v[0]),
        "Codeunit,60000,60000,Direct,Direct,Direct,Direct,Direct,50000 - 99999,1,0,0"
    );
}

#[test]
fn scenario_table_needs_no_license() {
    let objects = vec![Object::new("Table", 50005, "Staging Table"), Object::new("Table", 60000, "Other")];
    assert!(find_violations(&Vec::new(), &objects).is_empty());
}

#[test]
fn scenario_no_violations_no_report() {
    assert!(render_report(&[]).is_none());
}

#[test]
fn ids_outside_band_are_ignored() {
    let objects = vec![
        Object::new("Codeunit", 49999, "Base"),
        Object::new("Codeunit", 50000, "Low"),
        Object::new("Codeunit", 99999, "High"),
        Object::new("Codeunit", 100000, "Beyond"),
        Object::new("Codeunit", -1, "Negative"),
    ];
    assert_eq!(ids(&find_violations(&Vec::new(), &objects)), vec![50000, 99999]);
}

#[test]
fn coverage_needs_matching_type_and_bounds() {
    let ranges = vec![ObjectRange::new("Report", 60000, 60010, "X"), ObjectRange::new("Report", 60005, 60020, "X")];
    let objects = vec![
        Object::new("Report", 60000, "a"),
        Object::new("Report", 60020, "b"),
        Object::new("Report", 60021, "c"),
        Object::new("Query", 60001, "d"),
        Object::new("Report", 59999, "e"),
    ];
    assert_eq!(find_range(&ranges, &objects[1]), Some(1));
    assert_eq!(find_range(&ranges, &Object::new("Report", 60007, "f")), Some(0));
    assert_eq!(ids(&find_violations(&ranges, &objects)), vec![60021, 60001, 59999]);
}

#[test]
fn reconciling_twice_is_stable() {
    let ranges = vec![ObjectRange::new("Page", 60000, 60000, "X")];
    let objects = vec![
        Object::new("Page", 60001, "a"),
        Object::new("Page", 60000, "b"),
        Object::new("XMLport", 70000, "c"),
        Object::new("PageExtension", 70000, "d"),
    ];
    let first = find_violations(&ranges, &objects);
    let second = find_violations(&ranges, &objects);
    let again = find_violations(&ranges, &first);
    assert_eq!(ids(&first), vec![60001, 70000]);
    assert_eq!(ids(&second), ids(&first));
    assert_eq!(ids(&again), ids(&first));
}

#[test]
fn report_lists_every_violation() {
    let v = vec![Object::new("Codeunit", 60000, "Import Engine"), Object::new("XMLport", -5, "Odd, name")];
    let rep = render_report(&v).unwrap();
    assert_eq!(rep.console_lines, vec!["60000 Codeunit\tImport Engine".to_string(), "-5 XMLPort\tOdd, name".to_string()]);
    assert_eq!(
        rep.csv,
        "ObjectType,FromObjectID,ToObjectID,Read,Insert,Modify,Delete,Execute,AvailableRange,Used,ObjectTypeRemaining,CompanyObjectPermissionID\n\
         Codeunit,60000,60000,Direct,Direct,Direct,Direct,Direct,50000 - 99999,1,0,0\n\
         XMLPort,-5,-5,Direct,Direct,Direct,Direct,Direct,50000 - 99999,1,0,0\n"
    );
    assert_eq!(
        csv_document(&[]),
        "ObjectType,FromObjectID,ToObjectID,Read,Insert,Modify,Delete,Execute,AvailableRange,Used,ObjectTypeRemaining,CompanyObjectPermissionID\n"
    );
}

fn text(s: &str) -> Cell {
    Cell::Text(s.to_string())
}

#[test]
fn inventory_skips_header() {
    let rows = vec![
        vec![text("Type"), text("ID"), text("Name")],
        vec![text("Page"), Cell::Int(50050), text("Customer List"), text("extra")],
        vec![text("Codeunit"), Cell::Int(60000), Cell::Int(7)],
    ];
    let objects = load_inventory(&rows).unwrap();
    assert_eq!(ids(&objects), vec![50050, 60000]);
    assert_eq!(objects[0].name, "Customer List");
    assert_eq!(objects[1].name, "7");
    assert!(load_inventory(&[]).unwrap().is_empty());
}

#[test]
fn inventory_errors() {
    let header = vec![text("Type"), text("ID"), text("Name")];
    let short = vec![header.iter().map(|_| text("x")).collect::<Vec<_>>(), vec![text("Page"), Cell::Int(1)]];
    assert_eq!(load_inventory(&short).unwrap_err(), InventoryError::RowFormat);
    let unknown = vec![vec![text("h")], vec![text("Widget"), Cell::Int(1), text("n")]];
    assert_eq!(load_inventory(&unknown).unwrap_err(), InventoryError::UnknownType);
    let bad_id = vec![vec![text("h")], vec![text("Page"), text("12a"), text("n")]];
    assert_eq!(load_inventory(&bad_id).unwrap_err(), InventoryError::InvalidId);
}

#[test]
fn sheet_selection() {
    assert_eq!(pick_sheet(0), Err(SheetError::NoSheets));
    assert_eq!(pick_sheet(1), Ok(SheetPick::Chosen(0)));
    assert_eq!(pick_sheet(3), Ok(SheetPick::Ask));
    assert_eq!(resolve_choice(3, Some(2)), Ok(2));
    assert_eq!(resolve_choice(3, Some(3)), Err(SheetError::OutOfRange));
    assert_eq!(resolve_choice(3, None), Err(SheetError::Cancelled));
}
