use vstd::prelude::*;

use crate::object_type::{type_of_name, ObjectType};
use crate::objects::{object_models, Object, ObjectModel};
use crate::text::{chars_of, decimal, push_decimal, string_from_chars};

verus! {

/// A cell of an inventory export: a whole number or text. A cell that held a
/// fractional number arrives here truncated toward zero.
#[derive(Debug)]
pub enum Cell {
    Int(i64),
    Text(String),
}

/// Why an inventory export could not be read.
#[derive(Debug, Clone, Copy, PartialEq, Eq, Structural)]
pub enum InventoryError {
    /// A row has fewer than three cells.
    RowFormat,
    /// A row names an unknown object type.
    UnknownType,
    /// A row's id cell holds no number.
    InvalidId,
}

/// The text that a cell shows.
pub open spec fn cell_text(c: Cell) -> Seq<char> {
    match c {
        Cell::Int(i) => decimal(i as int),
        Cell::Text(s) => s@,
    }
}

/// The object that a row describes: its first three cells are the type's name,
/// the id and the name; further cells are ignored. An id that is no number is
/// an error, as is any row that is too short.
pub open spec fn row_object(row: Seq<Cell>) -> Result<ObjectModel, InventoryError> {
    if row.len() < 3 {
        Err(InventoryError::RowFormat)
    } else {
        match type_of_name(cell_text(row[0])) {
            None => Err(InventoryError::UnknownType),
            Some(t) => match row[1] {
                Cell::Int(id) => Ok(ObjectModel { object_type: t, id: id as int, name: cell_text(row[2]) }),
                Cell::Text(_) => Err(InventoryError::InvalidId),
            },
        }
    }
}

/// The objects of `rows`, after `found`; the first bad row's error otherwise.
pub open spec fn collect_objects(rows: Seq<Seq<Cell>>, found: Seq<ObjectModel>)
    -> Result<Seq<ObjectModel>, InventoryError>
    decreases rows.len(),
{
    if rows.len() == 0 {
        Ok(found)
    } else {
        match row_object(rows[0]) {
            Ok(o) => collect_objects(rows.drop_first(), found.push(o)),
            Err(e) => Err(e),
        }
    }
}

pub open spec fn cell_rows(rows: Seq<Vec<Cell>>) -> Seq<Seq<Cell>> {
    rows.map_values(|r: Vec<Cell>| r@)
}

/// The objects of an export whose first row is a header.
pub open spec fn inventory_objects(rows: Seq<Seq<Cell>>) -> Result<Seq<ObjectModel>, InventoryError> {
    if rows.len() == 0 {
        Ok(Seq::empty())
    } else {
        collect_objects(rows.drop_first(), Seq::empty())
    }
}

/// The characters that a cell shows.
pub fn cell_chars(c: &Cell) -> (r: Vec<char>)
    ensures
        r@ == cell_text(*c),
{
    match c {
        Cell::Int(i) => {
            let mut r: Vec<char> = Vec::new();
            push_decimal(*i, &mut r);
            assert(r@ =~= decimal(*i as int));
            r
        },
        Cell::Text(s) => chars_of(s.as_str()),
    }
}

/// The object that a row describes (see `row_object`).
pub fn parse_object_row(row: &[Cell]) -> (r: Result<Object, InventoryError>)
    ensures
        match r {
            Ok(o) => row_object(row@) == Ok::<ObjectModel, InventoryError>(o@),
            Err(e) => row_object(row@) == Err::<ObjectModel, InventoryError>(e),
        },
{
    if row.len() < 3 {
        return Err(InventoryError::RowFormat);
    }
    let type_chars = cell_chars(&row[0]);
    let object_type = match ObjectType::parse(type_chars.as_slice()) {
        Some(t) => t,
        None => return Err(InventoryError::UnknownType),
    };
    let id = match &row[1] {
        Cell::Int(i) => *i,
        Cell::Text(_) => return Err(InventoryError::InvalidId),
    };
    let name = cell_chars(&row[2]);
    Ok(Object { object_type, id, name: string_from_chars(name.as_slice()) })
}

/// The objects of an export whose first row is a header (see `inventory_objects`).
pub fn load_inventory(rows: &[Vec<Cell>]) -> (r: Result<Vec<Object>, InventoryError>)
    ensures
        match r {
            Ok(v) => inventory_objects(cell_rows(rows@))
                == Ok::<Seq<ObjectModel>, InventoryError>(object_models(v@)),
            Err(e) => inventory_objects(cell_rows(rows@)) == Err::<Seq<ObjectModel>, InventoryError>(e),
        },
{
    let ghost all = cell_rows(rows@);
    let mut found: Vec<Object> = Vec::new();
    if rows.len() == 0 {
        assert(object_models(found@) =~= Seq::<ObjectModel>::empty());
        return Ok(found);
    }
    let mut k: usize = 1;
    assert(all.subrange(1, all.len() as int) =~= all.drop_first());
    assert(object_models(found@) =~= Seq::<ObjectModel>::empty());
    while k < rows.len()
        invariant
            all == cell_rows(rows@),
            1 <= k <= rows@.len(),
            collect_objects(all.subrange(k as int, all.len() as int), object_models(found@))
                == inventory_objects(all),
        decreases rows.len() - k,
    {
        let ghost rest = all.subrange(k as int, all.len() as int);
        assert(rest[0] == rows@[k as int]@);
        assert(rest.drop_first() =~= all.subrange(k + 1, all.len() as int));
        match parse_object_row(rows[k].as_slice()) {
            Ok(o) => {
                assert(object_models(found@.push(o)) =~= object_models(found@).push(o@));
                found.push(o);
            },
            Err(e) => return Err(e),
        }
        k += 1;
    }
    Ok(found)
}

/// Why no sheet of a workbook could be chosen.
#[derive(Debug, Clone, Copy, PartialEq, Eq, Structural)]
pub enum SheetError {
    /// The workbook has no sheet.
    NoSheets,
    /// The operator declined to choose.
    Cancelled,
    /// The operator's answer names no sheet.
    OutOfRange,
}

/// How the sheet to read is found.
#[derive(Debug, Clone, Copy, PartialEq, Eq, Structural)]
pub enum SheetPick {
    /// The sheet at this position, without asking.
    Chosen(usize),
    /// The operator must be asked to choose one.
    Ask,
}

/// The sheet of a workbook with `sheet_count` sheets: the only one, or the
/// operator's choice among several.
pub fn pick_sheet(sheet_count: usize) -> (r: Result<SheetPick, SheetError>)
    ensures
        sheet_count == 0 <==> r == Err::<SheetPick, SheetError>(SheetError::NoSheets),
        sheet_count == 1 <==> r == Ok::<SheetPick, SheetError>(SheetPick::Chosen(0)),
        sheet_count > 1 <==> r == Ok::<SheetPick, SheetError>(SheetPick::Ask),
{
    if sheet_count == 0 {
        Err(SheetError::NoSheets)
    } else if sheet_count == 1 {
        Ok(SheetPick::Chosen(0))
    } else {
        Ok(SheetPick::Ask)
    }
}

/// The sheet that the operator's `answer` picks among `sheet_count` sheets.
pub fn resolve_choice(sheet_count: usize, answer: Option<usize>) -> (r: Result<usize, SheetError>)
    ensures
        r == match answer {
            None => Err(SheetError::Cancelled),
            Some(i) => if i < sheet_count { Ok(i) } else { Err(SheetError::OutOfRange) },
        },
{
    match answer {
        None => Err(SheetError::Cancelled),
        Some(i) => if i < sheet_count { Ok(i) } else { Err(SheetError::OutOfRange) },
    }
}

} // verus!
