use vstd::prelude::*;

use crate::object_type::display_name;
use crate::objects::{object_models, Object, ObjectModel};
use crate::text::{append_str, decimal, push_decimal, string_from_chars};

verus! {

/// The header row of the remediation table.
pub open spec fn csv_header() -> Seq<char> {
    "ObjectType,FromObjectID,ToObjectID,Read,Insert,Modify,Delete,Execute,AvailableRange,Used,ObjectTypeRemaining,CompanyObjectPermissionID"@
}

/// The console line of a violation: its id, its type and, after a tab, its name.
pub open spec fn console_line_of(o: ObjectModel) -> Seq<char> {
    decimal(o.id) + " "@ + display_name(o.object_type) + "\t"@ + o.name
}

/// The remediation row of a violation: a range of the one id of the object, with
/// fixed permissions and bookkeeping columns, and a quantity of one.
pub open spec fn csv_row_of(o: ObjectModel) -> Seq<char> {
    display_name(o.object_type) + ","@ + decimal(o.id) + ","@ + decimal(o.id)
        + ",Direct,Direct,Direct,Direct,Direct,50000 - 99999,"@ + decimal(o.id - o.id + 1)
        + ",0,0"@
}

/// The remediation table: the header, then one row per violation, each line
/// ended by `\n`.
pub open spec fn csv_text(vs: Seq<ObjectModel>) -> Seq<char>
    decreases vs.len(),
{
    if vs.len() == 0 {
        csv_header() + "\n"@
    } else {
        csv_text(vs.drop_last()) + csv_row_of(vs.last()) + "\n"@
    }
}

/// What to report about a non-empty list of violations.
pub struct ViolationReport {
    /// One console line per violation, in order.
    pub console_lines: Vec<String>,
    /// The remediation table.
    pub csv: String,
}

fn push_console_line(out: &mut Vec<char>, o: &Object)
    ensures
        final(out)@ == old(out)@ + console_line_of(o@),
{
    push_decimal(o.id, out);
    append_str(out, " ");
    append_str(out, o.object_type.to_string());
    append_str(out, "\t");
    append_str(out, o.name.as_str());
    assert(out@ =~= old(out)@ + console_line_of(o@));
}

fn push_csv_row(out: &mut Vec<char>, o: &Object)
    ensures
        final(out)@ == old(out)@ + csv_row_of(o@),
{
    append_str(out, o.object_type.to_string());
    append_str(out, ",");
    push_decimal(o.id, out);
    append_str(out, ",");
    push_decimal(o.id, out);
    append_str(out, ",Direct,Direct,Direct,Direct,Direct,50000 - 99999,");
    let quantity: i64 = o.id - o.id + 1;
    push_decimal(quantity, out);
    append_str(out, ",0,0");
    assert(out@ =~= old(out)@ + csv_row_of(o@));
}

/// The console line of a violation (see `console_line_of`).
pub fn console_line(o: &Object) -> (r: String)
    ensures
        r@ == console_line_of(o@),
{
    let mut out: Vec<char> = Vec::new();
    push_console_line(&mut out, o);
    assert(out@ =~= console_line_of(o@));
    string_from_chars(out.as_slice())
}

/// The remediation row of a violation (see `csv_row_of`).
pub fn csv_row(o: &Object) -> (r: String)
    ensures
        r@ == csv_row_of(o@),
{
    let mut out: Vec<char> = Vec::new();
    push_csv_row(&mut out, o);
    assert(out@ =~= csv_row_of(o@));
    string_from_chars(out.as_slice())
}

/// The remediation table of the violations (see `csv_text`).
pub fn csv_document(violations: &[Object]) -> (r: String)
    ensures
        r@ == csv_text(object_models(violations@)),
{
    let ghost models = object_models(violations@);
    let mut out: Vec<char> = Vec::new();
    append_str(&mut out, "ObjectType,FromObjectID,ToObjectID,Read,Insert,Modify,Delete,Execute,AvailableRange,Used,ObjectTypeRemaining,CompanyObjectPermissionID");
    append_str(&mut out, "\n");
    assert(models.subrange(0, 0) =~= Seq::<ObjectModel>::empty());
    assert(out@ =~= csv_text(models.subrange(0, 0)));
    let mut k: usize = 0;
    while k < violations.len()
        invariant
            models == object_models(violations@),
            k <= violations@.len(),
            out@ == csv_text(models.subrange(0, k as int)),
        decreases violations.len() - k,
    {
        let ghost next = models.subrange(0, k + 1);
        assert(next.drop_last() =~= models.subrange(0, k as int));
        assert(next.last() == violations@[k as int]@);
        push_csv_row(&mut out, &violations[k]);
        append_str(&mut out, "\n");
        assert(out@ =~= csv_text(next));
        k += 1;
    }
    assert(models.subrange(0, models.len() as int) =~= models);
    string_from_chars(out.as_slice())
}

/// The report of the violations: nothing when there are none, else a console
/// line for each and the remediation table.
pub fn render_report(violations: &[Object]) -> (r: Option<ViolationReport>)
    ensures
        violations@.len() == 0 <==> r is None,
        r matches Some(rep) ==> {
            &&& rep.console_lines@.len() == violations@.len()
            &&& forall|k: int| 0 <= k < violations@.len()
                ==> (#[trigger] rep.console_lines@[k])@ == console_line_of(violations@[k]@)
            &&& rep.csv@ == csv_text(object_models(violations@))
        },
{
    if violations.len() == 0 {
        return None;
    }
    let mut console_lines: Vec<String> = Vec::new();
    let mut k: usize = 0;
    while k < violations.len()
        invariant
            k <= violations@.len(),
            console_lines@.len() == k,
            forall|j: int| 0 <= j < k
                ==> (#[trigger] console_lines@[j])@ == console_line_of(violations@[j]@),
        decreases violations.len() - k,
    {
        console_lines.push(console_line(&violations[k]));
        k += 1;
    }
    Some(ViolationReport { console_lines, csv: csv_document(violations) })
}

} // verus!
