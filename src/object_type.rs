use vstd::prelude::*;

use crate::text::{chars_eq_str, chars_of};

verus! {

/// The kinds of application objects that a license or an inventory names.
#[derive(Debug, Clone, Copy, PartialEq, Eq, Structural)]
pub enum ObjectType {
    TableData,
    Table,
    Report,
    Codeunit,
    XMLport,
    MenuSuite,
    Page,
    Query,
    System,
    FieldNumber,
    PageExtension,
    TableExtension,
    Enum,
    EnumExtension,
    Profile,
    ProfileExtension,
    PermissionSet,
    PermissionSetExtension,
    ReportExtension,
}

/// The canonical spelling of each type. `XMLport` is spelled `XMLPort` on purpose.
pub open spec fn display_name(t: ObjectType) -> Seq<char> {
    match t {
        ObjectType::TableData => "TableData"@,
        ObjectType::Table => "Table"@,
        ObjectType::Report => "Report"@,
        ObjectType::Codeunit => "Codeunit"@,
        ObjectType::XMLport => "XMLPort"@,
        ObjectType::MenuSuite => "MenuSuite"@,
        ObjectType::Page => "Page"@,
        ObjectType::Query => "Query"@,
        ObjectType::System => "System"@,
        ObjectType::FieldNumber => "FieldNumber"@,
        ObjectType::PageExtension => "PageExtension"@,
        ObjectType::TableExtension => "TableExtension"@,
        ObjectType::Enum => "Enum"@,
        ObjectType::EnumExtension => "EnumExtension"@,
        ObjectType::Profile => "Profile"@,
        ObjectType::ProfileExtension => "ProfileExtension"@,
        ObjectType::PermissionSet => "PermissionSet"@,
        ObjectType::PermissionSetExtension => "PermissionSetExtension"@,
        ObjectType::ReportExtension => "ReportExtension"@,
    }
}

/// The type that a name denotes. Names are matched exactly (case-sensitively);
/// the one exception is `XMLport`, which is accepted in both of its spellings.
pub open spec fn type_of_name(s: Seq<char>) -> Option<ObjectType> {
    if s == "TableData"@ { Some(ObjectType::TableData) }
    else if s == "Table"@ { Some(ObjectType::Table) }
    else if s == "Report"@ { Some(ObjectType::Report) }
    else if s == "Codeunit"@ { Some(ObjectType::Codeunit) }
    else if s == "XMLport"@ || s == "XMLPort"@ { Some(ObjectType::XMLport) }
    else if s == "MenuSuite"@ { Some(ObjectType::MenuSuite) }
    else if s == "Page"@ { Some(ObjectType::Page) }
    else if s == "Query"@ { Some(ObjectType::Query) }
    else if s == "System"@ { Some(ObjectType::System) }
    else if s == "FieldNumber"@ { Some(ObjectType::FieldNumber) }
    else if s == "PageExtension"@ { Some(ObjectType::PageExtension) }
    else if s == "TableExtension"@ { Some(ObjectType::TableExtension) }
    else if s == "Enum"@ { Some(ObjectType::Enum) }
    else if s == "EnumExtension"@ { Some(ObjectType::EnumExtension) }
    else if s == "Profile"@ { Some(ObjectType::Profile) }
    else if s == "ProfileExtension"@ { Some(ObjectType::ProfileExtension) }
    else if s == "PermissionSet"@ { Some(ObjectType::PermissionSet) }
    else if s == "PermissionSetExtension"@ { Some(ObjectType::PermissionSetExtension) }
    else if s == "ReportExtension"@ { Some(ObjectType::ReportExtension) }
    else { None }
}

/// Whether objects of this type need a license permission.
pub open spec fn requires_license(t: ObjectType) -> bool {
    match t {
        ObjectType::TableData | ObjectType::Report | ObjectType::Codeunit
        | ObjectType::XMLport | ObjectType::Query | ObjectType::Page => true,
        _ => false,
    }
}

impl ObjectType {
    /// The type that `s` names, if any (see `type_of_name`).
    pub fn parse(s: &[char]) -> (r: Option<ObjectType>)
        ensures
            r == type_of_name(s@),
    {
        if chars_eq_str(s, "TableData") { Some(ObjectType::TableData) }
        else if chars_eq_str(s, "Table") { Some(ObjectType::Table) }
        else if chars_eq_str(s, "Report") { Some(ObjectType::Report) }
        else if chars_eq_str(s, "Codeunit") { Some(ObjectType::Codeunit) }
        else if chars_eq_str(s, "XMLport") || chars_eq_str(s, "XMLPort") { Some(ObjectType::XMLport) }
        else if chars_eq_str(s, "MenuSuite") { Some(ObjectType::MenuSuite) }
        else if chars_eq_str(s, "Page") { Some(ObjectType::Page) }
        else if chars_eq_str(s, "Query") { Some(ObjectType::Query) }
        else if chars_eq_str(s, "System") { Some(ObjectType::System) }
        else if chars_eq_str(s, "FieldNumber") { Some(ObjectType::FieldNumber) }
        else if chars_eq_str(s, "PageExtension") { Some(ObjectType::PageExtension) }
        else if chars_eq_str(s, "TableExtension") { Some(ObjectType::TableExtension) }
        else if chars_eq_str(s, "Enum") { Some(ObjectType::Enum) }
        else if chars_eq_str(s, "EnumExtension") { Some(ObjectType::EnumExtension) }
        else if chars_eq_str(s, "Profile") { Some(ObjectType::Profile) }
        else if chars_eq_str(s, "ProfileExtension") { Some(ObjectType::ProfileExtension) }
        else if chars_eq_str(s, "PermissionSet") { Some(ObjectType::PermissionSet) }
        else if chars_eq_str(s, "PermissionSetExtension") { Some(ObjectType::PermissionSetExtension) }
        else if chars_eq_str(s, "ReportExtension") { Some(ObjectType::ReportExtension) }
        else { None }
    }

    /// The type named `object_type`; the name must be one of the known ones.
    pub fn from(object_type: &str) -> (r: ObjectType)
        requires
            type_of_name(object_type@) is Some,
        ensures
            r == type_of_name(object_type@)->Some_0,
    {
        let cs = chars_of(object_type);
        Self::parse(cs.as_slice()).unwrap()
    }

    /// The canonical spelling of this type.
    pub fn to_string(&self) -> (r: &'static str)
        ensures
            r@ == display_name(*self),
    {
        match self {
            ObjectType::TableData => "TableData",
            ObjectType::Table => "Table",
            ObjectType::Report => "Report",
            ObjectType::Codeunit => "Codeunit",
            ObjectType::XMLport => "XMLPort",
            ObjectType::MenuSuite => "MenuSuite",
            ObjectType::Page => "Page",
            ObjectType::Query => "Query",
            ObjectType::System => "System",
            ObjectType::FieldNumber => "FieldNumber",
            ObjectType::PageExtension => "PageExtension",
            ObjectType::TableExtension => "TableExtension",
            ObjectType::Enum => "Enum",
            ObjectType::EnumExtension => "EnumExtension",
            ObjectType::Profile => "Profile",
            ObjectType::ProfileExtension => "ProfileExtension",
            ObjectType::PermissionSet => "PermissionSet",
            ObjectType::PermissionSetExtension => "PermissionSetExtension",
            ObjectType::ReportExtension => "ReportExtension",
        }
    }

    /// Whether objects of this type need a license permission.
    pub fn is_licensed(&self) -> (r: bool)
        ensures
            r == requires_license(*self),
    {
        match self {
            ObjectType::TableData | ObjectType::Report | ObjectType::Codeunit
            | ObjectType::XMLport | ObjectType::Query | ObjectType::Page => true,
            _ => false,
        }
    }
}

} // verus!
