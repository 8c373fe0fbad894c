use vstd::prelude::*;
use crate::text::lower_of;
use crate::text::lowercase;

verus! {

/// How much damage an operation could do if it went wrong.
#[derive(Debug, Clone, Copy, PartialEq, Eq, Structural)]
pub enum RiskLevel {
    Low,
    Medium,
    High,
    Critical,
}

/// The closed set of operation kinds that risk is classified over.
#[derive(Debug, Clone, Copy, PartialEq, Eq, Structural)]
pub enum OperationKind {
    Read,
    List,
    Search,
    Move,
    Rename,
    Copy,
    Delete,
    Remove,
    Unknown,
}

/// The risk table.
pub open spec fn risk_of(kind: OperationKind, file_count: nat, is_directory: bool) -> RiskLevel {
    match kind {
        OperationKind::Read | OperationKind::List | OperationKind::Search => RiskLevel::Low,
        OperationKind::Move | OperationKind::Rename | OperationKind::Copy => {
            if file_count > 10 {
                RiskLevel::High
            } else {
                RiskLevel::Medium
            }
        },
        OperationKind::Delete | OperationKind::Remove => {
            if is_directory || file_count > 5 {
                RiskLevel::Critical
            } else if file_count > 1 {
                RiskLevel::High
            } else {
                RiskLevel::Medium
            }
        },
        OperationKind::Unknown => RiskLevel::Medium,
    }
}

/// Classifies the risk of an operation of a known kind.
pub fn classify_risk(kind: OperationKind, file_count: usize, is_directory: bool) -> (r: RiskLevel)
    ensures
        r == risk_of(kind, file_count as nat, is_directory),
{
    match kind {
        OperationKind::Read | OperationKind::List | OperationKind::Search => RiskLevel::Low,
        OperationKind::Move | OperationKind::Rename | OperationKind::Copy => {
            if file_count > 10 {
                RiskLevel::High
            } else {
                RiskLevel::Medium
            }
        },
        OperationKind::Delete | OperationKind::Remove => {
            if is_directory || file_count > 5 {
                RiskLevel::Critical
            } else if file_count > 1 {
                RiskLevel::High
            } else {
                RiskLevel::Medium
            }
        },
        OperationKind::Unknown => RiskLevel::Medium,
    }
}

} // verus!

verus! {

/// The operation kind that a lower-cased operation name stands for.
pub open spec fn kind_of(lowered: Seq<char>) -> OperationKind {
    if lowered == "read"@ {
        OperationKind::Read
    } else if lowered == "list"@ {
        OperationKind::List
    } else if lowered == "search"@ {
        OperationKind::Search
    } else if lowered == "move"@ {
        OperationKind::Move
    } else if lowered == "rename"@ {
        OperationKind::Rename
    } else if lowered == "copy"@ {
        OperationKind::Copy
    } else if lowered == "delete"@ {
        OperationKind::Delete
    } else if lowered == "remove"@ {
        OperationKind::Remove
    } else {
        OperationKind::Unknown
    }
}

/// Maps an already lower-cased operation name to its kind.
pub fn parse_lowered_operation(lowered: &String) -> (r: OperationKind)
    ensures
        r == kind_of(lowered@),
{
    if *lowered == "read".to_owned() {
        OperationKind::Read
    } else if *lowered == "list".to_owned() {
        OperationKind::List
    } else if *lowered == "search".to_owned() {
        OperationKind::Search
    } else if *lowered == "move".to_owned() {
        OperationKind::Move
    } else if *lowered == "rename".to_owned() {
        OperationKind::Rename
    } else if *lowered == "copy".to_owned() {
        OperationKind::Copy
    } else if *lowered == "delete".to_owned() {
        OperationKind::Delete
    } else if *lowered == "remove".to_owned() {
        OperationKind::Remove
    } else {
        OperationKind::Unknown
    }
}

/// Maps an operation name to its kind, ignoring case.
pub fn parse_operation(operation: &str) -> (r: OperationKind)
    ensures
        r == kind_of(lower_of(operation@)),
{
    let lowered = lowercase(operation);
    parse_lowered_operation(&lowered)
}

/// Classifies an operation given by name, ignoring case; an unrecognised name is `Medium`.
pub fn get_operation_risk_level(operation: &str, file_count: usize, is_directory: bool) -> (r:
    RiskLevel)
    ensures
        r == risk_of(kind_of(lower_of(operation@)), file_count as nat, is_directory),
{
    let kind = parse_operation(operation);
    classify_risk(kind, file_count, is_directory)
}

/// Reading, listing and searching are low risk whatever the number of files.
pub proof fn law_read_family_is_low(lowered: Seq<char>, file_count: nat, is_directory: bool)
    requires
        lowered == "read"@ || lowered == "list"@ || lowered == "search"@,
    ensures
        risk_of(kind_of(lowered), file_count, is_directory) == RiskLevel::Low,
{
    reveal_strlit("read");
    reveal_strlit("list");
    reveal_strlit("search");
}

/// A name outside the table is classified `Medium`, never lower.
pub proof fn law_unknown_is_medium(lowered: Seq<char>, file_count: nat, is_directory: bool)
    requires
        kind_of(lowered) == OperationKind::Unknown,
    ensures
        risk_of(kind_of(lowered), file_count, is_directory) == RiskLevel::Medium,
{
}

} // verus!
