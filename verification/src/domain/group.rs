use vstd::prelude::*;

verus! {

/// A group of users, to which permission rules are granted.
#[derive(Debug, Clone, PartialEq, Eq)]
pub struct Group {
    pub id: i64,
    pub name: String,
    pub description: Option<String>,
}

} // verus!
