//! The database types of the postings store, each tied to its name in the database.

use vstd::prelude::*;

verus! {

/// The database type of a posting's required experience level.
pub struct EDbExperienceLevel;

/// The database type of a posting's internal status.
pub struct EDbInternalStatus;

/// The database type of a posting's pay type.
pub struct EDbPayType;

/// The database type of the search query a posting came from.
pub struct EDbSearchQuery;

/// The database type of a posting's time estimate.
pub struct EDbTimeEstimate;

impl EDbExperienceLevel {
    /// The name of this type in the database.
    pub fn postgres_type_name() -> (r: &'static str)
        ensures
            r@ == "e_db_experience_level"@,
    {
        "e_db_experience_level"
    }
}

impl EDbInternalStatus {
    /// The name of this type in the database.
    pub fn postgres_type_name() -> (r: &'static str)
        ensures
            r@ == "e_db_internal_status"@,
    {
        "e_db_internal_status"
    }
}

impl EDbPayType {
    /// The name of this type in the database.
    pub fn postgres_type_name() -> (r: &'static str)
        ensures
            r@ == "e_db_pay_type"@,
    {
        "e_db_pay_type"
    }
}

impl EDbSearchQuery {
    /// The name of this type in the database.
    pub fn postgres_type_name() -> (r: &'static str)
        ensures
            r@ == "e_db_search_query"@,
    {
        "e_db_search_query"
    }
}

impl EDbTimeEstimate {
    /// The name of this type in the database.
    pub fn postgres_type_name() -> (r: &'static str)
        ensures
            r@ == "e_db_time_estimate"@,
    {
        "e_db_time_estimate"
    }
}

} // verus!
