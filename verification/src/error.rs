use bevy_ecs::query::QuerySingleError;
use vstd::prelude::*;
use vstd::std_specs::convert::FromSpecImpl;

verus! {

/// Makes `bevy_ecs::query::QuerySingleError` known to the verifier, variants included:
/// `NoEntities` and `MultipleEntities`, each holding the type name of the query that failed.
#[verifier::external_type_specification]
pub struct ExQuerySingleError(QuerySingleError);

/// Why a query has no unique match.
#[derive(Debug, Clone, Copy, PartialEq, Eq)]
pub enum SingleError {
    /// Nothing fits the query that the payload names.
    NoEntities(&'static str),
    /// More than one item fits the query that the payload names.
    MultipleEntities(&'static str),
}

impl SingleError {
    /// The reason that stands for a query error: the same case, for the same query.
    pub open spec fn of(error: QuerySingleError) -> SingleError {
        match error {
            QuerySingleError::NoEntities(query) => SingleError::NoEntities(query),
            QuerySingleError::MultipleEntities(query) => SingleError::MultipleEntities(query),
        }
    }
}

impl From<QuerySingleError> for SingleError {
    /// Keeps the case and the name of the query.
    fn from(error: QuerySingleError) -> (reason: SingleError)
        ensures
            reason == SingleError::of(error),
    {
        match error {
            QuerySingleError::NoEntities(query) => SingleError::NoEntities(query),
            QuerySingleError::MultipleEntities(query) => SingleError::MultipleEntities(query),
        }
    }
}

impl FromSpecImpl<QuerySingleError> for SingleError {
    open spec fn obeys_from_spec() -> bool {
        true
    }

    open spec fn from_spec(error: QuerySingleError) -> SingleError {
        SingleError::of(error)
    }
}

} // verus!
