use crate::error::SingleError;
use bevy_ecs::query::QuerySingleError;
use std::ops::Deref;
use std::ops::DerefMut;
use vstd::prelude::*;

verus! {

/// The one item that a query matched.
///
/// The wrapper adds nothing to the item and hides nothing of it: its view is the item.
pub struct Single<T>(pub T);

impl<T> View for Single<T> {
    type V = T;

    open spec fn view(&self) -> T {
        self.0
    }
}

impl<T> Single<T> {
    /// What a query's answer to "which item is the only match?" becomes: the item, wrapped,
    /// where there is exactly one, and otherwise the reason why there is none to wrap.
    pub open spec fn of(found: Result<T, QuerySingleError>) -> Result<Single<T>, SingleError> {
        match found {
            Ok(item) => Ok(Single(item)),
            Err(error) => Err(SingleError::of(error)),
        }
    }

    /// Wraps the unique match, or says whether the query matched nothing or too much.
    pub fn try_new(found: Result<T, QuerySingleError>) -> (single: Result<Single<T>, SingleError>)
        ensures
            single == Self::of(found),
    {
        match found {
            Ok(item) => Ok(Single(item)),
            Err(error) => Err(SingleError::from(error)),
        }
    }

    /// Wraps the unique match of a query that has one.
    pub fn new(found: Result<T, QuerySingleError>) -> (single: Single<T>)
        requires
            found is Ok,
        ensures
            single@ == found->Ok_0,
    {
        Single(found.unwrap())
    }
}

impl<T> Deref for Single<T> {
    type Target = T;

    /// Read access to the item.
    fn deref(&self) -> (item: &T)
        ensures
            *item == self@,
    {
        &self.0
    }
}

impl<T> DerefMut for Single<T> {
    /// Write access to the item: what the caller leaves behind the returned reference is
    /// what the wrapper holds from then on.
    fn deref_mut(&mut self) -> (item: &mut T)
        ensures
            *item == old(self)@,
            final(self)@ == *final(item),
    {
        &mut self.0
    }
}

/// A query with exactly one match yields a wrapper, and the wrapper shows that match as it is.
pub proof fn lemma_unique_match_is_kept<T>(item: T)
    ensures
        Single::of(Ok::<T, QuerySingleError>(item)) == Ok::<Single<T>, SingleError>(Single(item)),
        Single(item)@ == item,
{
}

/// A query yields a wrapper only where it has exactly one match: with no match, and with more
/// than one, it yields the reason instead, which keeps the case and the name of the query.
pub proof fn lemma_no_unique_match_is_refused<T>(found: Result<T, QuerySingleError>)
    ensures
        Single::of(found) is Err <==> found is Err,
        found matches Err(QuerySingleError::NoEntities(query)) ==> Single::of(found)
            == Err::<Single<T>, SingleError>(SingleError::NoEntities(query)),
        found matches Err(QuerySingleError::MultipleEntities(query)) ==> Single::of(found)
            == Err::<Single<T>, SingleError>(SingleError::MultipleEntities(query)),
{
}

} // verus!
