use vstd::prelude::*;
use crate::action::Action;
use crate::error::QueryError;

verus! {

/// The outcome of a fetch-one query whose statement returned `rows`: the single
/// row, or a cardinality error when there are none or more than one.
pub open spec fn spec_fetch_one<R, E>(rows: Seq<R>) -> Result<R, QueryError<E>> {
    if rows.len() == 1 {
        Ok(rows[0])
    } else {
        Err(QueryError::Cardinality { action: Action::FetchOne, rows: rows.len() as usize })
    }
}

/// The outcome of a fetch-optional query whose statement returned `rows`:
/// nothing, the single row, or a cardinality error when there is more than one.
pub open spec fn spec_fetch_optional<R, E>(rows: Seq<R>) -> Result<Option<R>, QueryError<E>> {
    if rows.len() == 0 {
        Ok(None)
    } else if rows.len() == 1 {
        Ok(Some(rows[0]))
    } else {
        Err(QueryError::Cardinality { action: Action::FetchOptional, rows: rows.len() as usize })
    }
}

/// Applies the fetch-one contract to the rows a statement returned.
pub fn fetch_one<R, E>(rows: Vec<R>) -> (r: Result<R, QueryError<E>>)
    ensures
        r == spec_fetch_one::<R, E>(rows@),
{
    let n = rows.len();
    if n == 1 {
        let mut rows = rows;
        match rows.pop() {
            Some(row) => Ok(row),
            None => Err(QueryError::Cardinality { action: Action::FetchOne, rows: n }),
        }
    } else {
        Err(QueryError::Cardinality { action: Action::FetchOne, rows: n })
    }
}

/// Applies the fetch-optional contract to the rows a statement returned.
pub fn fetch_optional<R, E>(rows: Vec<R>) -> (r: Result<Option<R>, QueryError<E>>)
    ensures
        r == spec_fetch_optional::<R, E>(rows@),
{
    let n = rows.len();
    if n == 0 {
        Ok(None)
    } else if n == 1 {
        let mut rows = rows;
        Ok(rows.pop())
    } else {
        Err(QueryError::Cardinality { action: Action::FetchOptional, rows: n })
    }
}

/// Applies the fetch-all contract: every row, in the order the database
/// returned them, and no error for an empty result.
pub fn fetch_all<R, E>(rows: Vec<R>) -> (r: Result<Vec<R>, QueryError<E>>)
    ensures
        r matches Ok(v) && v@ == rows@,
{
    Ok(rows)
}

} // verus!

verus! {

/// One item of a multi-statement result, as the driver delivers it: a row, or
/// the end of one statement's result set with the number of rows it affected.
#[derive(Debug)]
pub enum ResultItem<R> {
    Row(R),
    Done(u64),
}

/// The result sets closed so far by `items`, and the rows of the set still open.
pub open spec fn split_sets<R>(items: Seq<ResultItem<R>>) -> (Seq<Seq<R>>, Seq<R>)
    decreases items.len(),
{
    if items.len() == 0 {
        (Seq::empty(), Seq::empty())
    } else {
        let (closed, open) = split_sets(items.drop_last());
        match items.last() {
            ResultItem::Row(r) => (closed, open.push(r)),
            ResultItem::Done(_) => (closed.push(open), Seq::empty()),
        }
    }
}

/// The row groups of a multi-statement result, in order: each end-of-set item
/// closes a group, and rows after the last one form a final group.
pub open spec fn spec_groups<R>(items: Seq<ResultItem<R>>) -> Seq<Seq<R>> {
    let (closed, open) = split_sets(items);
    if open.len() == 0 {
        closed
    } else {
        closed.push(open)
    }
}

/// Applies the fetch-many contract: the rows of each result set as one group,
/// groups and rows in the order the database returned them.
pub fn fetch_many<R, E>(items: Vec<ResultItem<R>>) -> (r: Result<Vec<Vec<R>>, QueryError<E>>)
    ensures
        r matches Ok(g) && g@.map_values(|v: Vec<R>| v@) == spec_groups(items@),
{
    let ghost all = items@;
    let mut groups: Vec<Vec<R>> = Vec::new();
    let mut open: Vec<R> = Vec::new();
    for item in it: items.into_iter()
        invariant
            it.seq() == all,
            groups@.map_values(|v: Vec<R>| v@) == split_sets(all.take(it.index() as int)).0,
            open@ == split_sets(all.take(it.index() as int)).1,
    {
        proof {
            assert(all.take(it.index() + 1).drop_last() =~= all.take(it.index() as int));
        }
        let ghost before = groups@.map_values(|v: Vec<R>| v@);
        match item {
            ResultItem::Row(row) => {
                open.push(row);
                assert(groups@.map_values(|v: Vec<R>| v@) =~= before);
            },
            ResultItem::Done(_) => {
                let ghost closed = open@;
                groups.push(open);
                open = Vec::new();
                assert(groups@.map_values(|v: Vec<R>| v@) =~= before.push(closed));
            },
        }
    }
    assert(all.take(all.len() as int) =~= all);
    if open.len() > 0 {
        let ghost before = groups@.map_values(|v: Vec<R>| v@);
        let ghost last = open@;
        groups.push(open);
        assert(groups@.map_values(|v: Vec<R>| v@) =~= before.push(last));
    }
    Ok(groups)
}

} // verus!
