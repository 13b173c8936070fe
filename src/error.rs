use vstd::prelude::*;
use crate::action::Action;
use vstd::string::StringExecFns;

verus! {

/// How the database driver reported a failed round trip.
///
/// `E` is the driver's own error value; it is carried through unchanged.
#[derive(Debug)]
pub enum DriverFailure<E> {
    /// The bind parameters did not match the statement's placeholders.
    Bind(E),
    /// Any other failure: a constraint violation, a lost connection, a timeout,
    /// a row that could not be decoded.
    Fault(E),
}

/// The uniform error of the query layer. Each variant that stems from a
/// collaborator keeps that collaborator's error value as its cause.
#[derive(Debug)]
pub enum QueryError<E> {
    /// The connection for the context could not be resolved.
    ConnectionResolution(E),
    /// The driver failed to run the statement.
    Execution(E),
    /// The number of rows returned broke the action's cardinality contract.
    Cardinality { action: Action, rows: usize },
    /// The bind parameters did not match the statement's placeholders.
    Binding(E),
}

/// The domain error that a driver failure maps to.
pub open spec fn spec_map_failure<E>(f: DriverFailure<E>) -> QueryError<E> {
    match f {
        DriverFailure::Bind(e) => QueryError::Binding(e),
        DriverFailure::Fault(e) => QueryError::Execution(e),
    }
}

/// Maps a driver failure into the domain error, keeping its cause.
pub fn map_failure<E>(f: DriverFailure<E>) -> (r: QueryError<E>)
    ensures
        r == spec_map_failure(f),
{
    match f {
        DriverFailure::Bind(e) => QueryError::Binding(e),
        DriverFailure::Fault(e) => QueryError::Execution(e),
    }
}

/// The SQLSTATE a server reports when the bind message does not match the
/// prepared statement's parameters (`protocol_violation`).
pub open spec fn bind_mismatch_state() -> Seq<char> {
    seq!['0', '8', 'P', '0', '1']
}

/// Classifies a failed round trip by the SQLSTATE the server reported, if any:
/// a parameter mismatch is a bind failure, anything else a fault.
pub fn classify_failure<E>(cause: E, sqlstate: Option<String>) -> (r: DriverFailure<E>)
    ensures
        r == if sqlstate matches Some(s) && s@ == bind_mismatch_state() {
            DriverFailure::Bind(cause)
        } else {
            DriverFailure::Fault(cause)
        },
{
    let mismatch = String::from_str("08P01");
    proof {
        reveal_strlit("08P01");
    }
    assert(mismatch@ =~= bind_mismatch_state());
    match sqlstate {
        Some(s) => {
            if s == mismatch {
                DriverFailure::Bind(cause)
            } else {
                DriverFailure::Fault(cause)
            }
        },
        None => DriverFailure::Fault(cause),
    }
}

} // verus!
