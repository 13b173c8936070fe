use vstd::prelude::*;

verus! {

/// The cardinality contract a query is executed under.
#[derive(Clone, Copy, Debug, PartialEq, Eq, Structural)]
pub enum Action {
    /// Runs a statement and yields the number of affected rows.
    Execute,
    /// Requires exactly one row.
    FetchOne,
    /// Allows zero or one row.
    FetchOptional,
    /// Materializes every row, in the order the database returned them.
    FetchAll,
    /// Yields the items of one or more result sets, in order.
    FetchMany,
    /// Hands back a lazily driven row stream, outside any timed scope.
    FetchStream,
}

impl Action {
    /// Whether an invocation of this action is counted, timed and logged.
    pub open spec fn spec_instrumented(self) -> bool {
        !(self is FetchStream)
    }

    /// The label used for this action in metric series and log records.
    pub open spec fn spec_label(self) -> Seq<char> {
        match self {
            Action::Execute => seq!['e', 'x', 'e', 'c', 'u', 't', 'e'],
            Action::FetchOne => seq!['f', 'e', 't', 'c', 'h', '_', 'o', 'n', 'e'],
            Action::FetchOptional => seq![
                'f', 'e', 't', 'c', 'h', '_', 'o', 'p', 't', 'i', 'o', 'n', 'a', 'l',
            ],
            Action::FetchAll => seq!['f', 'e', 't', 'c', 'h', '_', 'a', 'l', 'l'],
            Action::FetchMany => seq!['f', 'e', 't', 'c', 'h', '_', 'm', 'a', 'n', 'y'],
            Action::FetchStream => seq!['f', 'e', 't', 'c', 'h'],
        }
    }

    pub fn is_instrumented(&self) -> (r: bool)
        ensures
            r == self.spec_instrumented(),
    {
        match self {
            Action::FetchStream => false,
            _ => true,
        }
    }

    pub fn label(&self) -> (r: &'static str)
        ensures
            r@ == self.spec_label(),
    {
        match self {
            Action::Execute => {
                let s = "execute";
                proof {
                    reveal_strlit("execute");
                }
                assert(s@ =~= self.spec_label());
                s
            },
            Action::FetchOne => {
                let s = "fetch_one";
                proof {
                    reveal_strlit("fetch_one");
                }
                assert(s@ =~= self.spec_label());
                s
            },
            Action::FetchOptional => {
                let s = "fetch_optional";
                proof {
                    reveal_strlit("fetch_optional");
                }
                assert(s@ =~= self.spec_label());
                s
            },
            Action::FetchAll => {
                let s = "fetch_all";
                proof {
                    reveal_strlit("fetch_all");
                }
                assert(s@ =~= self.spec_label());
                s
            },
            Action::FetchMany => {
                let s = "fetch_many";
                proof {
                    reveal_strlit("fetch_many");
                }
                assert(s@ =~= self.spec_label());
                s
            },
            Action::FetchStream => {
                let s = "fetch";
                proof {
                    reveal_strlit("fetch");
                }
                assert(s@ =~= self.spec_label());
                s
            },
        }
    }
}

} // verus!
