use vstd::prelude::*;
use crate::action::Action;
use crate::call_site::CallSite;
use crate::metrics::{KeyView, MetricKey};

verus! {

/// A value bound to one placeholder of a statement.
#[derive(Debug, PartialEq, Eq)]
pub enum BindValue {
    Null,
    Bool(bool),
    Int(i64),
    Text(String),
    Bytes(Vec<u8>),
}

/// The bind value that placeholder `$n` receives: the `n`-th of `binds`,
/// counting from one.
pub open spec fn spec_parameter(binds: Seq<BindValue>, n: int) -> Option<BindValue> {
    if 1 <= n <= binds.len() {
        Some(binds[n - 1])
    } else {
        None
    }
}

/// One query to run: who runs it, under which contract, from where, and with
/// what statement and bind values.
#[derive(Debug)]
pub struct QueryInvocation {
    /// The name of the calling context.
    pub context: String,
    pub action: Action,
    pub site: CallSite,
    /// The statement, with placeholders `$1`, `$2`, ...
    pub sql: String,
    /// The bind values, in placeholder order.
    pub binds: Vec<BindValue>,
}

impl QueryInvocation {
    pub fn new(
        context: &str,
        action: Action,
        site: CallSite,
        sql: &str,
        binds: Vec<BindValue>,
    ) -> (r: QueryInvocation)
        ensures
            r.context@ == context@,
            r.action == action,
            r.site == site,
            r.sql@ == sql@,
            r.binds == binds,
    {
        QueryInvocation {
            context: String::from_str(context),
            action,
            site,
            sql: String::from_str(sql),
            binds,
        }
    }

    /// The labels of the metric series this invocation is counted in.
    pub open spec fn key_view(&self) -> KeyView {
        (self.action, self.context@, self.site@)
    }

    pub fn metric_key(&self) -> (r: MetricKey)
        ensures
            r@ == self.key_view(),
    {
        MetricKey { action: self.action, context: self.context.clone(), site: self.site.duplicate() }
    }

    /// The number of bind values.
    pub fn bind_count(&self) -> (r: usize)
        ensures
            r == self.binds@.len(),
    {
        self.binds.len()
    }

    /// The bind value that placeholder `$n` receives.
    pub fn parameter(&self, n: usize) -> (r: Option<&BindValue>)
        ensures
            match r {
                Some(v) => spec_parameter(self.binds@, n as int) == Some(*v),
                None => spec_parameter(self.binds@, n as int) is None,
            },
    {
        if 1 <= n && n <= self.binds.len() {
            Some(&self.binds[n - 1])
        } else {
            None
        }
    }
}

/// Bind values are applied strictly by position: placeholder `$n` receives the
/// `n`-th value, and exchanging two values exchanges the placeholders they go to.
pub proof fn lemma_binds_positional(binds: Seq<BindValue>, i: int, j: int)
    requires
        0 <= i < binds.len(),
        0 <= j < binds.len(),
    ensures
        spec_parameter(binds, i + 1) == Some(binds[i]),
        spec_parameter(binds.update(i, binds[j]).update(j, binds[i]), i + 1) == Some(binds[j]),
        spec_parameter(binds.update(i, binds[j]).update(j, binds[i]), j + 1) == Some(binds[i]),
        forall|n: int|
            n != i + 1 && n != j + 1 ==> #[trigger] spec_parameter(
                binds.update(i, binds[j]).update(j, binds[i]),
                n,
            ) == spec_parameter(binds, n),
{
}

} // verus!
