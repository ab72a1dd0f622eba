//! Transactional writes: an ordered, append-only sequence of put, update
//! and delete operations submitted as one atomic request, governed by a
//! retry policy through an explicit run state machine.

use vstd::prelude::*;
use vstd::string::*;
use crate::errors::WriteError;
use crate::expression::ExpressionFragment;
use crate::retry::{decide_retry, policy_allows_retry, Policy};
use crate::update::UpdateItemInput;
use crate::assoc::AssocMap;
use crate::values::{AttrValueView, AttributeNames, AttributeValue, AttributeValues};

verus! {

/// One put operation of a transaction: the full item to store, with an
/// optional condition.
pub struct PutItemInput {
    pub table_name: String,
    pub item: AttributeValues,
    pub condition_expression: Option<String>,
    pub condition_names: AttributeNames,
    pub condition_values: AttributeValues,
}

impl PutItemInput {
    /// A put of `item` into `table_name`, unconditional.
    pub fn new(table_name: String, item: AttributeValues) -> (r: PutItemInput)
        ensures
            r.table_name == table_name,
            r.item == item,
            r.condition_expression is None,
            r.condition_names@ == Map::<Seq<char>, Seq<char>>::empty(),
            r.condition_values@ == Map::<Seq<char>, AttrValueView>::empty(),
    {
        PutItemInput {
            table_name,
            item,
            condition_expression: None,
            condition_names: AssocMap::new(),
            condition_values: AssocMap::new(),
        }
    }

    /// Guards the put with a condition expression and its substitution
    /// entries.
    pub fn condition(self, cond: ExpressionFragment) -> (r: PutItemInput)
        ensures
            r == (PutItemInput {
                condition_expression: r.condition_expression,
                condition_names: r.condition_names,
                condition_values: r.condition_values,
                ..self
            }),
            r.condition_expression matches Some(e) && e == cond.expression,
            r.condition_names == cond.names,
            r.condition_values == cond.values,
    {
        let mut s = self;
        s.condition_expression = Some(cond.expression);
        s.condition_names = cond.names;
        s.condition_values = cond.values;
        s
    }

    /// Rewrites the table name with a prefix, as per-operation table-name
    /// resolution permits.
    pub fn table_prefix(self, prefix: &str) -> (r: PutItemInput)
        ensures
            r == (PutItemInput { table_name: r.table_name, ..self }),
            r.table_name@ == prefix@ + self.table_name@,
    {
        let mut s = self;
        let mut t = String::from_str(prefix);
        t.append(s.table_name.as_str());
        s.table_name = t;
        s
    }

    /// Rewrites the table name with a suffix.
    pub fn table_suffix(self, suffix: &str) -> (r: PutItemInput)
        ensures
            r == (PutItemInput { table_name: r.table_name, ..self }),
            r.table_name@ == self.table_name@ + suffix@,
    {
        let mut s = self;
        s.table_name.append(suffix);
        s
    }
}

/// One delete operation of a transaction: the key of the item to delete,
/// with an optional condition.
pub struct DeleteItemInput {
    pub table_name: String,
    pub key: AttributeValues,
    pub condition_expression: Option<String>,
    pub condition_names: AttributeNames,
    pub condition_values: AttributeValues,
}

impl DeleteItemInput {
    /// A delete from `table_name`, its key still to be filled in.
    pub fn new(table_name: String) -> (r: DeleteItemInput)
        ensures
            r.table_name == table_name,
            r.key@ == Map::<Seq<char>, AttrValueView>::empty(),
            r.condition_expression is None,
            r.condition_names@ == Map::<Seq<char>, Seq<char>>::empty(),
            r.condition_values@ == Map::<Seq<char>, AttrValueView>::empty(),
    {
        DeleteItemInput {
            table_name,
            key: AssocMap::new(),
            condition_expression: None,
            condition_names: AssocMap::new(),
            condition_values: AssocMap::new(),
        }
    }

    /// Adds one key attribute (the partition key, or the sort key).
    pub fn key_attribute(self, name: String, value: AttributeValue) -> (r: DeleteItemInput)
        ensures
            r == (DeleteItemInput { key: r.key, ..self }),
            r.key@ == self.key@.insert(name@, value@),
    {
        let mut s = self;
        s.key.insert(name, value);
        s
    }

    /// Guards the delete with a condition expression and its substitution
    /// entries.
    pub fn condition(self, cond: ExpressionFragment) -> (r: DeleteItemInput)
        ensures
            r == (DeleteItemInput {
                condition_expression: r.condition_expression,
                condition_names: r.condition_names,
                condition_values: r.condition_values,
                ..self
            }),
            r.condition_expression matches Some(e) && e == cond.expression,
            r.condition_names == cond.names,
            r.condition_values == cond.values,
    {
        let mut s = self;
        s.condition_expression = Some(cond.expression);
        s.condition_names = cond.names;
        s.condition_values = cond.values;
        s
    }
}

/// One write of a transaction.
pub enum WriteOperation {
    Put(PutItemInput),
    Update(UpdateItemInput),
    Delete(DeleteItemInput),
}

/// The table name an operation addresses.
pub open spec fn op_table_name(op: WriteOperation) -> Seq<char> {
    match op {
        WriteOperation::Put(p) => p.table_name@,
        WriteOperation::Update(u) => u.table_name@,
        WriteOperation::Delete(d) => d.table_name@,
    }
}

/// A transaction is well formed when it holds at least one operation and
/// every operation resolves a non-empty table name.
pub open spec fn spec_well_formed(ops: Seq<WriteOperation>) -> bool {
    &&& ops.len() > 0
    &&& forall|i: int| 0 <= i < ops.len() ==> op_table_name(ops[i]).len() > 0
}

/// An ordered, append-only transactional write request; it is owned by the
/// builder until submission and submitted as one atomic request.
pub struct TransactionRequest {
    pub operations: Vec<WriteOperation>,
}

impl TransactionRequest {
    /// An empty transaction.
    pub fn new() -> (r: TransactionRequest)
        ensures
            r.operations@ =~= Seq::<WriteOperation>::empty(),
    {
        TransactionRequest { operations: Vec::new() }
    }

    /// Appends a put operation.
    pub fn put(self, p: PutItemInput) -> (r: TransactionRequest)
        ensures
            r.operations@ == self.operations@.push(WriteOperation::Put(p)),
    {
        let mut s = self;
        s.operations.push(WriteOperation::Put(p));
        s
    }

    /// Appends an update operation, already compiled.
    pub fn update(self, u: UpdateItemInput) -> (r: TransactionRequest)
        ensures
            r.operations@ == self.operations@.push(WriteOperation::Update(u)),
    {
        let mut s = self;
        s.operations.push(WriteOperation::Update(u));
        s
    }

    /// Appends a delete operation.
    pub fn delete(self, d: DeleteItemInput) -> (r: TransactionRequest)
        ensures
            r.operations@ == self.operations@.push(WriteOperation::Delete(d)),
    {
        let mut s = self;
        s.operations.push(WriteOperation::Delete(d));
        s
    }

    /// Checks each operation independently: the request must hold at least
    /// one operation and each must resolve a non-empty table name.
    pub fn validate(&self) -> (r: Result<(), WriteError>)
        ensures
            r is Ok <==> spec_well_formed(self.operations@),
            r matches Err(e) ==> e matches WriteError::Validation(_),
    {
        if self.operations.len() == 0 {
            return Err(WriteError::Validation(String::from_str("empty transaction")));
        }
        let mut i: usize = 0;
        while i < self.operations.len()
            invariant
                i <= self.operations.len(),
                forall|j: int| 0 <= j < i ==> op_table_name(self.operations@[j]).len() > 0,
            decreases self.operations.len() - i,
        {
            let empty_name = match &self.operations[i] {
                WriteOperation::Put(p) => p.table_name.as_str().is_empty(),
                WriteOperation::Update(u) => u.table_name.as_str().is_empty(),
                WriteOperation::Delete(d) => d.table_name.as_str().is_empty(),
            };
            if empty_name {
                return Err(WriteError::Validation(String::from_str("empty table name")));
            }
            i = i + 1;
        }
        Ok(())
    }
}

/// The runner's states: still submitting, or settled.
pub enum RunState {
    Pending,
    Succeeded,
    Failed(WriteError),
}

/// The retry-governed runner of one transactional write. The surrounding
/// code performs each network submission and reports its outcome here; the
/// runner keeps the attempt count and decides resubmission, never changing
/// the accumulated operations between attempts. Intermediate errors are not
/// surfaced: the run settles as succeeded, or as failed with the error of
/// the last attempt.
pub struct TransactionRunner {
    pub request: TransactionRequest,
    pub policy: Policy,
    pub attempts: usize,
    pub state: RunState,
}

impl TransactionRunner {
    /// Starts a run of `request` under `policy`; no attempt is made yet.
    pub fn new(request: TransactionRequest, policy: Policy) -> (r: TransactionRunner)
        ensures
            r.request == request,
            r.policy == policy,
            r.attempts == 0,
            r.state matches RunState::Pending,
    {
        TransactionRunner { request, policy, attempts: 0, state: RunState::Pending }
    }

    /// Whether another submission is owed.
    pub fn is_pending(&self) -> (r: bool)
        ensures
            r == (self.state matches RunState::Pending),
    {
        match self.state {
            RunState::Pending => true,
            _ => false,
        }
    }

    /// Records a successful submission: the run settles as succeeded.
    pub fn record_success(&mut self)
        requires
            old(self).state matches RunState::Pending,
            old(self).attempts < usize::MAX,
        ensures
            final(self).attempts == old(self).attempts + 1,
            final(self).state matches RunState::Succeeded,
            final(self).request == old(self).request,
            final(self).policy == old(self).policy,
    {
        self.attempts = self.attempts + 1;
        self.state = RunState::Succeeded;
    }

    /// Records a failed submission and decides resubmission: the same
    /// request is resubmitted exactly when the strategy asked to retry and
    /// the policy still permits another attempt; otherwise the run settles
    /// as failed with this last observed error.
    pub fn record_failure(&mut self, error: WriteError, wants_retry: bool) -> (retry: bool)
        requires
            old(self).state matches RunState::Pending,
            old(self).attempts < usize::MAX,
        ensures
            final(self).attempts == old(self).attempts + 1,
            retry == (wants_retry && policy_allows_retry(
                old(self).policy,
                (old(self).attempts + 1) as nat,
            )),
            retry ==> final(self).state matches RunState::Pending,
            !retry ==> (final(self).state matches RunState::Failed(e) && e == error),
            final(self).request == old(self).request,
            final(self).policy == old(self).policy,
    {
        self.attempts = self.attempts + 1;
        let retry = decide_retry(self.policy, wants_retry, self.attempts);
        if !retry {
            self.state = RunState::Failed(error);
        }
        retry
    }
}

} // verus!
