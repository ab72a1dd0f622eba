//! The update-expression assembler: accumulates `set`/`add`/`remove`/
//! `delete` fragments and compiles them, at submission time, into one
//! update-expression string plus the merged name and value substitution
//! maps, together with the decoding of a returned attribute map.

use vstd::prelude::*;
use vstd::string::*;
use crate::assoc::AssocMap;
use crate::errors::WriteError;
use crate::expression::ExpressionFragment;
use crate::values::{AttrValueView, AttributeNames, AttributeValues};

verus! {

/// Which item state the backend is asked to return.
#[derive(Clone, Copy, Debug, PartialEq, Eq, Structural)]
pub enum ReturnValues {
    NoValue,
    AllOld,
    AllNew,
}

/// Joins a further fragment body onto a clause body, separating two
/// non-empty parts with `", "` and skipping an empty fragment.
pub open spec fn joined_part(acc: Seq<char>, e: Seq<char>) -> Seq<char> {
    if e.len() == 0 {
        acc
    } else if acc.len() == 0 {
        e
    } else {
        acc + ", "@ + e
    }
}

/// The body of one clause: the non-empty fragment expressions, in order,
/// joined with `", "`.
pub open spec fn clause_body(items: Seq<ExpressionFragment>) -> Seq<char>
    decreases items.len(),
{
    if items.len() == 0 {
        Seq::empty()
    } else {
        joined_part(clause_body(items.drop_last()), items.last().expression@)
    }
}

/// The name entries contributed by one clause's non-empty fragments, a
/// later fragment winning on a shared placeholder.
pub open spec fn clause_names(items: Seq<ExpressionFragment>) -> Map<Seq<char>, Seq<char>>
    decreases items.len(),
{
    if items.len() == 0 {
        Map::empty()
    } else if items.last().expression@.len() == 0 {
        clause_names(items.drop_last())
    } else {
        clause_names(items.drop_last()).union_prefer_right(items.last().names@)
    }
}

/// The value entries contributed by one clause's non-empty fragments.
pub open spec fn clause_values(items: Seq<ExpressionFragment>) -> Map<Seq<char>, AttrValueView>
    decreases items.len(),
{
    if items.len() == 0 {
        Map::empty()
    } else if items.last().expression@.len() == 0 {
        clause_values(items.drop_last())
    } else {
        clause_values(items.drop_last()).union_prefer_right(items.last().values@)
    }
}

/// A clause keyword with its body, or nothing when the body is empty.
pub open spec fn keyword_segment(keyword: Seq<char>, body: Seq<char>) -> Seq<char> {
    if body.len() == 0 {
        Seq::empty()
    } else {
        keyword + " "@ + body
    }
}

/// Joins two expression segments with a single space, dropping an empty one.
pub open spec fn space_joined(a: Seq<char>, b: Seq<char>) -> Seq<char> {
    if a.len() == 0 {
        b
    } else if b.len() == 0 {
        a
    } else {
        a + " "@ + b
    }
}

/// An update request while it is being built: the ordered fragment lists of
/// the four clause kinds, the key, and the optional condition state.
pub struct UpdateRequest {
    pub table_name: String,
    pub key: AttributeValues,
    pub add_items: Vec<ExpressionFragment>,
    pub set_items: Vec<ExpressionFragment>,
    pub remove_items: Vec<ExpressionFragment>,
    pub delete_items: Vec<ExpressionFragment>,
    pub condition_expression: Option<String>,
    pub condition_names: AttributeNames,
    pub condition_values: AttributeValues,
    pub return_values: ReturnValues,
}

/// A compiled, submission-ready update request.
pub struct UpdateItemInput {
    pub table_name: String,
    pub key: AttributeValues,
    pub update_expression: Option<String>,
    pub condition_expression: Option<String>,
    pub expression_attribute_names: Option<AttributeNames>,
    pub expression_attribute_values: Option<AttributeValues>,
    pub return_values: ReturnValues,
}

/// The compiled expression of a request: the clause keywords stand in the
/// fixed order `ADD, SET, REMOVE, DELETE`, each at most once, each with its
/// own clause's body, and a keyword whose clause is empty is omitted.
pub open spec fn spec_update_expression(r: UpdateRequest) -> Seq<char> {
    space_joined(
        space_joined(
            space_joined(
                keyword_segment("ADD"@, clause_body(r.add_items@)),
                keyword_segment("SET"@, clause_body(r.set_items@)),
            ),
            keyword_segment("REMOVE"@, clause_body(r.remove_items@)),
        ),
        keyword_segment("DELETE"@, clause_body(r.delete_items@)),
    )
}

/// The merged name map of a request: the caller-provided condition names,
/// then each clause's names in drain order, a later entry winning.
pub open spec fn spec_merged_names(r: UpdateRequest) -> Map<Seq<char>, Seq<char>> {
    r.condition_names@.union_prefer_right(clause_names(r.add_items@)).union_prefer_right(
        clause_names(r.set_items@),
    ).union_prefer_right(clause_names(r.remove_items@)).union_prefer_right(
        clause_names(r.delete_items@),
    )
}

/// The merged value map of a request, built like the name map.
pub open spec fn spec_merged_values(r: UpdateRequest) -> Map<Seq<char>, AttrValueView> {
    r.condition_values@.union_prefer_right(clause_values(r.add_items@)).union_prefer_right(
        clause_values(r.set_items@),
    ).union_prefer_right(clause_values(r.remove_items@)).union_prefer_right(
        clause_values(r.delete_items@),
    )
}

/// Drains one clause list: joins the non-empty fragment expressions with
/// `", "` and merges their name and value entries into the accumulators.
fn drain_clause(
    items: &mut Vec<ExpressionFragment>,
    names: &mut AttributeNames,
    values: &mut AttributeValues,
) -> (body: String)
    ensures
        body@ == clause_body(old(items)@),
        final(names)@ == old(names)@.union_prefer_right(clause_names(old(items)@)),
        final(values)@ == old(values)@.union_prefer_right(clause_values(old(items)@)),
    decreases items@.len(),
{
    let ghost whole = items@;
    match items.pop() {
        None => {
            proof {
                assert(old(names)@.union_prefer_right(clause_names(whole)) =~= old(names)@);
                assert(old(values)@.union_prefer_right(clause_values(whole)) =~= old(values)@);
            }
            String::new()
        },
        Some(f) => {
            proof {
                assert(items@ =~= whole.drop_last());
                assert(f == whole.last());
            }
            let body0 = drain_clause(items, names, values);
            if f.expression.as_str().is_empty() {
                body0
            } else {
                let ghost names_mid = names@;
                let ghost values_mid = values@;
                names.merge_from(f.names);
                values.merge_from(f.values);
                proof {
                    assert(old(names)@.union_prefer_right(clause_names(whole.drop_last()))
                        .union_prefer_right(f.names@) =~= old(names)@.union_prefer_right(
                        clause_names(whole),
                    ));
                    assert(old(values)@.union_prefer_right(clause_values(whole.drop_last()))
                        .union_prefer_right(f.values@) =~= old(values)@.union_prefer_right(
                        clause_values(whole),
                    ));
                }
                if body0.as_str().is_empty() {
                    proof {
                        assert(body0@ =~= Seq::<char>::empty());
                    }
                    f.expression
                } else {
                    let mut b = body0;
                    b.append(", ");
                    b.append(f.expression.as_str());
                    b
                }
            }
        },
    }
}

/// Appends one clause segment (`"<KEYWORD> <body>"`) to the expression
/// accumulator, separated by a single space; an empty body adds nothing.
fn append_segment(acc: String, keyword: &str, body: String) -> (r: String)
    ensures
        r@ == space_joined(acc@, keyword_segment(keyword@, body@)),
{
    if body.as_str().is_empty() {
        proof {
            assert(body@ =~= Seq::<char>::empty());
        }
        acc
    } else {
        let mut seg = String::from_str(keyword);
        seg.append(" ");
        seg.append(body.as_str());
        if acc.as_str().is_empty() {
            proof {
                assert(acc@ =~= Seq::<char>::empty());
            }
            seg
        } else {
            let mut r = acc;
            r.append(" ");
            r.append(seg.as_str());
            r
        }
    }
}

impl UpdateRequest {
    /// A fresh request against `table_name` for the item under `key`, with
    /// no fragments, no condition, and no return-value demand.
    pub fn new(table_name: String, key: AttributeValues) -> (r: UpdateRequest)
        ensures
            r.table_name == table_name,
            r.key == key,
            r.add_items@ =~= Seq::<ExpressionFragment>::empty(),
            r.set_items@ =~= Seq::<ExpressionFragment>::empty(),
            r.remove_items@ =~= Seq::<ExpressionFragment>::empty(),
            r.delete_items@ =~= Seq::<ExpressionFragment>::empty(),
            r.condition_expression is None,
            r.condition_names@ == Map::<Seq<char>, Seq<char>>::empty(),
            r.condition_values@ == Map::<Seq<char>, AttrValueView>::empty(),
            r.return_values == ReturnValues::NoValue,
    {
        UpdateRequest {
            table_name,
            key,
            add_items: Vec::new(),
            set_items: Vec::new(),
            remove_items: Vec::new(),
            delete_items: Vec::new(),
            condition_expression: None,
            condition_names: AssocMap::new(),
            condition_values: AssocMap::new(),
            return_values: ReturnValues::NoValue,
        }
    }

    /// Appends a `set` fragment.
    pub fn set(self, f: ExpressionFragment) -> (r: UpdateRequest)
        ensures
            r == (UpdateRequest { set_items: r.set_items, ..self }),
            r.set_items@ == self.set_items@.push(f),
    {
        let mut s = self;
        s.set_items.push(f);
        s
    }

    /// Appends an `add` fragment.
    pub fn add(self, f: ExpressionFragment) -> (r: UpdateRequest)
        ensures
            r == (UpdateRequest { add_items: r.add_items, ..self }),
            r.add_items@ == self.add_items@.push(f),
    {
        let mut s = self;
        s.add_items.push(f);
        s
    }

    /// Appends a `remove` fragment.
    pub fn remove(self, f: ExpressionFragment) -> (r: UpdateRequest)
        ensures
            r == (UpdateRequest { remove_items: r.remove_items, ..self }),
            r.remove_items@ == self.remove_items@.push(f),
    {
        let mut s = self;
        s.remove_items.push(f);
        s
    }

    /// Appends a `delete` fragment.
    pub fn delete(self, f: ExpressionFragment) -> (r: UpdateRequest)
        ensures
            r == (UpdateRequest { delete_items: r.delete_items, ..self }),
            r.delete_items@ == self.delete_items@.push(f),
    {
        let mut s = self;
        s.delete_items.push(f);
        s
    }

    /// Sets the condition expression with its own substitution entries; the
    /// assembler merges them into the compiled request, its generated
    /// entries winning on a shared placeholder.
    pub fn condition(self, cond: ExpressionFragment) -> (r: UpdateRequest)
        ensures
            r == (UpdateRequest {
                condition_expression: r.condition_expression,
                condition_names: r.condition_names,
                condition_values: r.condition_values,
                ..self
            }),
            r.condition_expression matches Some(e) && e == cond.expression,
            r.condition_names == cond.names,
            r.condition_values == cond.values,
    {
        let mut s = self;
        s.condition_expression = Some(cond.expression);
        s.condition_names = cond.names;
        s.condition_values = cond.values;
        s
    }

    /// Asks for the item state before the update.
    pub fn return_all_old(self) -> (r: UpdateRequest)
        ensures
            r == (UpdateRequest { return_values: ReturnValues::AllOld, ..self }),
    {
        let mut s = self;
        s.return_values = ReturnValues::AllOld;
        s
    }

    /// Asks for the item state after the update.
    pub fn return_all_new(self) -> (r: UpdateRequest)
        ensures
            r == (UpdateRequest { return_values: ReturnValues::AllNew, ..self }),
    {
        let mut s = self;
        s.return_values = ReturnValues::AllNew;
        s
    }

    /// Compiles the request: drains the clause lists in the fixed order
    /// `add, set, remove, delete`, merging each non-empty fragment's
    /// substitution entries, and emits the clause keywords in the fixed
    /// order `ADD, SET, REMOVE, DELETE`, omitting empty clauses.
    pub fn compile(self) -> (r: UpdateItemInput)
        ensures
            r.table_name == self.table_name,
            r.key == self.key,
            r.condition_expression == self.condition_expression,
            r.return_values == self.return_values,
            r.update_expression matches Some(e) ==> e@ == spec_update_expression(self),
            (r.update_expression is Some) <==> spec_update_expression(self).len() != 0,
            r.expression_attribute_names matches Some(m) ==> m@ == spec_merged_names(self),
            (r.expression_attribute_names is Some) <==> spec_merged_names(self)
                != Map::<Seq<char>, Seq<char>>::empty(),
            r.expression_attribute_values matches Some(m) ==> m@ == spec_merged_values(self),
            (r.expression_attribute_values is Some) <==> spec_merged_values(self)
                != Map::<Seq<char>, AttrValueView>::empty(),
    {
        let UpdateRequest {
            table_name,
            key,
            mut add_items,
            mut set_items,
            mut remove_items,
            mut delete_items,
            condition_expression,
            condition_names,
            condition_values,
            return_values,
        } = self;
        let mut names = condition_names;
        let mut values = condition_values;
        let add_body = drain_clause(&mut add_items, &mut names, &mut values);
        let set_body = drain_clause(&mut set_items, &mut names, &mut values);
        let remove_body = drain_clause(&mut remove_items, &mut names, &mut values);
        let delete_body = drain_clause(&mut delete_items, &mut names, &mut values);
        let mut expression = String::new();
        expression = append_segment(expression, "ADD", add_body);
        expression = append_segment(expression, "SET", set_body);
        expression = append_segment(expression, "REMOVE", remove_body);
        expression = append_segment(expression, "DELETE", delete_body);
        let update_expression = if expression.as_str().is_empty() {
            None
        } else {
            Some(expression)
        };
        let expression_attribute_names = if names.is_empty() {
            None
        } else {
            Some(names)
        };
        let expression_attribute_values = if values.is_empty() {
            None
        } else {
            Some(values)
        };
        UpdateItemInput {
            table_name,
            key,
            update_expression,
            condition_expression,
            expression_attribute_names,
            expression_attribute_values,
            return_values,
        }
    }
}

/// The backend's answer to an update: the optional previous/new attribute
/// map and the metadata it reports.
pub struct UpdateResponse {
    pub attributes: Option<AttributeValues>,
    pub consumed_capacity: Option<String>,
    pub item_collection_metrics: Option<String>,
}

/// The operation's result: the decoded record, when one was requested, and
/// the backend's metadata passed through unchanged.
pub struct UpdateOutput<T> {
    pub item: Option<T>,
    pub consumed_capacity: Option<String>,
    pub item_collection_metrics: Option<String>,
}

/// Decodes a returned attribute map into a declared record type,
/// field by field; a record type of the client implements it. A missing or
/// ill-typed field is a mapping fault of the caller's schema, not retried.
pub trait FromAttributes: Sized {
    fn from_attributes(attributes: &AttributeValues) -> Result<Self, WriteError>;
}

/// Builds the operation's result from the backend's response. When return
/// values were requested, the returned attribute map is decoded into the
/// record type and populates `item`; without such a request no item is
/// materialized. Metadata passes through unchanged either way.
pub fn finish_update<T: FromAttributes>(return_values: ReturnValues, response: UpdateResponse) -> (r:
    Result<UpdateOutput<T>, WriteError>)
    ensures
        return_values == ReturnValues::NoValue ==> (r matches Ok(out) && out.item is None
            && out.consumed_capacity == response.consumed_capacity
            && out.item_collection_metrics == response.item_collection_metrics),
        return_values != ReturnValues::NoValue && response.attributes is None ==> (r matches Err(e)
            && e matches WriteError::Mapping(_)),
        return_values != ReturnValues::NoValue && response.attributes is Some ==> (r matches Ok(out)
            ==> out.item is Some && out.consumed_capacity == response.consumed_capacity
            && out.item_collection_metrics == response.item_collection_metrics),
{
    match return_values {
        ReturnValues::NoValue => Ok(
            UpdateOutput {
                item: None,
                consumed_capacity: response.consumed_capacity,
                item_collection_metrics: response.item_collection_metrics,
            },
        ),
        _ => match response.attributes {
            None => Err(
                WriteError::Mapping(String::from_str("no attribute map came in the response")),
            ),
            Some(attrs) => match T::from_attributes(&attrs) {
                Ok(v) => Ok(
                    UpdateOutput {
                        item: Some(v),
                        consumed_capacity: response.consumed_capacity,
                        item_collection_metrics: response.item_collection_metrics,
                    },
                ),
                Err(e) => Err(e),
            },
        },
    }
}

} // verus!
