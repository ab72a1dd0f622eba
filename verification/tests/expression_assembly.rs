use raiden_core::assoc::AssocMap;
use raiden_core::expression::{
    add_fragment, delete_fragment, remove_fragment, set_fragment, ValueIdGenerator,
};
use raiden_core::numerals::decimal_string;
use raiden_core::update::{ReturnValues, UpdateRequest};
use raiden_core::values::{AttributeValue, AttributeValues};

fn empty_values() -> AttributeValues {
    AssocMap::new()
}

#[test]
fn test_decimal_rendering() {
    assert_eq!(decimal_string(0), "0");
    assert_eq!(decimal_string(7), "7");
    assert_eq!(decimal_string(10), "10");
    assert_eq!(decimal_string(12345), "12345");
    assert_eq!(decimal_string(u64::MAX), "18446744073709551615");
}

#[test]
fn test_set_fragment_shape() {
    let mut generator = ValueIdGenerator::new();
    let f = set_fragment("name", AttributeValue::S("bokuweb".to_string()), &mut generator);
    assert_eq!(f.expression, "#name = :value0");
    assert_eq!(f.names.get(&"#name".to_string()), Some(&"name".to_string()));
    assert_eq!(
        f.values.get(&":value0".to_string()),
        Some(&AttributeValue::S("bokuweb".to_string()))
    );
}

#[test]
fn test_compile_single_set() {
    let mut generator = ValueIdGenerator::new();
    let f = set_fragment("name", AttributeValue::S("updated!!".to_string()), &mut generator);
    let request = UpdateRequest::new("user".to_string(), empty_values()).set(f);
    let input = request.compile();
    assert_eq!(input.update_expression, Some("SET #name = :value0".to_string()));
    assert_eq!(input.table_name, "user");
    assert_eq!(input.return_values, ReturnValues::NoValue);
    let names = input.expression_attribute_names.expect("names map owed");
    assert_eq!(names.get(&"#name".to_string()), Some(&"name".to_string()));
    let values = input.expression_attribute_values.expect("values map owed");
    assert_eq!(
        values.get(&":value0".to_string()),
        Some(&AttributeValue::S("updated!!".to_string()))
    );
}

#[test]
fn test_clause_order_and_omission() {
    let mut generator = ValueIdGenerator::new();
    let f_add = add_fragment("a", AttributeValue::N("1".to_string()), &mut generator);
    let f_set = set_fragment("b", AttributeValue::S("x".to_string()), &mut generator);
    let f_remove = remove_fragment("c");
    let f_delete = delete_fragment(
        "d",
        AttributeValue::Ss(vec!["y".to_string()]),
        &mut generator,
    );
    let input = UpdateRequest::new("user".to_string(), empty_values())
        .add(f_add)
        .set(f_set)
        .remove(f_remove)
        .delete(f_delete)
        .compile();
    assert_eq!(
        input.update_expression,
        Some("ADD #a :value0 SET #b = :value1 REMOVE #c DELETE #d :value2".to_string())
    );
    let names = input.expression_attribute_names.expect("names map owed");
    assert_eq!(names.get(&"#a".to_string()), Some(&"a".to_string()));
    assert_eq!(names.get(&"#b".to_string()), Some(&"b".to_string()));
    assert_eq!(names.get(&"#c".to_string()), Some(&"c".to_string()));
    assert_eq!(names.get(&"#d".to_string()), Some(&"d".to_string()));
    let values = input.expression_attribute_values.expect("values map owed");
    assert_eq!(
        values.get(&":value0".to_string()),
        Some(&AttributeValue::N("1".to_string()))
    );
    assert_eq!(
        values.get(&":value2".to_string()),
        Some(&AttributeValue::Ss(vec!["y".to_string()]))
    );
}

#[test]
fn test_empty_request_compiles_to_nothing() {
    let input = UpdateRequest::new("user".to_string(), empty_values()).compile();
    assert!(input.update_expression.is_none());
    assert!(input.expression_attribute_names.is_none());
    assert!(input.expression_attribute_values.is_none());
}

#[test]
fn test_placeholder_ids_unique_in_one_request() {
    let mut generator = ValueIdGenerator::new();
    let f1 = set_fragment("name", AttributeValue::S("first".to_string()), &mut generator);
    let f2 = set_fragment("name", AttributeValue::S("second".to_string()), &mut generator);
    let input = UpdateRequest::new("user".to_string(), empty_values())
        .set(f1)
        .set(f2)
        .compile();
    assert_eq!(
        input.update_expression,
        Some("SET #name = :value0, #name = :value1".to_string())
    );
    let values = input.expression_attribute_values.expect("values map owed");
    assert_eq!(
        values.get(&":value0".to_string()),
        Some(&AttributeValue::S("first".to_string()))
    );
    assert_eq!(
        values.get(&":value1".to_string()),
        Some(&AttributeValue::S("second".to_string()))
    );
}

#[test]
fn test_merge_disjoint_maps_is_commutative_and_lossless() {
    let mut left: AssocMap<String> = AssocMap::new();
    left.insert("#x".to_string(), "x".to_string());
    let mut right: AssocMap<String> = AssocMap::new();
    right.insert("#y".to_string(), "y".to_string());
    left.merge_from(right);

    let mut right2: AssocMap<String> = AssocMap::new();
    right2.insert("#y".to_string(), "y".to_string());
    let mut left2: AssocMap<String> = AssocMap::new();
    left2.insert("#x".to_string(), "x".to_string());
    right2.merge_from(left2);

    for key in ["#x", "#y"] {
        assert_eq!(left.get(&key.to_string()), right2.get(&key.to_string()));
        assert!(left.get(&key.to_string()).is_some());
    }
    assert!(left.get(&"#z".to_string()).is_none());
}

#[test]
fn test_condition_entries_merge_into_compiled_request() {
    let mut generator = ValueIdGenerator::new();
    let f = set_fragment("name", AttributeValue::S("bokuweb".to_string()), &mut generator);
    let cond = raiden_core::expression::ExpressionFragment {
        expression: "attribute_not_exists(#id)".to_string(),
        names: {
            let mut m = AssocMap::new();
            m.insert("#id".to_string(), "id".to_string());
            m
        },
        values: AssocMap::new(),
    };
    let input = UpdateRequest::new("user".to_string(), empty_values())
        .set(f)
        .condition(cond)
        .compile();
    assert_eq!(
        input.condition_expression,
        Some("attribute_not_exists(#id)".to_string())
    );
    let names = input.expression_attribute_names.expect("names map owed");
    assert_eq!(names.get(&"#id".to_string()), Some(&"id".to_string()));
    assert_eq!(names.get(&"#name".to_string()), Some(&"name".to_string()));
}
