use raiden_core::assoc::AssocMap;
use raiden_core::errors::WriteError;
use raiden_core::update::{finish_update, FromAttributes, ReturnValues, UpdateResponse};
use raiden_core::values::{AttributeValue, AttributeValues};

#[derive(Debug, PartialEq)]
struct User {
    id: String,
    name: String,
}

impl FromAttributes for User {
    fn from_attributes(attributes: &AttributeValues) -> Result<Self, WriteError> {
        let id = match attributes.get(&"id".to_string()) {
            Some(AttributeValue::S(s)) => s.clone(),
            _ => return Err(WriteError::Mapping("id is missing".to_string())),
        };
        let name = match attributes.get(&"name".to_string()) {
            Some(AttributeValue::S(s)) => s.clone(),
            _ => return Err(WriteError::Mapping("name is missing".to_string())),
        };
        Ok(User { id, name })
    }
}

fn returned_attributes() -> AttributeValues {
    let mut m = AssocMap::new();
    m.insert("id".to_string(), AttributeValue::S("testId".to_string()));
    m.insert("name".to_string(), AttributeValue::S("updated!!".to_string()));
    m
}

#[test]
fn test_return_all_new_populates_item() {
    let response = UpdateResponse {
        attributes: Some(returned_attributes()),
        consumed_capacity: Some("1.0".to_string()),
        item_collection_metrics: None,
    };
    let out = finish_update::<User>(ReturnValues::AllNew, response).expect("mapping owed");
    assert_eq!(
        out.item,
        Some(User { id: "testId".to_string(), name: "updated!!".to_string() })
    );
    assert_eq!(out.consumed_capacity, Some("1.0".to_string()));
    assert_eq!(out.item_collection_metrics, None);
}

#[test]
fn test_no_return_values_leaves_item_empty() {
    let response = UpdateResponse {
        attributes: Some(returned_attributes()),
        consumed_capacity: Some("2.5".to_string()),
        item_collection_metrics: Some("size".to_string()),
    };
    let out = finish_update::<User>(ReturnValues::NoValue, response).expect("always mapped");
    assert_eq!(out.item, None);
    assert_eq!(out.consumed_capacity, Some("2.5".to_string()));
    assert_eq!(out.item_collection_metrics, Some("size".to_string()));
}

#[test]
fn test_missing_attribute_map_is_a_mapping_error() {
    let response = UpdateResponse {
        attributes: None,
        consumed_capacity: None,
        item_collection_metrics: None,
    };
    match finish_update::<User>(ReturnValues::AllOld, response) {
        Err(err) => assert!(matches!(err, WriteError::Mapping(_))),
        Ok(_) => panic!("a mapping error is owed"),
    }
}

#[test]
fn test_missing_field_is_a_mapping_error() {
    let mut attributes = AssocMap::new();
    attributes.insert("id".to_string(), AttributeValue::S("testId".to_string()));
    let response = UpdateResponse {
        attributes: Some(attributes),
        consumed_capacity: None,
        item_collection_metrics: None,
    };
    match finish_update::<User>(ReturnValues::AllNew, response) {
        Err(err) => assert_eq!(err, WriteError::Mapping("name is missing".to_string())),
        Ok(_) => panic!("a mapping error is owed"),
    }
}
