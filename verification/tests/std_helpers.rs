use mp_core::assertions::{assert_present, assert_unwrap};
use mp_core::function_composition::{compose, Pipe};
use mp_core::types::{EntityRecord, HasId, Id};
use std::collections::HashMap;

#[test]
fn test_assert_some() {
    let result = assert_present(Some(42), "Value should exist");
    assert_eq!(result.unwrap(), 42);
}

#[test]
fn test_assert_none() {
    let result = assert_present(None::<i32>, "Value should exist");
    assert!(result.is_err());
    assert_eq!(result.unwrap_err(), "Value should exist");
}

#[test]
fn test_assert_unwrap_some() {
    let value = assert_unwrap(Some(42), "Value should exist");
    assert_eq!(value, 42);
}

#[test]
fn test_compose() {
    let add_one = |x: i32| x + 1;
    let multiply_two = |x: i32| x * 2;

    let composed = compose(add_one, multiply_two);
    assert_eq!(composed(5), 12); // (5 + 1) * 2
}

#[test]
fn test_pipe() {
    let result = 5.pipe(|x| x + 1).pipe(|x| x * 2);

    assert_eq!(result, 12);
}

#[test]
fn compose_changes_types_and_can_be_called_again() {
    let length = |text: &str| text.len();
    let is_even = |n: usize| n % 2 == 0;
    let even_length = compose(length, is_even);
    assert!(even_length("ab"));
    assert!(!even_length("abc"));
    assert!(even_length(""));
}

#[test]
fn pipe_moves_the_value_into_the_function() {
    let text = String::from("ab").pipe(|mut s| {
        s.push('c');
        s
    });
    assert_eq!(text, "abc");
}

struct TestEntity {
    id: String,
    #[allow(dead_code)]
    name: String,
}

impl HasId for TestEntity {
    fn id(&self) -> &Id {
        &self.id
    }
}

#[test]
fn test_entity_record() {
    let mut record: EntityRecord<TestEntity> = HashMap::new();
    let entity = TestEntity { id: "test".to_string(), name: "Test Entity".to_string() };

    record.insert(entity.id().clone(), entity);
    assert_eq!(record.len(), 1);
}
