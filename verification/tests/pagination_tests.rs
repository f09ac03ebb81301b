use payrex::types::pagination::{List, ListParams};

#[test]
fn test_list_empty() {
    let list: List<String> = List::empty();
    assert!(list.is_empty());
    assert_eq!(list.len(), 0);
    assert!(!list.has_more);
}

#[test]
fn test_list_with_data() {
    let list = List {
        object: Some("list".to_string()),
        data: vec!["item1".to_string(), "item2".to_string()],
        has_more: true,
        next_page: Some("next_url".to_string()),
        total_count: Some(10),
    };

    assert!(!list.is_empty());
    assert_eq!(list.len(), 2);
    assert!(list.has_more);
    assert_eq!(list.total_count, Some(10));
}

#[test]
fn test_list_iteration() {
    let list = List {
        object: Some("list".to_string()),
        data: vec![1, 2, 3],
        has_more: false,
        next_page: None,
        total_count: Some(3),
    };

    let items: Vec<_> = list.iter().copied().collect();
    assert_eq!(items, vec![1, 2, 3]);
}

#[test]
fn test_list_into_iter() {
    let list = List {
        object: Some("list".to_string()),
        data: vec![1, 2, 3],
        has_more: false,
        next_page: None,
        total_count: Some(3),
    };

    let items: Vec<_> = list.into_iter().collect();
    assert_eq!(items, vec![1, 2, 3]);
}

#[test]
fn test_list_params() {
    let params = ListParams::new().limit(50).after("obj_123");

    assert_eq!(params.limit, Some(50));
    assert_eq!(params.after, Some("obj_123".to_string()));
}

#[test]
fn test_list_params_limit_clamping() {
    let params = ListParams::new().limit(200);
    assert_eq!(params.limit, Some(100)); // Should be clamped to 100

    let params = ListParams::new().limit(0);
    assert_eq!(params.limit, Some(1)); // Should be clamped to 1
}

#[test]
fn list_empty_is_a_list_with_a_total_of_zero() {
    let list: List<u8> = List::empty();
    assert_eq!(list.object.as_deref(), Some("list"));
    assert_eq!(list.next_page, None);
    assert_eq!(list.total_count, Some(0));
    assert_eq!(List::<u8>::default(), list);
}

#[test]
fn list_params_limit_at_the_bounds() {
    assert_eq!(ListParams::new().limit(1).limit, Some(1));
    assert_eq!(ListParams::new().limit(100).limit, Some(100));
    assert_eq!(ListParams::new().limit(101).limit, Some(100));
    assert_eq!(ListParams::new().limit(u32::MAX).limit, Some(100));
}

#[test]
fn list_params_setters_keep_the_other_fields() {
    let params = ListParams::new().limit(20).after("a").before(String::from("b"));
    assert_eq!(params.limit, Some(20));
    assert_eq!(params.after.as_deref(), Some("a"));
    assert_eq!(params.before.as_deref(), Some("b"));
    let copy = params.clone();
    assert_eq!(copy.limit, Some(20));
    assert_eq!(copy.after.as_deref(), Some("a"));
    assert_eq!(copy.before.as_deref(), Some("b"));
    let empty = ListParams::default();
    assert_eq!(empty.limit, None);
    assert_eq!(empty.after, None);
    assert_eq!(empty.before, None);
}

#[test]
fn list_can_be_walked_by_reference_and_by_value() {
    let list = List {
        object: Some("list".to_string()),
        data: vec!["a".to_string(), "b".to_string()],
        has_more: false,
        next_page: None,
        total_count: Some(2),
    };
    let mut seen = Vec::new();
    for item in &list {
        seen.push(item.as_str());
    }
    assert_eq!(seen, ["a", "b"]);
    let mut owned = Vec::new();
    for item in list {
        owned.push(item);
    }
    assert_eq!(owned, ["a", "b"]);
}
