use payrex::types::common::{Deleted, Expandable, RangeQuery};
use payrex::types::ids::CustomerId;

#[test]
fn test_expandable_id() {
    let expandable: Expandable<String, String> = Expandable::Id("test_id".to_string());
    assert!(expandable.is_id());
    assert!(!expandable.is_object());
    assert_eq!(expandable.as_id(), Some(&"test_id".to_string()));
}

#[test]
fn test_expandable_object() {
    let expandable: Expandable<String, String> =
        Expandable::Object(Box::new("test_object".to_string()));
    assert!(!expandable.is_id());
    assert!(expandable.is_object());
    assert_eq!(expandable.as_object(), Some(&"test_object".to_string()));
}

#[test]
fn test_range_query() {
    let range = RangeQuery::new().gte(10).lt(100);

    assert_eq!(range.gte, Some(10));
    assert_eq!(range.lt, Some(100));
    assert_eq!(range.gt, None);
    assert_eq!(range.lte, None);
}

#[test]
fn expandable_gives_nothing_of_the_other_side() {
    let id: Expandable<u32, String> = Expandable::Id(7);
    assert_eq!(id.as_object(), None);
    let object: Expandable<u32, String> = Expandable::Object(Box::new("o".to_string()));
    assert_eq!(object.as_id(), None);
}

#[test]
fn range_query_setters_keep_the_other_bounds() {
    let range = RangeQuery::new().gt(1).gte(2).lt(3).lte(4);
    assert_eq!(range, RangeQuery { gt: Some(1), gte: Some(2), lt: Some(3), lte: Some(4) });
    let again = range.gt(9);
    assert_eq!(again, RangeQuery { gt: Some(9), gte: Some(2), lt: Some(3), lte: Some(4) });
    assert_eq!(RangeQuery::<u8>::default(), RangeQuery::new());
}

#[test]
fn deleted_new_and_object() {
    let deleted = Deleted::new(CustomerId::new("cus_1"));
    assert_eq!(deleted.id.as_str(), "cus_1");
    assert!(deleted.deleted);
    assert_eq!(deleted.object, None);
    let deleted = deleted.object("customer");
    assert_eq!(deleted.object.as_deref(), Some("customer"));
    assert_eq!(deleted.id.as_str(), "cus_1");
    assert!(deleted.deleted);
}
