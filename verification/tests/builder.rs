use typestate_builder::Filled;
use typestate_builder::ItemBuilder;
use typestate_builder::Unset;
use typestate_builder::is_set;

#[test]
fn marker_query_distinguishes_the_markers() {
    assert!(!is_set::<Unset>());
    assert!(is_set::<Filled>());
}

#[test]
fn fresh_builder_discards_nothing() {
    let builder = ItemBuilder::new();
    assert_eq!(builder.discard(), 0);
}

#[test]
fn one_set_field_discards_exactly_one() {
    let builder = ItemBuilder::new().a(String::from("str"));
    assert_eq!(builder.discard(), 1);
}

#[test]
fn one_set_field_b_discards_exactly_one() {
    let builder = ItemBuilder::new().b(vec![1, 2, 3, 4]);
    assert_eq!(builder.discard(), 1);
}

#[test]
fn both_fields_set_discards_two() {
    let builder = ItemBuilder::new().a(String::from("str")).b(vec![5, 6, 7, 8, 9, 10]);
    assert_eq!(builder.discard(), 2);
}

#[test]
fn overwriting_a_leaves_one_live_value() {
    let builder = ItemBuilder::new().a(String::from("str")).a(String::from("str2"));
    assert_eq!(builder.discard(), 1);
}

#[test]
fn overwriting_b_leaves_one_live_value() {
    let builder = ItemBuilder::new().b(vec![1, 2, 3, 4]).b(vec![5, 6, 7, 8, 9, 10]);
    assert_eq!(builder.discard(), 1);
}

#[test]
fn construct_hands_over_the_set_values() {
    let item = ItemBuilder::new().a(String::from("incomplete")).b(vec![]).construct();
    assert_eq!(item.a, "incomplete");
    assert_eq!(item.b, Vec::<i32>::new());
}

#[test]
fn construct_returns_the_last_values_set() {
    let item = ItemBuilder::new()
        .a(String::from("str"))
        .a(String::from("str2"))
        .b(vec![1, 2, 3, 4])
        .b(vec![5, 6, 7, 8, 9, 10])
        .construct();
    assert_eq!(item.a, "str2");
    assert_eq!(item.b, vec![5, 6, 7, 8, 9, 10]);
}

#[test]
fn setter_order_does_not_matter_for_the_result() {
    let item = ItemBuilder::new().b(vec![42]).a(String::from("later")).construct();
    assert_eq!(item.a, "later");
    assert_eq!(item.b, vec![42]);
}

#[test]
fn constructed_item_owns_its_fields_outright() {
    let item = ItemBuilder::new().a(String::from("owned")).b(vec![9]).construct();
    let a = item.a;
    let b = item.b;
    assert_eq!(a.as_str(), "owned");
    assert_eq!(b.len(), 1);
}
