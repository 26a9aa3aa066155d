use product_service::body::{BodyBuffer, MAX_BODY_BYTES};
use product_service::error::ApiError;
use product_service::handlers::{
    add_product, delete_product, get_product, get_products, update_product, BodyOutcome,
};
use product_service::product::Product;
use product_service::seed::seeded_store;
use product_service::store::ProductStore;

#[test]
fn create_assigns_length_plus_two_for_two_sequential_creates() {
    let mut store = seeded_store();
    let eleventh = Product::new(0, "Widget", 1.0f32.to_bits(), "first extra", "/a.png");
    let r = add_product(&mut store, BodyOutcome::Valid(eleventh));
    assert_eq!(r.unwrap().id, 12);
    let twelfth = Product::new(777, "Gadget", 2.0f32.to_bits(), "second extra", "/b.png");
    let r = add_product(&mut store, BodyOutcome::Valid(twelfth));
    assert_eq!(r.unwrap().id, 13);
    assert_eq!(store.len(), 12);
}

#[test]
fn create_on_an_empty_store_assigns_id_two() {
    let mut store = ProductStore::new();
    let p = Product::new(9, "Lone", 5.25f32.to_bits(), "only one", "/l.png");
    let r = add_product(&mut store, BodyOutcome::Valid(p));
    assert_eq!(r.unwrap().id, 2);
    assert_eq!(store.len(), 1);
}

#[test]
fn round_trip_create_then_get_returns_the_submitted_fields() {
    let mut store = seeded_store();
    let submitted = Product::new(
        0,
        "Posture Coach",
        59.95f32.to_bits(),
        "Sits on your desk and nags you, gently.",
        "/posture.png",
    );
    let stored = add_product(&mut store, BodyOutcome::Valid(submitted)).unwrap();
    let fetched = get_product(&store, stored.id).unwrap();
    assert_eq!(fetched.id, stored.id);
    assert_eq!(fetched.name, "Posture Coach");
    assert_eq!(fetched.price_bits, 59.95f32.to_bits());
    assert_eq!(fetched.description, "Sits on your desk and nags you, gently.");
    assert_eq!(fetched.image, "/posture.png");
}

#[test]
fn update_replaces_exactly_one_record_in_place() {
    let mut store = seeded_store();
    let before = get_products(&store);
    let replacement = Product::new(5, "Renamed Mask", 19.99f32.to_bits(), "cheaper now", "/m.png");
    let returned = update_product(&mut store, BodyOutcome::Valid(replacement)).unwrap();
    assert_eq!(returned.id, 5);
    assert_eq!(returned.name, "Renamed Mask");
    let after = get_products(&store);
    assert_eq!(after.len(), before.len());
    for k in 0..after.len() {
        if k == 4 {
            assert_eq!(after[k].id, 5);
            assert_eq!(after[k].name, "Renamed Mask");
            assert_eq!(after[k].price_bits, 19.99f32.to_bits());
            assert_eq!(after[k].description, "cheaper now");
            assert_eq!(after[k].image, "/m.png");
        } else {
            assert_eq!(after[k].id, before[k].id);
            assert_eq!(after[k].name, before[k].name);
            assert_eq!(after[k].price_bits, before[k].price_bits);
            assert_eq!(after[k].description, before[k].description);
            assert_eq!(after[k].image, before[k].image);
        }
    }
}

#[test]
fn delete_removes_exactly_one_and_get_then_fails() {
    let mut store = seeded_store();
    assert_eq!(store.len(), 10);
    let r = delete_product(&mut store, 5);
    assert!(r.is_ok());
    assert_eq!(store.len(), 9);
    assert!(matches!(get_product(&store, 5), Err(ApiError::NotFound)));
    let remaining: Vec<i32> = get_products(&store).iter().map(|p| p.id).collect();
    assert_eq!(remaining, vec![1, 2, 3, 4, 6, 7, 8, 9, 10]);
}

#[test]
fn absent_ids_are_refused_with_not_found() {
    let mut store = seeded_store();
    assert!(matches!(get_product(&store, 99), Err(ApiError::NotFound)));
    let body = Product::new(99, "Ghost", 1.0f32.to_bits(), "no such id", "/g.png");
    let r = update_product(&mut store, BodyOutcome::Valid(body));
    assert!(matches!(r, Err(ApiError::NotFound)));
    assert!(matches!(delete_product(&mut store, 99), Err(ApiError::NotFound)));
    assert_eq!(store.len(), 10);
}

#[test]
fn oversized_body_is_rejected_and_the_store_is_untouched() {
    let mut buffer = BodyBuffer::new();
    let chunk = vec![b'x'; MAX_BODY_BYTES];
    assert!(buffer.push_chunk(&chunk).is_ok());
    assert_eq!(buffer.len(), MAX_BODY_BYTES);
    let r = buffer.push_chunk(&[b'y']);
    assert!(matches!(r, Err(ApiError::PayloadTooLarge)));
    assert_eq!(buffer.len(), MAX_BODY_BYTES);

    let mut store = seeded_store();
    let r = add_product(&mut store, BodyOutcome::TooLarge);
    assert!(matches!(r, Err(ApiError::PayloadTooLarge)));
    assert_eq!(store.len(), 10);
    let r = update_product(&mut store, BodyOutcome::TooLarge);
    assert!(matches!(r, Err(ApiError::PayloadTooLarge)));
    assert_eq!(store.len(), 10);
}

#[test]
fn body_chunks_accumulate_in_order_under_the_bound() {
    let mut buffer = BodyBuffer::new();
    assert!(buffer.push_chunk(b"{\"id\":0,").is_ok());
    assert!(buffer.push_chunk(b"\"name\":\"x\"}").is_ok());
    assert_eq!(buffer.into_bytes(), b"{\"id\":0,\"name\":\"x\"}".to_vec());
}

#[test]
fn malformed_body_is_rejected_and_the_store_is_untouched() {
    let mut store = seeded_store();
    let r = add_product(&mut store, BodyOutcome::Malformed);
    assert!(matches!(r, Err(ApiError::MalformedBody)));
    assert_eq!(store.len(), 10);
    let r = update_product(&mut store, BodyOutcome::Malformed);
    assert!(matches!(r, Err(ApiError::MalformedBody)));
    assert_eq!(store.len(), 10);
}

#[test]
fn create_after_deletions_can_reuse_a_live_id() {
    // The assignment scheme is the collection length plus two, so once
    // deletions have shortened the collection the next create can hand
    // out an identifier a stored record still carries; the fetch then
    // finds the older record first.
    let mut store = seeded_store();
    assert!(delete_product(&mut store, 1).is_ok());
    assert!(delete_product(&mut store, 2).is_ok());
    assert!(delete_product(&mut store, 3).is_ok());
    assert_eq!(store.len(), 7);
    let p = Product::new(0, "Latecomer", 9.99f32.to_bits(), "reuses id nine", "/n.png");
    let stored = add_product(&mut store, BodyOutcome::Valid(p)).unwrap();
    assert_eq!(stored.id, 9);
    let fetched = get_product(&store, 9).unwrap();
    assert_eq!(fetched.name, "LumiSkin LED Device");
}
