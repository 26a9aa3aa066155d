use product_service::error::ApiError;
use product_service::handlers::health;
use product_service::seed::seeded_store;
use product_service::store::ProductStore;

#[test]
fn seed_has_ten_records_with_ids_one_to_ten() {
    let store = seeded_store();
    let records = store.list();
    assert_eq!(records.len(), 10);
    for (k, p) in records.iter().enumerate() {
        assert_eq!(p.id, k as i32 + 1);
        assert_eq!(p.image, "/placeholder.png");
    }
}

#[test]
fn seed_names_and_prices_match_the_catalogue() {
    let store = seeded_store();
    let records = store.list();
    let expected: [(&str, f32); 10] = [
        ("ZenoFit Tracker", 99.99),
        ("Airy Purifier Mini", 79.99),
        ("Zenith Wireless Headphones", 199.99),
        ("Hydrate Smart Bottle", 39.99),
        ("Sleepy Weighted Mask", 29.99),
        ("FlexiFit Yoga Mat", 49.99),
        ("Glow Ionic Dryer", 89.99),
        ("Breathe Aroma Diffuser", 49.99),
        ("LumiSkin LED Device", 149.99),
        ("FlexiFit Yoga Ball", 39.99),
    ];
    for (p, (name, price)) in records.iter().zip(expected.iter()) {
        assert_eq!(p.name, *name);
        assert_eq!(p.price_bits, price.to_bits());
    }
}

#[test]
fn seed_first_description_is_kept_whole() {
    let store = seeded_store();
    let records = store.list();
    assert_eq!(
        records[0].description,
        "Monitor your heart rate, calories, steps, and more with this ultimate fitness tracker. \
         It syncs with your smartphone and gives you personalized feedback and coaching. \
         ZenoFit Tracker is your best companion for your fitness goals."
    );
}

#[test]
fn health_returns_the_fixed_ok_payload() {
    assert_eq!(health(), "{\"status\":\"ok\"}");
}

#[test]
fn health_is_the_same_whatever_the_store_holds() {
    let empty = ProductStore::new();
    assert_eq!(empty.len(), 0);
    let first = health();
    let mut seeded = seeded_store();
    assert!(seeded.delete(1));
    assert_eq!(health(), first);
}

#[test]
fn error_status_codes_and_messages() {
    assert_eq!(ApiError::PayloadTooLarge.status_code(), 400);
    assert_eq!(ApiError::MalformedBody.status_code(), 400);
    assert_eq!(ApiError::NotFound.status_code(), 404);
    assert_eq!(ApiError::PayloadTooLarge.message(), "overflow");
    assert_eq!(ApiError::MalformedBody.message(), "bad request");
    assert_eq!(ApiError::NotFound.message(), "not found");
}
