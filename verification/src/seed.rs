//! The sample catalogue the service starts with.
//!
//! Ten records, with identifiers one to ten in order.  Prices are
//! carried as IEEE 754 bit patterns (see `Product`); the tests state
//! the corresponding decimal prices.

use vstd::prelude::*;
use crate::product::{Product, ProductModel};
use crate::store::ProductStore;

verus! {

/// The seed catalogue, record by record.
pub open spec fn seed_products() -> Seq<ProductModel> {
    seq![
        ProductModel {
            id: 1,
            name: "ZenoFit Tracker"@,
            price_bits: 0x42C7FAE1,
            description: "Monitor your heart rate, calories, steps, and more with this ultimate fitness tracker. It syncs with your smartphone and gives you personalized feedback and coaching. ZenoFit Tracker is your best companion for your fitness goals."@,
            image: "/placeholder.png"@,
        },
        ProductModel {
            id: 2,
            name: "Airy Purifier Mini"@,
            price_bits: 0x429FFAE1,
            description: "Clean the air in your home or office with this compact and powerful air purifier. It removes dust, pollen, smoke, odors, and bacteria. It also has a HEPA filter that lasts up to 6 months. Airy Purifier Mini is the device that breathes fresh air into your life."@,
            image: "/placeholder.png"@,
        },
        ProductModel {
            id: 3,
            name: "Zenith Wireless Headphones"@,
            price_bits: 0x4347FD71,
            description: "Enjoy high-quality sound and noise cancellation with these premium headphones. They have a sleek design and a comfortable fit. They also have a long battery life and a built-in microphone. Zenith Wireless Headphones are the ultimate sound experience for your ears."@,
            image: "/placeholder.png"@,
        },
        ProductModel {
            id: 4,
            name: "Hydrate Smart Bottle"@,
            price_bits: 0x421FF5C3,
            description: "Track your water intake and remind yourself to drink more with this smart water bottle. It connects to your smartphone and shows you your hydration level and goals. It also glows in different colors to motivate you. Hydrate Smart Bottle is the bottle that keeps you hydrated and healthy."@,
            image: "/placeholder.png"@,
        },
        ProductModel {
            id: 5,
            name: "Sleepy Weighted Mask"@,
            price_bits: 0x41EFEB85,
            description: "Fall asleep faster and deeper with this sleep mask. It has a weighted design that applies gentle pressure to your eyes and temples. It also has a lavender scent that relaxes your mind and body. Sleepy Weighted Mask is the mask that helps you sleep better."@,
            image: "/placeholder.png"@,
        },
        ProductModel {
            id: 6,
            name: "FlexiFit Yoga Mat"@,
            price_bits: 0x4247F5C3,
            description: "Practice yoga with the perfect balance of comfort and stability with this yoga mat. It has a non-slip surface that grips the floor and prevents sliding. It also has a cushioned layer that supports your joints and spine. FlexiFit Yoga Mat is the mat that enhances your yoga experience."@,
            image: "/placeholder.png"@,
        },
        ProductModel {
            id: 7,
            name: "Glow Ionic Dryer"@,
            price_bits: 0x42B3FAE1,
            description: "Dry your hair faster and smoother than ever before with this hair dryer. It uses ionic technology to reduce frizz and static electricity. It also has a ceramic coating that protects your hair from heat damage. Glow Ionic Dryer is the dryer that gives your hair a healthy glow."@,
            image: "/placeholder.png"@,
        },
        ProductModel {
            id: 8,
            name: "Breathe Aroma Diffuser"@,
            price_bits: 0x4247F5C3,
            description: "Fill your space with soothing scents and mood lighting with this aromatherapy diffuser. It comes with 6 different essential oils that have various benefits for your health and well-being. It also has a timer and a mist mode. Breathe Aroma Diffuser is the device that creates a relaxing atmosphere for you."@,
            image: "/placeholder.png"@,
        },
        ProductModel {
            id: 9,
            name: "LumiSkin LED Device"@,
            price_bits: 0x4315FD71,
            description: "Rejuvenate your skin with this revolutionary device that uses LED light therapy. It reduces wrinkles, fine lines, dark spots, and acne. It also boosts collagen and elastin production. LumiSkin LED Device is the secret to a younger-looking skin."@,
            image: "/placeholder.png"@,
        },
        ProductModel {
            id: 10,
            name: "FlexiFit Yoga Ball"@,
            price_bits: 0x421FF5C3,
            description: "Improve your balance and flexibility with this high-quality yoga ball. It is made of anti-burst PVC material that can support up to 2200 lbs. It also comes with a pump and a workout guide. FlexiFit Yoga Ball is the perfect tool for your yoga practice and physical therapy."@,
            image: "/placeholder.png"@,
        },
    ]
}

/// A store holding exactly the seed catalogue.
pub fn seeded_store() -> (s: ProductStore)
    ensures
        s@ == seed_products(),
{
    let mut s = ProductStore::new();
    s.push_record(Product::new(
        1,
        "ZenoFit Tracker",
        0x42C7FAE1,
        "Monitor your heart rate, calories, steps, and more with this ultimate fitness tracker. It syncs with your smartphone and gives you personalized feedback and coaching. ZenoFit Tracker is your best companion for your fitness goals.",
        "/placeholder.png",
    ));
    s.push_record(Product::new(
        2,
        "Airy Purifier Mini",
        0x429FFAE1,
        "Clean the air in your home or office with this compact and powerful air purifier. It removes dust, pollen, smoke, odors, and bacteria. It also has a HEPA filter that lasts up to 6 months. Airy Purifier Mini is the device that breathes fresh air into your life.",
        "/placeholder.png",
    ));
    s.push_record(Product::new(
        3,
        "Zenith Wireless Headphones",
        0x4347FD71,
        "Enjoy high-quality sound and noise cancellation with these premium headphones. They have a sleek design and a comfortable fit. They also have a long battery life and a built-in microphone. Zenith Wireless Headphones are the ultimate sound experience for your ears.",
        "/placeholder.png",
    ));
    s.push_record(Product::new(
        4,
        "Hydrate Smart Bottle",
        0x421FF5C3,
        "Track your water intake and remind yourself to drink more with this smart water bottle. It connects to your smartphone and shows you your hydration level and goals. It also glows in different colors to motivate you. Hydrate Smart Bottle is the bottle that keeps you hydrated and healthy.",
        "/placeholder.png",
    ));
    s.push_record(Product::new(
        5,
        "Sleepy Weighted Mask",
        0x41EFEB85,
        "Fall asleep faster and deeper with this sleep mask. It has a weighted design that applies gentle pressure to your eyes and temples. It also has a lavender scent that relaxes your mind and body. Sleepy Weighted Mask is the mask that helps you sleep better.",
        "/placeholder.png",
    ));
    s.push_record(Product::new(
        6,
        "FlexiFit Yoga Mat",
        0x4247F5C3,
        "Practice yoga with the perfect balance of comfort and stability with this yoga mat. It has a non-slip surface that grips the floor and prevents sliding. It also has a cushioned layer that supports your joints and spine. FlexiFit Yoga Mat is the mat that enhances your yoga experience.",
        "/placeholder.png",
    ));
    s.push_record(Product::new(
        7,
        "Glow Ionic Dryer",
        0x42B3FAE1,
        "Dry your hair faster and smoother than ever before with this hair dryer. It uses ionic technology to reduce frizz and static electricity. It also has a ceramic coating that protects your hair from heat damage. Glow Ionic Dryer is the dryer that gives your hair a healthy glow.",
        "/placeholder.png",
    ));
    s.push_record(Product::new(
        8,
        "Breathe Aroma Diffuser",
        0x4247F5C3,
        "Fill your space with soothing scents and mood lighting with this aromatherapy diffuser. It comes with 6 different essential oils that have various benefits for your health and well-being. It also has a timer and a mist mode. Breathe Aroma Diffuser is the device that creates a relaxing atmosphere for you.",
        "/placeholder.png",
    ));
    s.push_record(Product::new(
        9,
        "LumiSkin LED Device",
        0x4315FD71,
        "Rejuvenate your skin with this revolutionary device that uses LED light therapy. It reduces wrinkles, fine lines, dark spots, and acne. It also boosts collagen and elastin production. LumiSkin LED Device is the secret to a younger-looking skin.",
        "/placeholder.png",
    ));
    s.push_record(Product::new(
        10,
        "FlexiFit Yoga Ball",
        0x421FF5C3,
        "Improve your balance and flexibility with this high-quality yoga ball. It is made of anti-burst PVC material that can support up to 2200 lbs. It also comes with a pump and a workout guide. FlexiFit Yoga Ball is the perfect tool for your yoga practice and physical therapy.",
        "/placeholder.png",
    ));
    proof {
        assert(s@ =~= seed_products());
    }
    s
}

} // verus!
