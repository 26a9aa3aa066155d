//! The product record and its mathematical view.

use vstd::prelude::*;

verus! {

/// One catalogue record.
///
/// The price is carried as the raw IEEE 754 bit pattern of a 32-bit
/// float.  The store never interprets the number — it only keeps it and
/// hands it back — so holding the bits as a plain integer loses nothing
/// and keeps the whole record arithmetic-free.
pub struct Product {
    pub id: i32,
    pub name: String,
    pub price_bits: u32,
    pub description: String,
    pub image: String,
}

/// The mathematical value of a product record.
pub ghost struct ProductModel {
    pub id: int,
    pub name: Seq<char>,
    pub price_bits: u32,
    pub description: Seq<char>,
    pub image: Seq<char>,
}

impl View for Product {
    type V = ProductModel;

    open spec fn view(&self) -> ProductModel {
        ProductModel {
            id: self.id as int,
            name: self.name@,
            price_bits: self.price_bits,
            description: self.description@,
            image: self.image@,
        }
    }
}

/// The same record with another identifier.
pub open spec fn with_id(p: ProductModel, id: int) -> ProductModel {
    ProductModel { id, ..p }
}

impl Product {
    /// Build a record from plain field values.
    pub fn new(id: i32, name: &str, price_bits: u32, description: &str, image: &str) -> (p: Product)
        ensures
            p@ == (ProductModel {
                id: id as int,
                name: name@,
                price_bits,
                description: description@,
                image: image@,
            }),
    {
        Product {
            id,
            name: String::from_str(name),
            price_bits,
            description: String::from_str(description),
            image: String::from_str(image),
        }
    }

    /// A copy whose fields are equal to this record's.
    pub fn duplicate(&self) -> (p: Product)
        ensures
            p@ == self@,
    {
        Product {
            id: self.id,
            name: self.name.clone(),
            price_bits: self.price_bits,
            description: self.description.clone(),
            image: self.image.clone(),
        }
    }
}

} // verus!
