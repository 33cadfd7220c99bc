use vstd::prelude::*;

verus! {

/// One extracted product record: the raw name and price as scraped, the
/// resolved product and image URLs, the name of the store the record came
/// from, and an optional description.  Constructed once per matched
/// container element and immutable afterwards.
#[derive(Debug, Clone)]
pub struct Product {
    pub name: String,
    pub price: String,
    pub url: String,
    pub image_url: String,
    pub store_name: String,
    pub description: Option<String>,
}

/// The mathematical value of a `Product`: every field as a sequence of
/// characters.
#[verifier::ext_equal]
pub struct ProductModel {
    pub name: Seq<char>,
    pub price: Seq<char>,
    pub url: Seq<char>,
    pub image_url: Seq<char>,
    pub store_name: Seq<char>,
    pub description: Option<Seq<char>>,
}

impl View for Product {
    type V = ProductModel;

    open spec fn view(&self) -> ProductModel {
        ProductModel {
            name: self.name@,
            price: self.price@,
            url: self.url@,
            image_url: self.image_url@,
            store_name: self.store_name@,
            description: self.description.deep_view(),
        }
    }
}

impl DeepView for Product {
    type V = ProductModel;

    open spec fn deep_view(&self) -> ProductModel {
        self.view()
    }
}

impl Product {
    /// A record with the five required fields and no description.
    pub fn new(
        name: String,
        price: String,
        url: String,
        image_url: String,
        store_name: String,
    ) -> (r: Self)
        ensures
            r.name == name,
            r.price == price,
            r.url == url,
            r.image_url == image_url,
            r.store_name == store_name,
            r.description is None,
    {
        Self { name, price, url, image_url, store_name, description: None }
    }

    /// The same record with its description set.
    pub fn with_description(self, description: String) -> (r: Self)
        ensures
            r.name == self.name,
            r.price == self.price,
            r.url == self.url,
            r.image_url == self.image_url,
            r.store_name == self.store_name,
            r.description == Some(description),
    {
        let mut r = self;
        r.description = Some(description);
        r
    }
}

} // verus!
