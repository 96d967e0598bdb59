//! Products: the stored document and the product body.  Both are held to
//! the same field rules.
use vstd::prelude::*;

use super::object_id::{parse_object_id_spec, parse_optional_id, ObjectId};
use super::orders::timestamp_violation;
use super::validation::{
    byte_count, byte_len, check_email, check_length, check_range, check_timestamp, email_violation,
    finish, length_violation, line_text, matches_timestamp, note, pattern_message, range_violation,
    upper_alnum,
};

verus! {

broadcast use vstd::string::group_string_axioms;

/// A stored product.
#[derive(Debug, Clone)]
pub struct ProductItem {
    pub id: Option<ObjectId>,
    pub sku: String,
    pub item_name: String,
    pub description: String,
    pub quantity: i32,
    pub price_in_cents: i64,
    pub discount_percent: i32,
    pub supplier_email: String,
    pub tags: Vec<String>,
    pub created_at: String,
}

/// A product body.
#[derive(Debug, Clone)]
pub struct ProductDto {
    pub id: Option<String>,
    pub sku: String,
    pub item_name: String,
    pub description: String,
    pub quantity: i32,
    pub price_in_cents: i64,
    pub discount_percent: i32,
    pub supplier_email: String,
    pub tags: Vec<String>,
    pub created_at: String,
}

/// The SKU pattern, as the rule writes it.
pub open spec fn sku_pattern() -> Seq<char> {
    "^[A-Z0-9]{3}-[A-Z0-9]{4}$"@
}

/// Whether `s` matches `^[A-Z0-9]{3}-[A-Z0-9]{4}$`: eight characters, '-'
/// at 3, capital letters or digits elsewhere.
pub open spec fn matches_sku(s: Seq<char>) -> bool {
    &&& s.len() == 8
    &&& forall|i: int| 0 <= i < 8 ==> #[trigger] sku_char_ok(s[i], i)
}

/// The character the SKU pattern admits at position `i`.
pub open spec fn sku_char_ok(c: char, i: int) -> bool {
    if i == 3 {
        c == '-'
    } else {
        upper_alnum(c)
    }
}

/// Checks `s` against the SKU pattern.
pub fn is_sku(s: &str) -> (r: bool)
    ensures
        r == matches_sku(s@),
{
    if s.unicode_len() != 8 {
        return false;
    }
    let mut i: usize = 0;
    while i < 8
        invariant
            s@.len() == 8,
            i <= 8,
            forall|j: int| 0 <= j < i ==> #[trigger] sku_char_ok(s@[j], j),
        decreases 8 - i,
    {
        let c = s.get_char(i);
        let ok = if i == 3 {
            c == '-'
        } else {
            ('A' <= c && c <= 'Z') || ('0' <= c && c <= '9')
        };
        if !ok {
            assert(!sku_char_ok(s@[i as int], i as int));
            return false;
        }
        i += 1;
    }
    true
}

/// The message of the SKU pattern rule, when `s` breaks it.
pub open spec fn sku_violation(s: Seq<char>) -> Option<Seq<char>> {
    if matches_sku(s) {
        None
    } else {
        Some(pattern_message(sku_pattern()))
    }
}

fn check_sku(s: &str) -> (r: Option<String>)
    ensures
        match sku_violation(s@) {
            Some(m) => r matches Some(t) && t@ == m,
            None => r is None,
        },
{
    if is_sku(s) {
        None
    } else {
        let mut m = String::from_str("does not match pattern /");
        m.append("^[A-Z0-9]{3}-[A-Z0-9]{4}$");
        m.append("/");
        Some(m)
    }
}

/// The validation report of a product's fields: `created_at` a timestamp,
/// `description` of 10 to 5000 bytes, `discount_percent` from 0 to 100,
/// `item_name` of 2 to 100 bytes, `price_in_cents` at least 100, `quantity`
/// from 0 to 999999, `sku` of 8 to 20 bytes and of the SKU pattern,
/// `supplier_email` an address of at most 255 bytes, one to ten `tags`.
pub open spec fn product_report(
    sku: Seq<char>,
    item_name: Seq<char>,
    description: Seq<char>,
    quantity: i32,
    price_in_cents: i64,
    discount_percent: i32,
    supplier_email: Seq<char>,
    tag_count: nat,
    created_at: Seq<char>,
) -> Seq<char> {
    line_text("created_at"@, timestamp_violation(created_at))
        + line_text("description"@, length_violation(byte_len(description), 10, 5000))
        + line_text("discount_percent"@, range_violation(discount_percent as int, 0, Some(100)))
        + line_text("item_name"@, length_violation(byte_len(item_name), 2, 100))
        + line_text("price_in_cents"@, range_violation(price_in_cents as int, 100, None))
        + line_text("quantity"@, range_violation(quantity as int, 0, Some(999999)))
        + line_text("sku"@, length_violation(byte_len(sku), 8, 20))
        + line_text("sku"@, sku_violation(sku))
        + line_text("supplier_email"@, email_violation(supplier_email))
        + line_text("supplier_email"@, length_violation(byte_len(supplier_email), 0, 255))
        + line_text("tags"@, length_violation(tag_count, 1, 10))
}

/// Whether a product's fields meet every rule.
pub open spec fn product_valid(
    sku: Seq<char>,
    item_name: Seq<char>,
    description: Seq<char>,
    quantity: i32,
    price_in_cents: i64,
    discount_percent: i32,
    supplier_email: Seq<char>,
    tag_count: nat,
    created_at: Seq<char>,
) -> bool {
    &&& matches_timestamp(created_at)
    &&& 10 <= byte_len(description) <= 5000
    &&& 0 <= discount_percent <= 100
    &&& 2 <= byte_len(item_name) <= 100
    &&& price_in_cents >= 100
    &&& 0 <= quantity <= 999999
    &&& 8 <= byte_len(sku) <= 20
    &&& matches_sku(sku)
    &&& email_violation(supplier_email) is None
    &&& byte_len(supplier_email) <= 255
    &&& 1 <= tag_count <= 10
}

/// The quantity rule is exactly `0 <= quantity <= 999999`: a product is
/// valid with a quantity precisely when the quantity is in that range and
/// the same product is valid out of stock (quantity 0), and any quantity in
/// that range gives the same report as quantity 0.
pub proof fn lemma_product_quantity_rule(
    sku: Seq<char>,
    item_name: Seq<char>,
    description: Seq<char>,
    quantity: i32,
    price_in_cents: i64,
    discount_percent: i32,
    supplier_email: Seq<char>,
    tag_count: nat,
    created_at: Seq<char>,
)
    ensures
        product_valid(sku, item_name, description, quantity, price_in_cents, discount_percent, supplier_email,
            tag_count, created_at) <==> (0 <= quantity <= 999999 && product_valid(sku, item_name, description,
            0i32, price_in_cents, discount_percent, supplier_email, tag_count, created_at)),
        0 <= quantity <= 999999 ==> product_report(sku, item_name, description, quantity, price_in_cents,
            discount_percent, supplier_email, tag_count, created_at) == product_report(sku, item_name,
            description, 0i32, price_in_cents, discount_percent, supplier_email, tag_count, created_at),
{
}

/// The other field rules of a product, each on its own: a discount from 0
/// to 100, a price of at least 100 cents, one to ten tags, a description of
/// 10 to 5000 bytes, an item name of 2 to 100 bytes, a SKU of 8 to 20 bytes
/// and an email of at most 255 bytes.  A value outside its range makes the
/// product invalid, and two values inside it are alike.
pub proof fn lemma_product_field_rules(
    sku: Seq<char>,
    item_name: Seq<char>,
    name2: Seq<char>,
    description: Seq<char>,
    desc2: Seq<char>,
    quantity: i32,
    price_in_cents: i64,
    p2: i64,
    discount_percent: i32,
    d2: i32,
    supplier_email: Seq<char>,
    tag_count: nat,
    t2: nat,
    created_at: Seq<char>,
)
    ensures
        !(0 <= discount_percent <= 100) ==> !product_valid(sku, item_name, description, quantity, price_in_cents, discount_percent, supplier_email, tag_count, created_at),
        0 <= discount_percent <= 100 && 0 <= d2 <= 100 ==> (product_valid(sku, item_name, description, quantity, price_in_cents, discount_percent, supplier_email, tag_count, created_at) <==> product_valid(sku, item_name, description, quantity, price_in_cents, d2, supplier_email, tag_count, created_at)),
        price_in_cents < 100 ==> !product_valid(sku, item_name, description, quantity, price_in_cents, discount_percent, supplier_email, tag_count, created_at),
        price_in_cents >= 100 && p2 >= 100 ==> (product_valid(sku, item_name, description, quantity, price_in_cents, discount_percent, supplier_email, tag_count, created_at) <==> product_valid(sku, item_name, description, quantity, p2, discount_percent, supplier_email, tag_count, created_at)),
        !(1 <= tag_count <= 10) ==> !product_valid(sku, item_name, description, quantity, price_in_cents, discount_percent, supplier_email, tag_count, created_at),
        1 <= tag_count <= 10 && 1 <= t2 <= 10 ==> (product_valid(sku, item_name, description, quantity, price_in_cents, discount_percent, supplier_email, tag_count, created_at) <==> product_valid(sku, item_name, description, quantity, price_in_cents, discount_percent, supplier_email, t2, created_at)),
        !(10 <= byte_len(description) <= 5000) ==> !product_valid(sku, item_name, description, quantity, price_in_cents, discount_percent, supplier_email, tag_count, created_at),
        10 <= byte_len(description) <= 5000 && 10 <= byte_len(desc2) <= 5000 ==> (product_valid(sku, item_name, description, quantity, price_in_cents, discount_percent, supplier_email, tag_count, created_at) <==> product_valid(sku, item_name, desc2, quantity, price_in_cents, discount_percent, supplier_email, tag_count, created_at)),
        !(2 <= byte_len(item_name) <= 100) ==> !product_valid(sku, item_name, description, quantity, price_in_cents, discount_percent, supplier_email, tag_count, created_at),
        2 <= byte_len(item_name) <= 100 && 2 <= byte_len(name2) <= 100 ==> (product_valid(sku, item_name, description, quantity, price_in_cents, discount_percent, supplier_email, tag_count, created_at) <==> product_valid(sku, name2, description, quantity, price_in_cents, discount_percent, supplier_email, tag_count, created_at)),
        !(8 <= byte_len(sku) <= 20) ==> !product_valid(sku, item_name, description, quantity, price_in_cents, discount_percent, supplier_email, tag_count, created_at),
        byte_len(supplier_email) > 255 ==> !product_valid(sku, item_name, description, quantity, price_in_cents, discount_percent, supplier_email, tag_count, created_at),
{
}

fn validate_product(
    sku: &String,
    item_name: &String,
    description: &String,
    quantity: i32,
    price_in_cents: i64,
    discount_percent: i32,
    supplier_email: &String,
    tags: &Vec<String>,
    created_at: &String,
) -> (r: Result<(), String>)
    ensures
        r is Ok <==> product_valid(sku@, item_name@, description@, quantity, price_in_cents,
            discount_percent, supplier_email@, tags@.len(), created_at@),
        r matches Err(t) ==> t@ == product_report(sku@, item_name@, description@, quantity,
            price_in_cents, discount_percent, supplier_email@, tags@.len(), created_at@),
{
    let mut report = String::new();
    note(&mut report, "created_at", check_timestamp(created_at.as_str()));
    note(&mut report, "description", check_length(byte_count(description), 10, 5000));
    note(&mut report, "discount_percent", check_range(discount_percent as i64, 0, Some(100)));
    note(&mut report, "item_name", check_length(byte_count(item_name), 2, 100));
    note(&mut report, "price_in_cents", check_range(price_in_cents, 100, None));
    note(&mut report, "quantity", check_range(quantity as i64, 0, Some(999999)));
    note(&mut report, "sku", check_length(byte_count(sku), 8, 20));
    note(&mut report, "sku", check_sku(sku.as_str()));
    note(&mut report, "supplier_email", check_email(supplier_email.as_str()));
    note(&mut report, "supplier_email", check_length(byte_count(supplier_email), 0, 255));
    note(&mut report, "tags", check_length(tags.len(), 1, 10));
    finish(report)
}

impl ProductDto {
    /// The validation report of the body (`id` is not checked).
    pub open spec fn report(&self) -> Seq<char> {
        product_report(self.sku@, self.item_name@, self.description@, self.quantity, self.price_in_cents,
            self.discount_percent, self.supplier_email@, self.tags@.len(), self.created_at@)
    }

    /// Whether every rule holds.
    pub open spec fn is_valid(&self) -> bool {
        product_valid(self.sku@, self.item_name@, self.description@, self.quantity, self.price_in_cents,
            self.discount_percent, self.supplier_email@, self.tags@.len(), self.created_at@)
    }

    /// Checks the body; the report of the broken rules when any is.
    pub fn validate(&self) -> (r: Result<(), String>)
        ensures
            r is Ok <==> self.is_valid(),
            r matches Err(t) ==> t@ == self.report(),
    {
        validate_product(&self.sku, &self.item_name, &self.description, self.quantity, self.price_in_cents,
            self.discount_percent, &self.supplier_email, &self.tags, &self.created_at)
    }
}

impl ProductItem {
    /// The validation report of the stored product (`id` is not checked).
    pub open spec fn report(&self) -> Seq<char> {
        product_report(self.sku@, self.item_name@, self.description@, self.quantity, self.price_in_cents,
            self.discount_percent, self.supplier_email@, self.tags@.len(), self.created_at@)
    }

    /// Whether every rule holds.
    pub open spec fn is_valid(&self) -> bool {
        product_valid(self.sku@, self.item_name@, self.description@, self.quantity, self.price_in_cents,
            self.discount_percent, self.supplier_email@, self.tags@.len(), self.created_at@)
    }

    /// Checks the product; the report of the broken rules when any is.
    pub fn validate(&self) -> (r: Result<(), String>)
        ensures
            r is Ok <==> self.is_valid(),
            r matches Err(t) ==> t@ == self.report(),
    {
        validate_product(&self.sku, &self.item_name, &self.description, self.quantity, self.price_in_cents,
            self.discount_percent, &self.supplier_email, &self.tags, &self.created_at)
    }

    /// The stored product for a body: the id when it names one, the other
    /// fields as given.
    pub fn from_dto(dto: ProductDto) -> (r: ProductItem)
        ensures
            match dto.id {
                Some(s) => match parse_object_id_spec(s@) {
                    Some(b) => r.id matches Some(o) && o.bytes@ == b,
                    None => r.id is None,
                },
                None => r.id is None,
            },
            r.sku@ == dto.sku@,
            r.item_name@ == dto.item_name@,
            r.description@ == dto.description@,
            r.quantity == dto.quantity,
            r.price_in_cents == dto.price_in_cents,
            r.discount_percent == dto.discount_percent,
            r.supplier_email@ == dto.supplier_email@,
            r.tags@ == dto.tags@,
            r.created_at@ == dto.created_at@,
    {
        ProductItem {
            id: parse_optional_id(dto.id),
            sku: dto.sku,
            item_name: dto.item_name,
            description: dto.description,
            quantity: dto.quantity,
            price_in_cents: dto.price_in_cents,
            discount_percent: dto.discount_percent,
            supplier_email: dto.supplier_email,
            tags: dto.tags,
            created_at: dto.created_at,
        }
    }
}

} // verus!
