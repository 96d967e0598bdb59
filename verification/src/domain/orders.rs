//! Orders: the stored document and the order body.
use vstd::prelude::*;

use super::object_id::{parse_object_id_spec, parse_optional_id, ObjectId};
use super::validation::{
    byte_count, byte_len, check_length, check_range, check_timestamp, finish, length_violation,
    line_text, matches_timestamp, note, pattern_message, range_violation, timestamp_pattern,
};

verus! {

broadcast use vstd::string::group_string_axioms;

/// A line of a stored order.
#[derive(Debug, Clone)]
pub struct OrderLineItem {
    pub sku: String,
    pub quantity: i32,
    pub price_in_cents: i64,
}

/// A stored order.
#[derive(Debug, Clone)]
pub struct OrderItem {
    pub id: Option<ObjectId>,
    pub order_number: String,
    pub user_id: String,
    pub items: Vec<OrderLineItem>,
    pub total_in_cents: i64,
    pub status: String,
    pub created_at: String,
}

/// A line of an order body.
#[derive(Debug, Clone)]
pub struct OrderLineItemDto {
    pub sku: String,
    pub quantity: i32,
    pub price_in_cents: i64,
}

/// An order body.
#[derive(Debug, Clone)]
pub struct OrderDto {
    pub id: Option<String>,
    pub order_number: String,
    pub user_id: String,
    pub items: Vec<OrderLineItemDto>,
    pub total_in_cents: i64,
    pub status: String,
    pub created_at: String,
}

/// The message of the timestamp rule, when `s` breaks it.
pub open spec fn timestamp_violation(s: Seq<char>) -> Option<Seq<char>> {
    if matches_timestamp(s) {
        None
    } else {
        Some(pattern_message(timestamp_pattern()))
    }
}

impl OrderLineItemDto {
    /// The validation report: `price_in_cents` at least 0, `quantity` at
    /// least 1, `sku` of at least 3 bytes.
    pub open spec fn report(&self) -> Seq<char> {
        line_text("price_in_cents"@, range_violation(self.price_in_cents as int, 0, None))
            + line_text("quantity"@, range_violation(self.quantity as int, 1, None))
            + line_text("sku"@, length_violation(byte_len(self.sku@), 3, usize::MAX as nat))
    }

    /// Whether every rule holds.
    pub open spec fn is_valid(&self) -> bool {
        &&& self.price_in_cents >= 0
        &&& self.quantity >= 1
        &&& byte_len(self.sku@) >= 3
    }

    /// Checks the line; the report of the broken rules when any is.
    pub fn validate(&self) -> (r: Result<(), String>)
        ensures
            r is Ok <==> self.is_valid(),
            r matches Err(t) ==> t@ == self.report(),
    {
        let mut report = String::new();
        note(&mut report, "price_in_cents", check_range(self.price_in_cents, 0, None));
        note(&mut report, "quantity", check_range(self.quantity as i64, 1, None));
        note(&mut report, "sku", check_length(byte_count(&self.sku), 3, usize::MAX));
        finish(report)
    }
}

impl OrderDto {
    /// The validation report: `created_at` a timestamp, `items` not empty,
    /// `order_number` of at least 3 bytes, `status` of at least 3 bytes,
    /// `total_in_cents` at least 0, `user_id` not empty (`id` is not checked,
    /// nor are the lines themselves).
    pub open spec fn report(&self) -> Seq<char> {
        line_text("created_at"@, timestamp_violation(self.created_at@))
            + line_text("items"@, length_violation(self.items@.len(), 1, usize::MAX as nat))
            + line_text("order_number"@, length_violation(byte_len(self.order_number@), 3, usize::MAX as nat))
            + line_text("status"@, length_violation(byte_len(self.status@), 3, usize::MAX as nat))
            + line_text("total_in_cents"@, range_violation(self.total_in_cents as int, 0, None))
            + line_text("user_id"@, length_violation(byte_len(self.user_id@), 1, usize::MAX as nat))
    }

    /// Whether every rule holds.
    pub open spec fn is_valid(&self) -> bool {
        &&& matches_timestamp(self.created_at@)
        &&& self.items@.len() >= 1
        &&& byte_len(self.order_number@) >= 3
        &&& byte_len(self.status@) >= 3
        &&& self.total_in_cents >= 0
        &&& byte_len(self.user_id@) >= 1
    }

    /// Checks the body; the report of the broken rules when any is.
    pub fn validate(&self) -> (r: Result<(), String>)
        ensures
            r is Ok <==> self.is_valid(),
            r matches Err(t) ==> t@ == self.report(),
    {
        let mut report = String::new();
        note(&mut report, "created_at", check_timestamp(self.created_at.as_str()));
        note(&mut report, "items", check_length(self.items.len(), 1, usize::MAX));
        note(&mut report, "order_number", check_length(byte_count(&self.order_number), 3, usize::MAX));
        note(&mut report, "status", check_length(byte_count(&self.status), 3, usize::MAX));
        note(&mut report, "total_in_cents", check_range(self.total_in_cents, 0, None));
        note(&mut report, "user_id", check_length(byte_count(&self.user_id), 1, usize::MAX));
        finish(report)
    }
}

/// A stored line with the same fields as a body line.
pub open spec fn same_line(a: OrderLineItem, b: OrderLineItemDto) -> bool {
    a.sku@ == b.sku@ && a.quantity == b.quantity && a.price_in_cents == b.price_in_cents
}

impl OrderItem {
    /// The stored order for a body: the id when it names one, the lines in
    /// order, the other fields as given.
    pub fn from_dto(dto: OrderDto) -> (r: OrderItem)
        ensures
            match dto.id {
                Some(s) => match parse_object_id_spec(s@) {
                    Some(b) => r.id matches Some(o) && o.bytes@ == b,
                    None => r.id is None,
                },
                None => r.id is None,
            },
            r.order_number@ == dto.order_number@,
            r.user_id@ == dto.user_id@,
            r.items@.len() == dto.items@.len(),
            forall|i: int| 0 <= i < r.items@.len() ==> same_line(#[trigger] r.items@[i], dto.items@[i]),
            r.total_in_cents == dto.total_in_cents,
            r.status@ == dto.status@,
            r.created_at@ == dto.created_at@,
    {
        let OrderDto { id, order_number, user_id, items, total_in_cents, status, created_at } = dto;
        let ghost orig = items@;
        let mut rest = items;
        let mut lines: Vec<OrderLineItem> = Vec::new();
        while rest.len() > 0
            invariant
                lines@.len() + rest@.len() == orig.len(),
                rest@ == orig.skip(lines@.len() as int),
                forall|i: int| 0 <= i < lines@.len() ==> same_line(#[trigger] lines@[i], orig[i]),
            decreases rest@.len(),
        {
            let it = rest.remove(0);
            let ghost k = lines@.len();
            lines.push(OrderLineItem { sku: it.sku, quantity: it.quantity, price_in_cents: it.price_in_cents });
            assert(rest@ =~= orig.skip(lines@.len() as int));
        }
        OrderItem {
            id: parse_optional_id(id),
            order_number,
            user_id,
            items: lines,
            total_in_cents,
            status,
            created_at,
        }
    }
}

} // verus!
