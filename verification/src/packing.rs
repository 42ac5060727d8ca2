//! The packing family: one item on an itinerary's packing list, with its
//! create and update shapes.

use vstd::prelude::*;
use crate::clock::now_millis;
use crate::ident::generate_uuid;
use crate::merge::{merge_field, merge_opt_field};

verus! {

/// A full packing record. Timestamps are milliseconds since the Unix epoch.
#[derive(Clone, Debug)]
pub struct PackingItem {
    pub id: String,
    pub itinerary_id: String,
    pub item_name: String,
    pub category: Option<String>,
    pub quantity: i32,
    pub is_checked: bool,
    pub memo: Option<String>,
    pub assignee: Option<String>,
    pub created_at: i64,
    pub updated_at: i64,
}

/// The construction input: required item name, the rest optional.
#[derive(Clone, Debug)]
pub struct CreatePackingItemRequest {
    pub item_name: String,
    pub category: Option<String>,
    pub quantity: Option<i32>,
    pub memo: Option<String>,
    pub assignee: Option<String>,
}

/// The patch input: every field optional, absent fields left unchanged.
/// Identity, foreign key and timestamps are never client-settable.
#[derive(Clone, Debug)]
pub struct UpdatePackingItemRequest {
    pub item_name: Option<String>,
    pub category: Option<String>,
    pub quantity: Option<i32>,
    pub is_checked: Option<bool>,
    pub memo: Option<String>,
    pub assignee: Option<String>,
}

impl PackingItem {
    /// The record's timestamps never run backwards.
    pub open spec fn wf(self) -> bool {
        self.created_at <= self.updated_at
    }

    /// Builds a record from the minimal fields, with quantity one, the
    /// checked flag off, a fresh identifier and equal creation and update
    /// stamps.
    pub fn new(itinerary_id: String, item_name: String) -> (r: PackingItem)
        ensures
            r.itinerary_id == itinerary_id,
            r.item_name == item_name,
            r.category is None,
            r.quantity == 1,
            r.is_checked == false,
            r.memo is None,
            r.assignee is None,
            r.created_at == r.updated_at,
            r.id@.len() == 36,
            r.wf(),
    {
        let now = now_millis();
        PackingItem {
            id: generate_uuid(),
            itinerary_id,
            item_name,
            category: None,
            quantity: 1,
            is_checked: false,
            memo: None,
            assignee: None,
            created_at: now,
            updated_at: now,
        }
    }

    /// Applies a partial update: present fields overwrite, absent fields
    /// stay, identity, foreign key and creation stamp are untouched, and the
    /// update stamp is refreshed.
    pub fn apply_update(&mut self, upd: UpdatePackingItemRequest, now: i64)
        requires
            old(self).created_at <= now,
        ensures
            final(self).item_name == (match upd.item_name {
                Some(v) => v,
                None => old(self).item_name,
            }),
            final(self).category == (match upd.category {
                Some(v) => Some(v),
                None => old(self).category,
            }),
            final(self).quantity == (match upd.quantity {
                Some(v) => v,
                None => old(self).quantity,
            }),
            final(self).is_checked == (match upd.is_checked {
                Some(v) => v,
                None => old(self).is_checked,
            }),
            final(self).memo == (match upd.memo {
                Some(v) => Some(v),
                None => old(self).memo,
            }),
            final(self).assignee == (match upd.assignee {
                Some(v) => Some(v),
                None => old(self).assignee,
            }),
            final(self).id == old(self).id,
            final(self).itinerary_id == old(self).itinerary_id,
            final(self).created_at == old(self).created_at,
            final(self).updated_at == now,
            final(self).wf(),
    {
        merge_field(&mut self.item_name, upd.item_name);
        merge_opt_field(&mut self.category, upd.category);
        merge_field(&mut self.quantity, upd.quantity);
        merge_field(&mut self.is_checked, upd.is_checked);
        merge_opt_field(&mut self.memo, upd.memo);
        merge_opt_field(&mut self.assignee, upd.assignee);
        self.updated_at = now;
    }
}

} // verus!
