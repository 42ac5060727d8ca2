//! The budget family: one planned or actual expense of an itinerary, with
//! its create and update shapes.

use vstd::prelude::*;
use crate::clock::now_millis;
use crate::ident::generate_uuid;
use crate::merge::{merge_field, merge_opt_field};

verus! {

/// A full budget record. Amounts are whole currency units; the expense date
/// is carried as an ISO date text and not validated further. Timestamps are
/// milliseconds since the Unix epoch.
#[derive(Clone, Debug)]
pub struct BudgetItem {
    pub id: String,
    pub itinerary_id: String,
    pub category: String,
    pub item_name: String,
    pub planned_amount: Option<i32>,
    pub actual_amount: Option<i32>,
    pub payer: Option<String>,
    pub split_method: String,
    pub expense_date: Option<String>,
    pub created_at: i64,
    pub updated_at: i64,
}

/// The construction input: required category and item name, the rest
/// optional.
#[derive(Clone, Debug)]
pub struct CreateBudgetItemRequest {
    pub category: String,
    pub item_name: String,
    pub planned_amount: Option<i32>,
    pub actual_amount: Option<i32>,
    pub payer: Option<String>,
    pub split_method: Option<String>,
    pub expense_date: Option<String>,
}

/// The patch input: every field optional, absent fields left unchanged.
/// Identity, foreign key and timestamps are never client-settable.
#[derive(Clone, Debug)]
pub struct UpdateBudgetItemRequest {
    pub category: Option<String>,
    pub item_name: Option<String>,
    pub planned_amount: Option<i32>,
    pub actual_amount: Option<i32>,
    pub payer: Option<String>,
    pub split_method: Option<String>,
    pub expense_date: Option<String>,
}

impl BudgetItem {
    /// The record's timestamps never run backwards.
    pub open spec fn wf(self) -> bool {
        self.created_at <= self.updated_at
    }

    /// Builds a record from the minimal fields. This family constructor
    /// defaults the split method to `"equal"`; the facade's construction
    /// path defaults it to `"individual"` instead, and the two paths
    /// deliberately differ.
    pub fn new(itinerary_id: String, category: String, item_name: String) -> (r: BudgetItem)
        ensures
            r.itinerary_id == itinerary_id,
            r.category == category,
            r.item_name == item_name,
            r.planned_amount is None,
            r.actual_amount is None,
            r.payer is None,
            r.split_method@ == "equal"@,
            r.expense_date is None,
            r.created_at == r.updated_at,
            r.id@.len() == 36,
            r.wf(),
    {
        let now = now_millis();
        BudgetItem {
            id: generate_uuid(),
            itinerary_id,
            category,
            item_name,
            planned_amount: None,
            actual_amount: None,
            payer: None,
            split_method: String::from_str("equal"),
            expense_date: None,
            created_at: now,
            updated_at: now,
        }
    }

    /// Applies a partial update: present fields overwrite, absent fields
    /// stay, identity, foreign key and creation stamp are untouched, and the
    /// update stamp is refreshed.
    pub fn apply_update(&mut self, upd: UpdateBudgetItemRequest, now: i64)
        requires
            old(self).created_at <= now,
        ensures
            final(self).category == (match upd.category {
                Some(v) => v,
                None => old(self).category,
            }),
            final(self).item_name == (match upd.item_name {
                Some(v) => v,
                None => old(self).item_name,
            }),
            final(self).planned_amount == (match upd.planned_amount {
                Some(v) => Some(v),
                None => old(self).planned_amount,
            }),
            final(self).actual_amount == (match upd.actual_amount {
                Some(v) => Some(v),
                None => old(self).actual_amount,
            }),
            final(self).payer == (match upd.payer {
                Some(v) => Some(v),
                None => old(self).payer,
            }),
            final(self).split_method == (match upd.split_method {
                Some(v) => v,
                None => old(self).split_method,
            }),
            final(self).expense_date == (match upd.expense_date {
                Some(v) => Some(v),
                None => old(self).expense_date,
            }),
            final(self).id == old(self).id,
            final(self).itinerary_id == old(self).itinerary_id,
            final(self).created_at == old(self).created_at,
            final(self).updated_at == now,
            final(self).wf(),
    {
        merge_field(&mut self.category, upd.category);
        merge_field(&mut self.item_name, upd.item_name);
        merge_opt_field(&mut self.planned_amount, upd.planned_amount);
        merge_opt_field(&mut self.actual_amount, upd.actual_amount);
        merge_opt_field(&mut self.payer, upd.payer);
        merge_field(&mut self.split_method, upd.split_method);
        merge_opt_field(&mut self.expense_date, upd.expense_date);
        self.updated_at = now;
    }
}

} // verus!
