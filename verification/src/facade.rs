//! The construction and validation layer between decoded create-request
//! payloads and full records: required-field checks, defaulting rules, and
//! the synthesis of identity and timestamps. The host decodes payload text
//! into the request shapes and encodes the returned records.

use vstd::prelude::*;
use crate::budget::{BudgetItem, CreateBudgetItemRequest};
use crate::clock::now_millis;
use crate::ident::generate_uuid;
use crate::itinerary::{CreateItineraryRequest, Itinerary};
use crate::packing::{CreatePackingItemRequest, PackingItem};
use crate::strutil::{is_blank, str_is_blank};
use crate::timeline::{CreateTimelineItemRequest, TimelineItem};

verus! {

/// A semantic-rule failure: the payload decoded, but a required text field
/// is empty after trimming.
#[derive(Clone, Debug)]
pub struct ValidationError {
    pub message: String,
}

/// Checks an itinerary create request: the title must not be blank. Of the
/// families, only the two title-bearing ones carry such a check in this
/// layer; the asymmetry is deliberate and worth a second look before any
/// family gains or loses its check.
pub fn validate_itinerary_data(req: &CreateItineraryRequest) -> (r: Result<bool, ValidationError>)
    ensures
        match r {
            Ok(b) => b == true && !is_blank(req.title@),
            Err(e) => is_blank(req.title@) && e.message@ == "Title is required"@,
        },
{
    if str_is_blank(req.title.as_str()) {
        Err(ValidationError { message: String::from_str("Title is required") })
    } else {
        Ok(true)
    }
}

/// Checks a timeline create request: the title must not be blank.
pub fn validate_timeline_data(req: &CreateTimelineItemRequest) -> (r: Result<
    bool,
    ValidationError,
>)
    ensures
        match r {
            Ok(b) => b == true && !is_blank(req.title@),
            Err(e) => is_blank(req.title@) && e.message@ == "Title is required"@,
        },
{
    if str_is_blank(req.title.as_str()) {
        Err(ValidationError { message: String::from_str("Title is required") })
    } else {
        Ok(true)
    }
}

/// Builds a full itinerary from a create request: provided fields are copied,
/// the theme defaults to `"simple"`, a raw edit password is never stored and
/// is replaced by an opaque placeholder hash (a stand-in for an external
/// credential-hashing collaborator), and a fresh identifier and equal
/// creation and update stamps are synthesized.
pub fn construct_itinerary(req: CreateItineraryRequest) -> (r: Itinerary)
    ensures
        r.title == req.title,
        r.description == req.description,
        req.edit_password is Some ==> (r.edit_password_hash matches Some(h) && h@
            == "placeholder_hash"@),
        req.edit_password is None ==> r.edit_password_hash is None,
        req.theme matches Some(t) ==> r.theme == t,
        req.theme is None ==> r.theme@ == "simple"@,
        r.created_at == r.updated_at,
        r.id@.len() == 36,
        r.wf(),
{
    let now = now_millis();
    let edit_password_hash = match req.edit_password {
        Some(_) => Some(String::from_str("placeholder_hash")),
        None => None,
    };
    let theme = match req.theme {
        Some(t) => t,
        None => String::from_str("simple"),
    };
    Itinerary {
        id: generate_uuid(),
        title: req.title,
        description: req.description,
        edit_password_hash,
        theme,
        created_at: now,
        updated_at: now,
    }
}

/// Builds a full timeline record from a create request and its owning
/// itinerary: provided fields are copied, the sort order defaults to one,
/// and a fresh identifier and equal creation and update stamps are
/// synthesized.
pub fn construct_timeline_item(req: CreateTimelineItemRequest, itinerary_id: String) -> (r:
    TimelineItem)
    ensures
        r.itinerary_id == itinerary_id,
        r.title == req.title,
        r.description == req.description,
        r.location_name == req.location_name,
        r.location_address == req.location_address,
        r.location_lat == req.location_lat,
        r.location_lng == req.location_lng,
        r.start_datetime == req.start_datetime,
        r.end_datetime == req.end_datetime,
        r.budget_amount == req.budget_amount,
        r.memo == req.memo,
        r.sort_order == 1,
        r.created_at == r.updated_at,
        r.id@.len() == 36,
        r.wf(),
{
    let now = now_millis();
    TimelineItem {
        id: generate_uuid(),
        itinerary_id,
        title: req.title,
        description: req.description,
        location_name: req.location_name,
        location_address: req.location_address,
        location_lat: req.location_lat,
        location_lng: req.location_lng,
        start_datetime: req.start_datetime,
        end_datetime: req.end_datetime,
        budget_amount: req.budget_amount,
        memo: req.memo,
        sort_order: 1,
        created_at: now,
        updated_at: now,
    }
}

/// Builds a full packing record from a create request and its owning
/// itinerary: provided fields are copied, the quantity defaults to one, the
/// checked flag starts off, and a fresh identifier and equal creation and
/// update stamps are synthesized.
pub fn construct_packing_item(req: CreatePackingItemRequest, itinerary_id: String) -> (r:
    PackingItem)
    ensures
        r.itinerary_id == itinerary_id,
        r.item_name == req.item_name,
        r.category == req.category,
        r.quantity == (match req.quantity {
            Some(q) => q,
            None => 1,
        }),
        r.is_checked == false,
        r.memo == req.memo,
        r.assignee == req.assignee,
        r.created_at == r.updated_at,
        r.id@.len() == 36,
        r.wf(),
{
    let now = now_millis();
    let quantity = match req.quantity {
        Some(q) => q,
        None => 1,
    };
    PackingItem {
        id: generate_uuid(),
        itinerary_id,
        item_name: req.item_name,
        category: req.category,
        quantity,
        is_checked: false,
        memo: req.memo,
        assignee: req.assignee,
        created_at: now,
        updated_at: now,
    }
}

/// Builds a full budget record from a create request and its owning
/// itinerary: provided fields are copied, the split method defaults to
/// `"individual"` on this path (the family's own constructor defaults to
/// `"equal"`; the two paths deliberately differ, and neither may be silently
/// unified with the other), and a fresh identifier and equal creation and
/// update stamps are synthesized.
pub fn construct_budget_item(req: CreateBudgetItemRequest, itinerary_id: String) -> (r: BudgetItem)
    ensures
        r.itinerary_id == itinerary_id,
        r.category == req.category,
        r.item_name == req.item_name,
        r.planned_amount == req.planned_amount,
        r.actual_amount == req.actual_amount,
        r.payer == req.payer,
        req.split_method matches Some(m) ==> r.split_method == m,
        req.split_method is None ==> r.split_method@ == "individual"@,
        r.expense_date == req.expense_date,
        r.created_at == r.updated_at,
        r.id@.len() == 36,
        r.wf(),
{
    let now = now_millis();
    let split_method = match req.split_method {
        Some(m) => m,
        None => String::from_str("individual"),
    };
    BudgetItem {
        id: generate_uuid(),
        itinerary_id,
        category: req.category,
        item_name: req.item_name,
        planned_amount: req.planned_amount,
        actual_amount: req.actual_amount,
        payer: req.payer,
        split_method,
        expense_date: req.expense_date,
        created_at: now,
        updated_at: now,
    }
}

} // verus!
