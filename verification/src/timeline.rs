//! The timeline family: one scheduled stop of an itinerary, with its create
//! and update shapes.

use vstd::prelude::*;
use crate::clock::now_millis;
use crate::ident::generate_uuid;
use crate::merge::{merge_field, merge_opt_field};

verus! {

/// A full timeline record. Instants are milliseconds since the Unix epoch;
/// coordinates are held in millionths of a degree, so the host converts
/// between degrees and these plain integers at its own edge.
#[derive(Clone, Debug)]
pub struct TimelineItem {
    pub id: String,
    pub itinerary_id: String,
    pub title: String,
    pub description: Option<String>,
    pub location_name: Option<String>,
    pub location_address: Option<String>,
    pub location_lat: Option<i64>,
    pub location_lng: Option<i64>,
    pub start_datetime: Option<i64>,
    pub end_datetime: Option<i64>,
    pub budget_amount: Option<i32>,
    pub memo: Option<String>,
    pub sort_order: i32,
    pub created_at: i64,
    pub updated_at: i64,
}

/// The construction input: required title, the rest optional.
#[derive(Clone, Debug)]
pub struct CreateTimelineItemRequest {
    pub title: String,
    pub description: Option<String>,
    pub location_name: Option<String>,
    pub location_address: Option<String>,
    pub location_lat: Option<i64>,
    pub location_lng: Option<i64>,
    pub start_datetime: Option<i64>,
    pub end_datetime: Option<i64>,
    pub budget_amount: Option<i32>,
    pub memo: Option<String>,
}

/// The patch input: every field optional, absent fields left unchanged.
/// Identity, foreign key and timestamps are never client-settable.
#[derive(Clone, Debug)]
pub struct UpdateTimelineItemRequest {
    pub title: Option<String>,
    pub description: Option<String>,
    pub location_name: Option<String>,
    pub location_address: Option<String>,
    pub location_lat: Option<i64>,
    pub location_lng: Option<i64>,
    pub start_datetime: Option<i64>,
    pub end_datetime: Option<i64>,
    pub budget_amount: Option<i32>,
    pub memo: Option<String>,
    pub sort_order: Option<i32>,
}

impl TimelineItem {
    /// The record's timestamps never run backwards.
    pub open spec fn wf(self) -> bool {
        self.created_at <= self.updated_at
    }

    /// Builds a record from the minimal fields, with every optional field
    /// absent, a fresh identifier and equal creation and update stamps.
    pub fn new(itinerary_id: String, title: String, sort_order: i32) -> (r: TimelineItem)
        ensures
            r.itinerary_id == itinerary_id,
            r.title == title,
            r.sort_order == sort_order,
            r.description is None,
            r.location_name is None,
            r.location_address is None,
            r.location_lat is None,
            r.location_lng is None,
            r.start_datetime is None,
            r.end_datetime is None,
            r.budget_amount is None,
            r.memo is None,
            r.created_at == r.updated_at,
            r.id@.len() == 36,
            r.wf(),
    {
        let now = now_millis();
        TimelineItem {
            id: generate_uuid(),
            itinerary_id,
            title,
            description: None,
            location_name: None,
            location_address: None,
            location_lat: None,
            location_lng: None,
            start_datetime: None,
            end_datetime: None,
            budget_amount: None,
            memo: None,
            sort_order,
            created_at: now,
            updated_at: now,
        }
    }

    /// Applies a partial update: present fields overwrite, absent fields
    /// stay, identity, foreign key and creation stamp are untouched, and the
    /// update stamp is refreshed.
    pub fn apply_update(&mut self, upd: UpdateTimelineItemRequest, now: i64)
        requires
            old(self).created_at <= now,
        ensures
            final(self).title == (match upd.title {
                Some(v) => v,
                None => old(self).title,
            }),
            final(self).description == (match upd.description {
                Some(v) => Some(v),
                None => old(self).description,
            }),
            final(self).location_name == (match upd.location_name {
                Some(v) => Some(v),
                None => old(self).location_name,
            }),
            final(self).location_address == (match upd.location_address {
                Some(v) => Some(v),
                None => old(self).location_address,
            }),
            final(self).location_lat == (match upd.location_lat {
                Some(v) => Some(v),
                None => old(self).location_lat,
            }),
            final(self).location_lng == (match upd.location_lng {
                Some(v) => Some(v),
                None => old(self).location_lng,
            }),
            final(self).start_datetime == (match upd.start_datetime {
                Some(v) => Some(v),
                None => old(self).start_datetime,
            }),
            final(self).end_datetime == (match upd.end_datetime {
                Some(v) => Some(v),
                None => old(self).end_datetime,
            }),
            final(self).budget_amount == (match upd.budget_amount {
                Some(v) => Some(v),
                None => old(self).budget_amount,
            }),
            final(self).memo == (match upd.memo {
                Some(v) => Some(v),
                None => old(self).memo,
            }),
            final(self).sort_order == (match upd.sort_order {
                Some(v) => v,
                None => old(self).sort_order,
            }),
            final(self).id == old(self).id,
            final(self).itinerary_id == old(self).itinerary_id,
            final(self).created_at == old(self).created_at,
            final(self).updated_at == now,
            final(self).wf(),
    {
        merge_field(&mut self.title, upd.title);
        merge_opt_field(&mut self.description, upd.description);
        merge_opt_field(&mut self.location_name, upd.location_name);
        merge_opt_field(&mut self.location_address, upd.location_address);
        merge_opt_field(&mut self.location_lat, upd.location_lat);
        merge_opt_field(&mut self.location_lng, upd.location_lng);
        merge_opt_field(&mut self.start_datetime, upd.start_datetime);
        merge_opt_field(&mut self.end_datetime, upd.end_datetime);
        merge_opt_field(&mut self.budget_amount, upd.budget_amount);
        merge_opt_field(&mut self.memo, upd.memo);
        merge_field(&mut self.sort_order, upd.sort_order);
        self.updated_at = now;
    }
}

} // verus!
