//! The root record family: an itinerary with its create and update shapes.

use vstd::prelude::*;
use crate::clock::now_millis;
use crate::ident::generate_uuid;
use crate::merge::{merge_field, merge_opt_field};

verus! {

/// A full itinerary record. Timestamps are milliseconds since the Unix
/// epoch; the edit password is held only as an opaque hash, never verbatim.
#[derive(Clone, Debug)]
pub struct Itinerary {
    pub id: String,
    pub title: String,
    pub description: Option<String>,
    pub edit_password_hash: Option<String>,
    pub theme: String,
    pub created_at: i64,
    pub updated_at: i64,
}

/// The construction input: required title, the rest optional.
#[derive(Clone, Debug)]
pub struct CreateItineraryRequest {
    pub title: String,
    pub description: Option<String>,
    pub edit_password: Option<String>,
    pub theme: Option<String>,
}

/// The patch input: every field optional, absent fields left unchanged.
/// Identity and timestamps are never client-settable.
#[derive(Clone, Debug)]
pub struct UpdateItineraryRequest {
    pub title: Option<String>,
    pub description: Option<String>,
    pub theme: Option<String>,
}

impl Itinerary {
    /// The record's timestamps never run backwards.
    pub open spec fn wf(self) -> bool {
        self.created_at <= self.updated_at
    }

    /// Builds a record from the minimal fields, with the family default
    /// theme, a fresh identifier and equal creation and update stamps.
    pub fn new(title: String, description: Option<String>, edit_password_hash: Option<String>) -> (r: Itinerary)
        ensures
            r.title == title,
            r.description == description,
            r.edit_password_hash == edit_password_hash,
            r.theme@ == "simple"@,
            r.created_at == r.updated_at,
            r.id@.len() == 36,
            r.wf(),
    {
        let now = now_millis();
        Itinerary {
            id: generate_uuid(),
            title,
            description,
            edit_password_hash,
            theme: String::from_str("simple"),
            created_at: now,
            updated_at: now,
        }
    }

    /// Applies a partial update: present fields overwrite, absent fields
    /// stay, identity, secret hash and creation stamp are untouched, and the
    /// update stamp is refreshed.
    pub fn apply_update(&mut self, upd: UpdateItineraryRequest, now: i64)
        requires
            old(self).created_at <= now,
        ensures
            final(self).title == (match upd.title {
                Some(v) => v,
                None => old(self).title,
            }),
            final(self).description == (match upd.description {
                Some(v) => Some(v),
                None => old(self).description,
            }),
            final(self).theme == (match upd.theme {
                Some(v) => v,
                None => old(self).theme,
            }),
            final(self).id == old(self).id,
            final(self).edit_password_hash == old(self).edit_password_hash,
            final(self).created_at == old(self).created_at,
            final(self).updated_at == now,
            final(self).wf(),
    {
        merge_field(&mut self.title, upd.title);
        merge_opt_field(&mut self.description, upd.description);
        merge_field(&mut self.theme, upd.theme);
        self.updated_at = now;
    }
}

} // verus!
