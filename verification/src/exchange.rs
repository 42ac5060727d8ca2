//! The exchange form of a record: an ordered list of named plain field
//! values. A record is encoded to this list and decoded back from it; the
//! decoder refuses any list whose keys, order or value kinds differ from the
//! family's shape, and the shape determines the record exactly, so a decode
//! of an encode always returns the original record. A host can render such a
//! list as its wire text and read one back.

use vstd::prelude::*;
use crate::budget::BudgetItem;
use crate::chat::{
    lemma_role_token_round_trip, parse_role, role_token, spec_parse_role, spec_role_token,
    ChatMessage,
};
use crate::itinerary::Itinerary;
use crate::packing::PackingItem;
use crate::timeline::TimelineItem;

verus! {

/// One exchanged field value: the plain forms a payload field can carry.
#[derive(Clone, Debug)]
pub enum FieldValue {
    Null,
    Bool(bool),
    Int(i64),
    Str(String),
}

/// A payload that does not match the expected shape: a field missing, out
/// of place, or of the wrong kind.
#[derive(Clone, Debug)]
pub struct DeserializationError {
    pub message: String,
}

/// Encodes an optional text as an exchanged value: the text, or null.
fn opt_str_field(o: &Option<String>) -> (v: FieldValue)
    ensures
        (match *o {
            Some(s) => v == FieldValue::Str(s),
            None => v is Null,
        }),
{
    match o {
        Some(s) => FieldValue::Str(s.clone()),
        None => FieldValue::Null,
    }
}

/// Reads field `i`, which must be named `key` and hold a text.
fn field_str(f: &Vec<(String, FieldValue)>, i: usize, key: &str) -> (r: Option<String>)
    requires
        i < f@.len(),
    ensures
        match r {
            Some(s) => f@[i as int].0@ == key@ && f@[i as int].1 == FieldValue::Str(s),
            None => !(f@[i as int].0@ == key@ && f@[i as int].1 is Str),
        },
{
    let (k, v) = &f[i];
    if *k == key.to_owned() {
        match v {
            FieldValue::Str(s) => Some(s.clone()),
            _ => None,
        }
    } else {
        None
    }
}

/// Reads field `i`, which must be named `key` and hold a text or null.
fn field_opt_str(f: &Vec<(String, FieldValue)>, i: usize, key: &str) -> (r: Option<Option<String>>)
    requires
        i < f@.len(),
    ensures
        match r {
            Some(o) => f@[i as int].0@ == key@ && (match o {
                Some(s) => f@[i as int].1 == FieldValue::Str(s),
                None => f@[i as int].1 is Null,
            }),
            None => !(f@[i as int].0@ == key@ && (f@[i as int].1 is Str || f@[i as int].1
                is Null)),
        },
{
    let (k, v) = &f[i];
    if *k == key.to_owned() {
        match v {
            FieldValue::Str(s) => Some(Some(s.clone())),
            FieldValue::Null => Some(None),
            _ => None,
        }
    } else {
        None
    }
}

/// Reads field `i`, which must be named `key` and hold an integer.
fn field_int(f: &Vec<(String, FieldValue)>, i: usize, key: &str) -> (r: Option<i64>)
    requires
        i < f@.len(),
    ensures
        match r {
            Some(n) => f@[i as int].0@ == key@ && f@[i as int].1 == FieldValue::Int(n),
            None => !(f@[i as int].0@ == key@ && f@[i as int].1 is Int),
        },
{
    let (k, v) = &f[i];
    if *k == key.to_owned() {
        match v {
            FieldValue::Int(n) => Some(*n),
            _ => None,
        }
    } else {
        None
    }
}

/// Reads field `i`, which must be named `key` and hold an integer that fits
/// a 32-bit value.
fn field_int32(f: &Vec<(String, FieldValue)>, i: usize, key: &str) -> (r: Option<i32>)
    requires
        i < f@.len(),
    ensures
        match r {
            Some(n) => f@[i as int].0@ == key@ && f@[i as int].1 == FieldValue::Int(n as i64),
            None => !(f@[i as int].0@ == key@ && (f@[i as int].1 matches FieldValue::Int(m)
                && i32::MIN <= m <= i32::MAX)),
        },
{
    let (k, v) = &f[i];
    if *k == key.to_owned() {
        match v {
            FieldValue::Int(n) => {
                if i32::MIN as i64 <= *n && *n <= i32::MAX as i64 {
                    Some(*n as i32)
                } else {
                    None
                }
            },
            _ => None,
        }
    } else {
        None
    }
}

/// Reads field `i`, which must be named `key` and hold an integer that fits
/// a 32-bit value, or null.
fn field_opt_int32(f: &Vec<(String, FieldValue)>, i: usize, key: &str) -> (r: Option<Option<i32>>)
    requires
        i < f@.len(),
    ensures
        match r {
            Some(o) => f@[i as int].0@ == key@ && (match o {
                Some(n) => f@[i as int].1 == FieldValue::Int(n as i64),
                None => f@[i as int].1 is Null,
            }),
            None => !(f@[i as int].0@ == key@ && ((f@[i as int].1 matches FieldValue::Int(m)
                && i32::MIN <= m <= i32::MAX) || f@[i as int].1 is Null)),
        },
{
    let (k, v) = &f[i];
    if *k == key.to_owned() {
        match v {
            FieldValue::Int(n) => {
                if i32::MIN as i64 <= *n && *n <= i32::MAX as i64 {
                    Some(Some(*n as i32))
                } else {
                    None
                }
            },
            FieldValue::Null => Some(None),
            _ => None,
        }
    } else {
        None
    }
}

/// Reads field `i`, which must be named `key` and hold an integer or null.
fn field_opt_int(f: &Vec<(String, FieldValue)>, i: usize, key: &str) -> (r: Option<Option<i64>>)
    requires
        i < f@.len(),
    ensures
        match r {
            Some(o) => f@[i as int].0@ == key@ && (match o {
                Some(n) => f@[i as int].1 == FieldValue::Int(n),
                None => f@[i as int].1 is Null,
            }),
            None => !(f@[i as int].0@ == key@ && (f@[i as int].1 is Int || f@[i as int].1
                is Null)),
        },
{
    let (k, v) = &f[i];
    if *k == key.to_owned() {
        match v {
            FieldValue::Int(n) => Some(Some(*n)),
            FieldValue::Null => Some(None),
            _ => None,
        }
    } else {
        None
    }
}

/// Reads field `i`, which must be named `key` and hold a boolean.
fn field_bool(f: &Vec<(String, FieldValue)>, i: usize, key: &str) -> (r: Option<bool>)
    requires
        i < f@.len(),
    ensures
        match r {
            Some(b) => f@[i as int].0@ == key@ && f@[i as int].1 == FieldValue::Bool(b),
            None => !(f@[i as int].0@ == key@ && f@[i as int].1 is Bool),
        },
{
    let (k, v) = &f[i];
    if *k == key.to_owned() {
        match v {
            FieldValue::Bool(b) => Some(*b),
            _ => None,
        }
    } else {
        None
    }
}

/// Encodes an optional 32-bit integer as an exchanged value.
fn opt_int32_field(o: &Option<i32>) -> (v: FieldValue)
    ensures
        (match *o {
            Some(n) => v == FieldValue::Int(n as i64),
            None => v is Null,
        }),
{
    match o {
        Some(n) => FieldValue::Int(*n as i64),
        None => FieldValue::Null,
    }
}

/// Encodes an optional integer as an exchanged value.
fn opt_int_field(o: &Option<i64>) -> (v: FieldValue)
    ensures
        (match *o {
            Some(n) => v == FieldValue::Int(n),
            None => v is Null,
        }),
{
    match o {
        Some(n) => FieldValue::Int(*n),
        None => FieldValue::Null,
    }
}

/// The itinerary exchange shape: seven fields, in this order, under these
/// names, with these value kinds.
pub open spec fn itinerary_fields_shape(f: Seq<(String, FieldValue)>) -> bool {
    &&& f.len() == 7
    &&& f[0].0@ == "id"@ && f[0].1 is Str
    &&& f[1].0@ == "title"@ && f[1].1 is Str
    &&& f[2].0@ == "description"@ && (f[2].1 is Str || f[2].1 is Null)
    &&& f[3].0@ == "edit_password_hash"@ && (f[3].1 is Str || f[3].1 is Null)
    &&& f[4].0@ == "theme"@ && f[4].1 is Str
    &&& f[5].0@ == "created_at"@ && f[5].1 is Int
    &&& f[6].0@ == "updated_at"@ && f[6].1 is Int
}

/// The list `f` is exactly the exchange form of the record `r`.
pub open spec fn is_itinerary_fields(f: Seq<(String, FieldValue)>, r: Itinerary) -> bool {
    &&& itinerary_fields_shape(f)
    &&& f[0].1 == FieldValue::Str(r.id)
    &&& f[1].1 == FieldValue::Str(r.title)
    &&& (match r.description {
        Some(d) => f[2].1 == FieldValue::Str(d),
        None => f[2].1 is Null,
    })
    &&& (match r.edit_password_hash {
        Some(h) => f[3].1 == FieldValue::Str(h),
        None => f[3].1 is Null,
    })
    &&& f[4].1 == FieldValue::Str(r.theme)
    &&& f[5].1 == FieldValue::Int(r.created_at)
    &&& f[6].1 == FieldValue::Int(r.updated_at)
}

/// Encodes an itinerary as its exchange fields.
pub fn itinerary_to_fields(r: &Itinerary) -> (out: Vec<(String, FieldValue)>)
    ensures
        is_itinerary_fields(out@, *r),
{
    let mut out: Vec<(String, FieldValue)> = Vec::new();
    out.push((String::from_str("id"), FieldValue::Str(r.id.clone())));
    out.push((String::from_str("title"), FieldValue::Str(r.title.clone())));
    out.push((String::from_str("description"), opt_str_field(&r.description)));
    out.push((String::from_str("edit_password_hash"), opt_str_field(&r.edit_password_hash)));
    out.push((String::from_str("theme"), FieldValue::Str(r.theme.clone())));
    out.push((String::from_str("created_at"), FieldValue::Int(r.created_at)));
    out.push((String::from_str("updated_at"), FieldValue::Int(r.updated_at)));
    out
}

/// Decodes an itinerary from its exchange fields; a list of any other shape
/// is refused, and an accepted list matches the returned record exactly.
pub fn itinerary_from_fields(f: &Vec<(String, FieldValue)>) -> (r: Result<
    Itinerary,
    DeserializationError,
>)
    ensures
        r matches Ok(rec) ==> is_itinerary_fields(f@, rec),
        r is Err <==> !itinerary_fields_shape(f@),
{
    if f.len() != 7 {
        return Err(shape_error());
    }
    let id = match field_str(f, 0, "id") {
        Some(s) => s,
        None => {
            return Err(shape_error());
        },
    };
    let title = match field_str(f, 1, "title") {
        Some(s) => s,
        None => {
            return Err(shape_error());
        },
    };
    let description = match field_opt_str(f, 2, "description") {
        Some(o) => o,
        None => {
            return Err(shape_error());
        },
    };
    let edit_password_hash = match field_opt_str(f, 3, "edit_password_hash") {
        Some(o) => o,
        None => {
            return Err(shape_error());
        },
    };
    let theme = match field_str(f, 4, "theme") {
        Some(s) => s,
        None => {
            return Err(shape_error());
        },
    };
    let created_at = match field_int(f, 5, "created_at") {
        Some(n) => n,
        None => {
            return Err(shape_error());
        },
    };
    let updated_at = match field_int(f, 6, "updated_at") {
        Some(n) => n,
        None => {
            return Err(shape_error());
        },
    };
    Ok(Itinerary { id, title, description, edit_password_hash, theme, created_at, updated_at })
}

/// The packing exchange shape: ten fields, in this order, under these
/// names, with these value kinds.
pub open spec fn packing_fields_shape(f: Seq<(String, FieldValue)>) -> bool {
    &&& f.len() == 10
    &&& f[0].0@ == "id"@ && f[0].1 is Str
    &&& f[1].0@ == "itinerary_id"@ && f[1].1 is Str
    &&& f[2].0@ == "item_name"@ && f[2].1 is Str
    &&& f[3].0@ == "category"@ && (f[3].1 is Str || f[3].1 is Null)
    &&& f[4].0@ == "quantity"@ && (f[4].1 matches FieldValue::Int(n) && i32::MIN <= n <= i32::MAX)
    &&& f[5].0@ == "is_checked"@ && f[5].1 is Bool
    &&& f[6].0@ == "memo"@ && (f[6].1 is Str || f[6].1 is Null)
    &&& f[7].0@ == "assignee"@ && (f[7].1 is Str || f[7].1 is Null)
    &&& f[8].0@ == "created_at"@ && f[8].1 is Int
    &&& f[9].0@ == "updated_at"@ && f[9].1 is Int
}

/// The list `f` is exactly the exchange form of the record `r`.
pub open spec fn is_packing_fields(f: Seq<(String, FieldValue)>, r: PackingItem) -> bool {
    &&& packing_fields_shape(f)
    &&& f[0].1 == FieldValue::Str(r.id)
    &&& f[1].1 == FieldValue::Str(r.itinerary_id)
    &&& f[2].1 == FieldValue::Str(r.item_name)
    &&& (match r.category {
        Some(c) => f[3].1 == FieldValue::Str(c),
        None => f[3].1 is Null,
    })
    &&& f[4].1 == FieldValue::Int(r.quantity as i64)
    &&& f[5].1 == FieldValue::Bool(r.is_checked)
    &&& (match r.memo {
        Some(m) => f[6].1 == FieldValue::Str(m),
        None => f[6].1 is Null,
    })
    &&& (match r.assignee {
        Some(a) => f[7].1 == FieldValue::Str(a),
        None => f[7].1 is Null,
    })
    &&& f[8].1 == FieldValue::Int(r.created_at)
    &&& f[9].1 == FieldValue::Int(r.updated_at)
}

/// Encodes a packing record as its exchange fields.
pub fn packing_to_fields(r: &PackingItem) -> (out: Vec<(String, FieldValue)>)
    ensures
        is_packing_fields(out@, *r),
{
    let mut out: Vec<(String, FieldValue)> = Vec::new();
    out.push((String::from_str("id"), FieldValue::Str(r.id.clone())));
    out.push((String::from_str("itinerary_id"), FieldValue::Str(r.itinerary_id.clone())));
    out.push((String::from_str("item_name"), FieldValue::Str(r.item_name.clone())));
    out.push((String::from_str("category"), opt_str_field(&r.category)));
    out.push((String::from_str("quantity"), FieldValue::Int(r.quantity as i64)));
    out.push((String::from_str("is_checked"), FieldValue::Bool(r.is_checked)));
    out.push((String::from_str("memo"), opt_str_field(&r.memo)));
    out.push((String::from_str("assignee"), opt_str_field(&r.assignee)));
    out.push((String::from_str("created_at"), FieldValue::Int(r.created_at)));
    out.push((String::from_str("updated_at"), FieldValue::Int(r.updated_at)));
    out
}

/// Decodes a packing record from its exchange fields; a list of any other
/// shape is refused, and an accepted list matches the returned record
/// exactly.
pub fn packing_from_fields(f: &Vec<(String, FieldValue)>) -> (r: Result<
    PackingItem,
    DeserializationError,
>)
    ensures
        r matches Ok(rec) ==> is_packing_fields(f@, rec),
        r is Err <==> !packing_fields_shape(f@),
{
    if f.len() != 10 {
        return Err(shape_error());
    }
    let id = match field_str(f, 0, "id") {
        Some(s) => s,
        None => {
            return Err(shape_error());
        },
    };
    let itinerary_id = match field_str(f, 1, "itinerary_id") {
        Some(s) => s,
        None => {
            return Err(shape_error());
        },
    };
    let item_name = match field_str(f, 2, "item_name") {
        Some(s) => s,
        None => {
            return Err(shape_error());
        },
    };
    let category = match field_opt_str(f, 3, "category") {
        Some(o) => o,
        None => {
            return Err(shape_error());
        },
    };
    let quantity = match field_int32(f, 4, "quantity") {
        Some(n) => n,
        None => {
            return Err(shape_error());
        },
    };
    let is_checked = match field_bool(f, 5, "is_checked") {
        Some(b) => b,
        None => {
            return Err(shape_error());
        },
    };
    let memo = match field_opt_str(f, 6, "memo") {
        Some(o) => o,
        None => {
            return Err(shape_error());
        },
    };
    let assignee = match field_opt_str(f, 7, "assignee") {
        Some(o) => o,
        None => {
            return Err(shape_error());
        },
    };
    let created_at = match field_int(f, 8, "created_at") {
        Some(n) => n,
        None => {
            return Err(shape_error());
        },
    };
    let updated_at = match field_int(f, 9, "updated_at") {
        Some(n) => n,
        None => {
            return Err(shape_error());
        },
    };
    Ok(
        PackingItem {
            id,
            itinerary_id,
            item_name,
            category,
            quantity,
            is_checked,
            memo,
            assignee,
            created_at,
            updated_at,
        },
    )
}

/// The exchange form is lossless: two packing records with the same
/// exchange fields are the same record, so decoding an encoded record
/// returns the original.
pub proof fn lemma_fields_determine_packing(
    f: Seq<(String, FieldValue)>,
    a: PackingItem,
    b: PackingItem,
)
    requires
        is_packing_fields(f, a),
        is_packing_fields(f, b),
    ensures
        a == b,
{
}

/// The budget exchange shape: eleven fields, in this order, under these
/// names, with these value kinds.
pub open spec fn budget_fields_shape(f: Seq<(String, FieldValue)>) -> bool {
    &&& f.len() == 11
    &&& f[0].0@ == "id"@ && f[0].1 is Str
    &&& f[1].0@ == "itinerary_id"@ && f[1].1 is Str
    &&& f[2].0@ == "category"@ && f[2].1 is Str
    &&& f[3].0@ == "item_name"@ && f[3].1 is Str
    &&& f[4].0@ == "planned_amount"@ && ((f[4].1 matches FieldValue::Int(n) && i32::MIN <= n
        <= i32::MAX) || f[4].1 is Null)
    &&& f[5].0@ == "actual_amount"@ && ((f[5].1 matches FieldValue::Int(n) && i32::MIN <= n
        <= i32::MAX) || f[5].1 is Null)
    &&& f[6].0@ == "payer"@ && (f[6].1 is Str || f[6].1 is Null)
    &&& f[7].0@ == "split_method"@ && f[7].1 is Str
    &&& f[8].0@ == "expense_date"@ && (f[8].1 is Str || f[8].1 is Null)
    &&& f[9].0@ == "created_at"@ && f[9].1 is Int
    &&& f[10].0@ == "updated_at"@ && f[10].1 is Int
}

/// The list `f` is exactly the exchange form of the record `r`.
pub open spec fn is_budget_fields(f: Seq<(String, FieldValue)>, r: BudgetItem) -> bool {
    &&& budget_fields_shape(f)
    &&& f[0].1 == FieldValue::Str(r.id)
    &&& f[1].1 == FieldValue::Str(r.itinerary_id)
    &&& f[2].1 == FieldValue::Str(r.category)
    &&& f[3].1 == FieldValue::Str(r.item_name)
    &&& (match r.planned_amount {
        Some(n) => f[4].1 == FieldValue::Int(n as i64),
        None => f[4].1 is Null,
    })
    &&& (match r.actual_amount {
        Some(n) => f[5].1 == FieldValue::Int(n as i64),
        None => f[5].1 is Null,
    })
    &&& (match r.payer {
        Some(p) => f[6].1 == FieldValue::Str(p),
        None => f[6].1 is Null,
    })
    &&& f[7].1 == FieldValue::Str(r.split_method)
    &&& (match r.expense_date {
        Some(d) => f[8].1 == FieldValue::Str(d),
        None => f[8].1 is Null,
    })
    &&& f[9].1 == FieldValue::Int(r.created_at)
    &&& f[10].1 == FieldValue::Int(r.updated_at)
}

/// Encodes a budget record as its exchange fields.
pub fn budget_to_fields(r: &BudgetItem) -> (out: Vec<(String, FieldValue)>)
    ensures
        is_budget_fields(out@, *r),
{
    let mut out: Vec<(String, FieldValue)> = Vec::new();
    out.push((String::from_str("id"), FieldValue::Str(r.id.clone())));
    out.push((String::from_str("itinerary_id"), FieldValue::Str(r.itinerary_id.clone())));
    out.push((String::from_str("category"), FieldValue::Str(r.category.clone())));
    out.push((String::from_str("item_name"), FieldValue::Str(r.item_name.clone())));
    out.push((String::from_str("planned_amount"), opt_int32_field(&r.planned_amount)));
    out.push((String::from_str("actual_amount"), opt_int32_field(&r.actual_amount)));
    out.push((String::from_str("payer"), opt_str_field(&r.payer)));
    out.push((String::from_str("split_method"), FieldValue::Str(r.split_method.clone())));
    out.push((String::from_str("expense_date"), opt_str_field(&r.expense_date)));
    out.push((String::from_str("created_at"), FieldValue::Int(r.created_at)));
    out.push((String::from_str("updated_at"), FieldValue::Int(r.updated_at)));
    out
}

/// Decodes a budget record from its exchange fields; a list of any other
/// shape is refused, and an accepted list matches the returned record
/// exactly.
pub fn budget_from_fields(f: &Vec<(String, FieldValue)>) -> (r: Result<
    BudgetItem,
    DeserializationError,
>)
    ensures
        r matches Ok(rec) ==> is_budget_fields(f@, rec),
        r is Err <==> !budget_fields_shape(f@),
{
    if f.len() != 11 {
        return Err(shape_error());
    }
    let id = match field_str(f, 0, "id") {
        Some(s) => s,
        None => {
            return Err(shape_error());
        },
    };
    let itinerary_id = match field_str(f, 1, "itinerary_id") {
        Some(s) => s,
        None => {
            return Err(shape_error());
        },
    };
    let category = match field_str(f, 2, "category") {
        Some(s) => s,
        None => {
            return Err(shape_error());
        },
    };
    let item_name = match field_str(f, 3, "item_name") {
        Some(s) => s,
        None => {
            return Err(shape_error());
        },
    };
    let planned_amount = match field_opt_int32(f, 4, "planned_amount") {
        Some(o) => o,
        None => {
            return Err(shape_error());
        },
    };
    let actual_amount = match field_opt_int32(f, 5, "actual_amount") {
        Some(o) => o,
        None => {
            return Err(shape_error());
        },
    };
    let payer = match field_opt_str(f, 6, "payer") {
        Some(o) => o,
        None => {
            return Err(shape_error());
        },
    };
    let split_method = match field_str(f, 7, "split_method") {
        Some(s) => s,
        None => {
            return Err(shape_error());
        },
    };
    let expense_date = match field_opt_str(f, 8, "expense_date") {
        Some(o) => o,
        None => {
            return Err(shape_error());
        },
    };
    let created_at = match field_int(f, 9, "created_at") {
        Some(n) => n,
        None => {
            return Err(shape_error());
        },
    };
    let updated_at = match field_int(f, 10, "updated_at") {
        Some(n) => n,
        None => {
            return Err(shape_error());
        },
    };
    Ok(
        BudgetItem {
            id,
            itinerary_id,
            category,
            item_name,
            planned_amount,
            actual_amount,
            payer,
            split_method,
            expense_date,
            created_at,
            updated_at,
        },
    )
}

/// The exchange form is lossless: two budget records with the same exchange
/// fields are the same record, so decoding an encoded record returns the
/// original.
pub proof fn lemma_fields_determine_budget(
    f: Seq<(String, FieldValue)>,
    a: BudgetItem,
    b: BudgetItem,
)
    requires
        is_budget_fields(f, a),
        is_budget_fields(f, b),
    ensures
        a == b,
{
}

/// The chat exchange shape: six fields, in this order, under these names,
/// with these value kinds; the role must be a known lowercase token.
pub open spec fn chat_fields_shape(f: Seq<(String, FieldValue)>) -> bool {
    &&& f.len() == 6
    &&& f[0].0@ == "id"@ && f[0].1 is Str
    &&& f[1].0@ == "itinerary_id"@ && f[1].1 is Str
    &&& f[2].0@ == "role"@ && (f[2].1 matches FieldValue::Str(s) && spec_parse_role(s@) is Some)
    &&& f[3].0@ == "content"@ && f[3].1 is Str
    &&& f[4].0@ == "llm_provider"@ && (f[4].1 is Str || f[4].1 is Null)
    &&& f[5].0@ == "created_at"@ && f[5].1 is Int
}

/// The list `f` is exactly the exchange form of the message `r`.
pub open spec fn is_chat_fields(f: Seq<(String, FieldValue)>, r: ChatMessage) -> bool {
    &&& chat_fields_shape(f)
    &&& f[0].1 == FieldValue::Str(r.id)
    &&& f[1].1 == FieldValue::Str(r.itinerary_id)
    &&& (f[2].1 matches FieldValue::Str(s) && s@ == spec_role_token(r.role))
    &&& f[3].1 == FieldValue::Str(r.content)
    &&& (match r.llm_provider {
        Some(p) => f[4].1 == FieldValue::Str(p),
        None => f[4].1 is Null,
    })
    &&& f[5].1 == FieldValue::Int(r.created_at)
}

/// Encodes a chat message as its exchange fields, the role as its lowercase
/// token.
pub fn chat_to_fields(r: &ChatMessage) -> (out: Vec<(String, FieldValue)>)
    ensures
        is_chat_fields(out@, *r),
{
    let mut out: Vec<(String, FieldValue)> = Vec::new();
    out.push((String::from_str("id"), FieldValue::Str(r.id.clone())));
    out.push((String::from_str("itinerary_id"), FieldValue::Str(r.itinerary_id.clone())));
    out.push((String::from_str("role"), FieldValue::Str(role_token(&r.role))));
    out.push((String::from_str("content"), FieldValue::Str(r.content.clone())));
    out.push((String::from_str("llm_provider"), opt_str_field(&r.llm_provider)));
    out.push((String::from_str("created_at"), FieldValue::Int(r.created_at)));
    proof {
        lemma_role_token_round_trip(r.role);
    }
    out
}

/// Decodes a chat message from its exchange fields; a list of any other
/// shape is refused, and an accepted list matches the returned message
/// exactly.
pub fn chat_from_fields(f: &Vec<(String, FieldValue)>) -> (r: Result<
    ChatMessage,
    DeserializationError,
>)
    ensures
        r matches Ok(rec) ==> is_chat_fields(f@, rec),
        r is Err <==> !chat_fields_shape(f@),
{
    if f.len() != 6 {
        return Err(shape_error());
    }
    let id = match field_str(f, 0, "id") {
        Some(s) => s,
        None => {
            return Err(shape_error());
        },
    };
    let itinerary_id = match field_str(f, 1, "itinerary_id") {
        Some(s) => s,
        None => {
            return Err(shape_error());
        },
    };
    let role_text = match field_str(f, 2, "role") {
        Some(s) => s,
        None => {
            return Err(shape_error());
        },
    };
    let role = match parse_role(role_text.as_str()) {
        Some(role) => role,
        None => {
            return Err(shape_error());
        },
    };
    let content = match field_str(f, 3, "content") {
        Some(s) => s,
        None => {
            return Err(shape_error());
        },
    };
    let llm_provider = match field_opt_str(f, 4, "llm_provider") {
        Some(o) => o,
        None => {
            return Err(shape_error());
        },
    };
    let created_at = match field_int(f, 5, "created_at") {
        Some(n) => n,
        None => {
            return Err(shape_error());
        },
    };
    Ok(ChatMessage { id, itinerary_id, role, content, llm_provider, created_at })
}

/// The exchange form is lossless: two chat messages with the same exchange
/// fields are the same message, so decoding an encoded message returns the
/// original.
pub proof fn lemma_fields_determine_chat(f: Seq<(String, FieldValue)>, a: ChatMessage, b: ChatMessage)
    requires
        is_chat_fields(f, a),
        is_chat_fields(f, b),
    ensures
        a == b,
{
    lemma_role_token_round_trip(a.role);
    lemma_role_token_round_trip(b.role);
}

/// The timeline exchange shape: fifteen fields, in this order, under these
/// names, with these value kinds.
pub open spec fn timeline_fields_shape(f: Seq<(String, FieldValue)>) -> bool {
    &&& f.len() == 15
    &&& f[0].0@ == "id"@ && f[0].1 is Str
    &&& f[1].0@ == "itinerary_id"@ && f[1].1 is Str
    &&& f[2].0@ == "title"@ && f[2].1 is Str
    &&& f[3].0@ == "description"@ && (f[3].1 is Str || f[3].1 is Null)
    &&& f[4].0@ == "location_name"@ && (f[4].1 is Str || f[4].1 is Null)
    &&& f[5].0@ == "location_address"@ && (f[5].1 is Str || f[5].1 is Null)
    &&& f[6].0@ == "location_lat"@ && (f[6].1 is Int || f[6].1 is Null)
    &&& f[7].0@ == "location_lng"@ && (f[7].1 is Int || f[7].1 is Null)
    &&& f[8].0@ == "start_datetime"@ && (f[8].1 is Int || f[8].1 is Null)
    &&& f[9].0@ == "end_datetime"@ && (f[9].1 is Int || f[9].1 is Null)
    &&& f[10].0@ == "budget_amount"@ && ((f[10].1 matches FieldValue::Int(n) && i32::MIN <= n
        <= i32::MAX) || f[10].1 is Null)
    &&& f[11].0@ == "memo"@ && (f[11].1 is Str || f[11].1 is Null)
    &&& f[12].0@ == "sort_order"@ && (f[12].1 matches FieldValue::Int(n) && i32::MIN <= n
        <= i32::MAX)
    &&& f[13].0@ == "created_at"@ && f[13].1 is Int
    &&& f[14].0@ == "updated_at"@ && f[14].1 is Int
}

/// The list `f` is exactly the exchange form of the record `r`.
pub open spec fn is_timeline_fields(f: Seq<(String, FieldValue)>, r: TimelineItem) -> bool {
    &&& timeline_fields_shape(f)
    &&& f[0].1 == FieldValue::Str(r.id)
    &&& f[1].1 == FieldValue::Str(r.itinerary_id)
    &&& f[2].1 == FieldValue::Str(r.title)
    &&& (match r.description {
        Some(v) => f[3].1 == FieldValue::Str(v),
        None => f[3].1 is Null,
    })
    &&& (match r.location_name {
        Some(v) => f[4].1 == FieldValue::Str(v),
        None => f[4].1 is Null,
    })
    &&& (match r.location_address {
        Some(v) => f[5].1 == FieldValue::Str(v),
        None => f[5].1 is Null,
    })
    &&& (match r.location_lat {
        Some(v) => f[6].1 == FieldValue::Int(v),
        None => f[6].1 is Null,
    })
    &&& (match r.location_lng {
        Some(v) => f[7].1 == FieldValue::Int(v),
        None => f[7].1 is Null,
    })
    &&& (match r.start_datetime {
        Some(v) => f[8].1 == FieldValue::Int(v),
        None => f[8].1 is Null,
    })
    &&& (match r.end_datetime {
        Some(v) => f[9].1 == FieldValue::Int(v),
        None => f[9].1 is Null,
    })
    &&& (match r.budget_amount {
        Some(v) => f[10].1 == FieldValue::Int(v as i64),
        None => f[10].1 is Null,
    })
    &&& (match r.memo {
        Some(v) => f[11].1 == FieldValue::Str(v),
        None => f[11].1 is Null,
    })
    &&& f[12].1 == FieldValue::Int(r.sort_order as i64)
    &&& f[13].1 == FieldValue::Int(r.created_at)
    &&& f[14].1 == FieldValue::Int(r.updated_at)
}

/// Encodes a timeline record as its exchange fields.
pub fn timeline_to_fields(r: &TimelineItem) -> (out: Vec<(String, FieldValue)>)
    ensures
        is_timeline_fields(out@, *r),
{
    let mut out: Vec<(String, FieldValue)> = Vec::new();
    out.push((String::from_str("id"), FieldValue::Str(r.id.clone())));
    out.push((String::from_str("itinerary_id"), FieldValue::Str(r.itinerary_id.clone())));
    out.push((String::from_str("title"), FieldValue::Str(r.title.clone())));
    out.push((String::from_str("description"), opt_str_field(&r.description)));
    out.push((String::from_str("location_name"), opt_str_field(&r.location_name)));
    out.push((String::from_str("location_address"), opt_str_field(&r.location_address)));
    out.push((String::from_str("location_lat"), opt_int_field(&r.location_lat)));
    out.push((String::from_str("location_lng"), opt_int_field(&r.location_lng)));
    out.push((String::from_str("start_datetime"), opt_int_field(&r.start_datetime)));
    out.push((String::from_str("end_datetime"), opt_int_field(&r.end_datetime)));
    out.push((String::from_str("budget_amount"), opt_int32_field(&r.budget_amount)));
    out.push((String::from_str("memo"), opt_str_field(&r.memo)));
    out.push((String::from_str("sort_order"), FieldValue::Int(r.sort_order as i64)));
    out.push((String::from_str("created_at"), FieldValue::Int(r.created_at)));
    out.push((String::from_str("updated_at"), FieldValue::Int(r.updated_at)));
    out
}

/// Decodes a timeline record from its exchange fields; a list of any other
/// shape is refused, and an accepted list matches the returned record
/// exactly.
pub fn timeline_from_fields(f: &Vec<(String, FieldValue)>) -> (r: Result<
    TimelineItem,
    DeserializationError,
>)
    ensures
        r matches Ok(rec) ==> is_timeline_fields(f@, rec),
        r is Err <==> !timeline_fields_shape(f@),
{
    if f.len() != 15 {
        return Err(shape_error());
    }
    let id = match field_str(f, 0, "id") {
        Some(s) => s,
        None => {
            return Err(shape_error());
        },
    };
    let itinerary_id = match field_str(f, 1, "itinerary_id") {
        Some(s) => s,
        None => {
            return Err(shape_error());
        },
    };
    let title = match field_str(f, 2, "title") {
        Some(s) => s,
        None => {
            return Err(shape_error());
        },
    };
    let description = match field_opt_str(f, 3, "description") {
        Some(o) => o,
        None => {
            return Err(shape_error());
        },
    };
    let location_name = match field_opt_str(f, 4, "location_name") {
        Some(o) => o,
        None => {
            return Err(shape_error());
        },
    };
    let location_address = match field_opt_str(f, 5, "location_address") {
        Some(o) => o,
        None => {
            return Err(shape_error());
        },
    };
    let location_lat = match field_opt_int(f, 6, "location_lat") {
        Some(o) => o,
        None => {
            return Err(shape_error());
        },
    };
    let location_lng = match field_opt_int(f, 7, "location_lng") {
        Some(o) => o,
        None => {
            return Err(shape_error());
        },
    };
    let start_datetime = match field_opt_int(f, 8, "start_datetime") {
        Some(o) => o,
        None => {
            return Err(shape_error());
        },
    };
    let end_datetime = match field_opt_int(f, 9, "end_datetime") {
        Some(o) => o,
        None => {
            return Err(shape_error());
        },
    };
    let budget_amount = match field_opt_int32(f, 10, "budget_amount") {
        Some(o) => o,
        None => {
            return Err(shape_error());
        },
    };
    let memo = match field_opt_str(f, 11, "memo") {
        Some(o) => o,
        None => {
            return Err(shape_error());
        },
    };
    let sort_order = match field_int32(f, 12, "sort_order") {
        Some(n) => n,
        None => {
            return Err(shape_error());
        },
    };
    let created_at = match field_int(f, 13, "created_at") {
        Some(n) => n,
        None => {
            return Err(shape_error());
        },
    };
    let updated_at = match field_int(f, 14, "updated_at") {
        Some(n) => n,
        None => {
            return Err(shape_error());
        },
    };
    Ok(
        TimelineItem {
            id,
            itinerary_id,
            title,
            description,
            location_name,
            location_address,
            location_lat,
            location_lng,
            start_datetime,
            end_datetime,
            budget_amount,
            memo,
            sort_order,
            created_at,
            updated_at,
        },
    )
}

/// The exchange form is lossless: two timeline records with the same
/// exchange fields are the same record, so decoding an encoded record
/// returns the original.
pub proof fn lemma_fields_determine_timeline(
    f: Seq<(String, FieldValue)>,
    a: TimelineItem,
    b: TimelineItem,
)
    requires
        is_timeline_fields(f, a),
        is_timeline_fields(f, b),
    ensures
        a == b,
{
}

/// The one failure a field-shape mismatch reports.
fn shape_error() -> (e: DeserializationError)
    ensures
        e.message@ == "Invalid payload"@,
{
    DeserializationError { message: String::from_str("Invalid payload") }
}

/// The exchange form is lossless: two records with the same exchange fields
/// are the same record, so decoding an encoded record returns the original.
pub proof fn lemma_fields_determine_itinerary(
    f: Seq<(String, FieldValue)>,
    a: Itinerary,
    b: Itinerary,
)
    requires
        is_itinerary_fields(f, a),
        is_itinerary_fields(f, b),
    ensures
        a == b,
{
}

} // verus!
