use travel_core::budget::BudgetItem;
use travel_core::chat::{ChatMessage, ChatRole};
use travel_core::exchange::{
    budget_from_fields, budget_to_fields, chat_from_fields, chat_to_fields, itinerary_from_fields,
    itinerary_to_fields, packing_from_fields, packing_to_fields, timeline_from_fields,
    timeline_to_fields, FieldValue,
};
use travel_core::facade::{construct_itinerary, construct_packing_item, construct_timeline_item};
use travel_core::itinerary::CreateItineraryRequest;
use travel_core::packing::CreatePackingItemRequest;
use travel_core::timeline::CreateTimelineItemRequest;

#[test]
fn itinerary_fields_round_trip() {
    let r = construct_itinerary(CreateItineraryRequest {
        title: "Kyoto trip".to_string(),
        description: Some("Five days".to_string()),
        edit_password: Some("hunter".to_string()),
        theme: None,
    });
    let f = itinerary_to_fields(&r);
    let back = itinerary_from_fields(&f).unwrap();
    assert_eq!(back.id, r.id);
    assert_eq!(back.title, r.title);
    assert_eq!(back.description, r.description);
    assert_eq!(back.edit_password_hash, r.edit_password_hash);
    assert_eq!(back.theme, r.theme);
    assert_eq!(back.created_at, r.created_at);
    assert_eq!(back.updated_at, r.updated_at);
}

#[test]
fn timeline_fields_round_trip() {
    let r = construct_timeline_item(
        CreateTimelineItemRequest {
            title: "Arrive".to_string(),
            description: None,
            location_name: Some("Kyoto Station".to_string()),
            location_address: None,
            location_lat: Some(34_985_800),
            location_lng: Some(135_758_800),
            start_datetime: Some(1_704_067_200_000),
            end_datetime: None,
            budget_amount: Some(2000),
            memo: None,
        },
        "itin-1".to_string(),
    );
    let f = timeline_to_fields(&r);
    let back = timeline_from_fields(&f).unwrap();
    assert_eq!(back.id, r.id);
    assert_eq!(back.itinerary_id, r.itinerary_id);
    assert_eq!(back.title, r.title);
    assert_eq!(back.description, r.description);
    assert_eq!(back.location_name, r.location_name);
    assert_eq!(back.location_address, r.location_address);
    assert_eq!(back.location_lat, r.location_lat);
    assert_eq!(back.location_lng, r.location_lng);
    assert_eq!(back.start_datetime, r.start_datetime);
    assert_eq!(back.end_datetime, r.end_datetime);
    assert_eq!(back.budget_amount, r.budget_amount);
    assert_eq!(back.memo, r.memo);
    assert_eq!(back.sort_order, r.sort_order);
    assert_eq!(back.created_at, r.created_at);
    assert_eq!(back.updated_at, r.updated_at);
}

#[test]
fn packing_fields_round_trip() {
    let r = construct_packing_item(
        CreatePackingItemRequest {
            item_name: "Socks".to_string(),
            category: Some("clothes".to_string()),
            quantity: Some(4),
            memo: None,
            assignee: Some("Alex".to_string()),
        },
        "itin-1".to_string(),
    );
    let f = packing_to_fields(&r);
    let back = packing_from_fields(&f).unwrap();
    assert_eq!(back.id, r.id);
    assert_eq!(back.itinerary_id, r.itinerary_id);
    assert_eq!(back.item_name, r.item_name);
    assert_eq!(back.category, r.category);
    assert_eq!(back.quantity, r.quantity);
    assert_eq!(back.is_checked, r.is_checked);
    assert_eq!(back.memo, r.memo);
    assert_eq!(back.assignee, r.assignee);
    assert_eq!(back.created_at, r.created_at);
    assert_eq!(back.updated_at, r.updated_at);
}

#[test]
fn budget_fields_round_trip() {
    let r = BudgetItem::new("itin-1".to_string(), "food".to_string(), "Ramen".to_string());
    let f = budget_to_fields(&r);
    let back = budget_from_fields(&f).unwrap();
    assert_eq!(back.id, r.id);
    assert_eq!(back.itinerary_id, r.itinerary_id);
    assert_eq!(back.category, r.category);
    assert_eq!(back.item_name, r.item_name);
    assert_eq!(back.planned_amount, r.planned_amount);
    assert_eq!(back.actual_amount, r.actual_amount);
    assert_eq!(back.payer, r.payer);
    assert_eq!(back.split_method, r.split_method);
    assert_eq!(back.expense_date, r.expense_date);
    assert_eq!(back.created_at, r.created_at);
    assert_eq!(back.updated_at, r.updated_at);
}

#[test]
fn chat_fields_round_trip() {
    let r = ChatMessage::new(
        "itin-1".to_string(),
        ChatRole::User,
        "Where should we eat?".to_string(),
        None,
    );
    let f = chat_to_fields(&r);
    assert!(matches!(&f[2].1, FieldValue::Str(s) if s == "user"));
    let back = chat_from_fields(&f).unwrap();
    assert_eq!(back.id, r.id);
    assert_eq!(back.itinerary_id, r.itinerary_id);
    assert_eq!(back.role, r.role);
    assert_eq!(back.content, r.content);
    assert_eq!(back.llm_provider, r.llm_provider);
    assert_eq!(back.created_at, r.created_at);
}

#[test]
fn decoder_refuses_wrong_shape() {
    let r = construct_itinerary(CreateItineraryRequest {
        title: "Kyoto trip".to_string(),
        description: None,
        edit_password: None,
        theme: None,
    });
    let mut f = itinerary_to_fields(&r);
    // Too few fields.
    let dropped = f.pop().unwrap();
    assert!(itinerary_from_fields(&f).is_err());
    f.push(dropped);
    assert!(itinerary_from_fields(&f).is_ok());
    // Wrong kind in a required text field.
    f[1].1 = FieldValue::Int(3);
    let e = itinerary_from_fields(&f).unwrap_err();
    assert_eq!(e.message, "Invalid payload");
}
