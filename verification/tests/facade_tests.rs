use travel_core::budget::{BudgetItem, CreateBudgetItemRequest};
use travel_core::facade::{
    construct_budget_item, construct_itinerary, construct_packing_item, construct_timeline_item,
    validate_itinerary_data, validate_timeline_data,
};
use travel_core::itinerary::CreateItineraryRequest;
use travel_core::packing::CreatePackingItemRequest;
use travel_core::timeline::CreateTimelineItemRequest;
use travel_core::validate_email;

fn itinerary_request(title: &str) -> CreateItineraryRequest {
    CreateItineraryRequest {
        title: title.to_string(),
        description: None,
        edit_password: None,
        theme: None,
    }
}

fn timeline_request(title: &str) -> CreateTimelineItemRequest {
    CreateTimelineItemRequest {
        title: title.to_string(),
        description: None,
        location_name: None,
        location_address: None,
        location_lat: None,
        location_lng: None,
        start_datetime: None,
        end_datetime: None,
        budget_amount: None,
        memo: None,
    }
}

#[test]
fn validate_accepts_real_title() {
    assert_eq!(validate_itinerary_data(&itinerary_request("Kyoto trip")).unwrap(), true);
}

#[test]
fn validate_rejects_blank_title() {
    let e = validate_itinerary_data(&itinerary_request("   ")).unwrap_err();
    assert_eq!(e.message, "Title is required");
}

#[test]
fn validate_rejects_empty_title() {
    assert!(validate_itinerary_data(&itinerary_request("")).is_err());
}

#[test]
fn validate_rejects_unicode_space_title() {
    // Ideographic space only: trimmed away, so the title counts as empty.
    assert!(validate_itinerary_data(&itinerary_request("\u{3000}\u{00a0}")).is_err());
}

#[test]
fn validate_timeline_mirrors_itinerary_rule() {
    assert_eq!(validate_timeline_data(&timeline_request("Arrive")).unwrap(), true);
    let e = validate_timeline_data(&timeline_request(" \t\n")).unwrap_err();
    assert_eq!(e.message, "Title is required");
}

#[test]
fn construct_itinerary_defaults() {
    let r = construct_itinerary(itinerary_request("Kyoto trip"));
    assert_eq!(r.title, "Kyoto trip");
    assert_eq!(r.theme, "simple");
    assert_eq!(r.description, None);
    assert_eq!(r.edit_password_hash, None);
    assert_eq!(r.created_at, r.updated_at);
    assert_eq!(r.id.len(), 36);
}

#[test]
fn construct_itinerary_never_stores_password() {
    let mut req = itinerary_request("Kyoto trip");
    req.edit_password = Some("opensesame".to_string());
    req.theme = Some("dark".to_string());
    let r = construct_itinerary(req);
    assert_eq!(r.edit_password_hash.as_deref(), Some("placeholder_hash"));
    assert_eq!(r.theme, "dark");
}

#[test]
fn construct_timeline_defaults_sort_order() {
    let mut req = timeline_request("Arrive");
    req.location_lat = Some(35_689_000);
    req.budget_amount = Some(2000);
    let r = construct_timeline_item(req, "itin-1".to_string());
    assert_eq!(r.itinerary_id, "itin-1");
    assert_eq!(r.title, "Arrive");
    assert_eq!(r.sort_order, 1);
    assert_eq!(r.location_lat, Some(35_689_000));
    assert_eq!(r.budget_amount, Some(2000));
    assert_eq!(r.created_at, r.updated_at);
}

#[test]
fn construct_packing_defaults() {
    let req = CreatePackingItemRequest {
        item_name: "Socks".to_string(),
        category: None,
        quantity: None,
        memo: None,
        assignee: None,
    };
    let r = construct_packing_item(req, "itin-1".to_string());
    assert_eq!(r.quantity, 1);
    assert_eq!(r.is_checked, false);
    assert_eq!(r.item_name, "Socks");
}

#[test]
fn construct_packing_keeps_given_quantity() {
    let req = CreatePackingItemRequest {
        item_name: "Shirts".to_string(),
        category: Some("clothes".to_string()),
        quantity: Some(4),
        memo: None,
        assignee: None,
    };
    let r = construct_packing_item(req, "itin-1".to_string());
    assert_eq!(r.quantity, 4);
    assert_eq!(r.category.as_deref(), Some("clothes"));
}

#[test]
fn budget_defaults_differ_by_path() {
    let req = CreateBudgetItemRequest {
        category: "food".to_string(),
        item_name: "Ramen".to_string(),
        planned_amount: Some(1200),
        actual_amount: None,
        payer: None,
        split_method: None,
        expense_date: None,
    };
    let facade_made = construct_budget_item(req, "itin-1".to_string());
    assert_eq!(facade_made.split_method, "individual");
    let catalog_made =
        BudgetItem::new("itin-1".to_string(), "food".to_string(), "Ramen".to_string());
    assert_eq!(catalog_made.split_method, "equal");
}

#[test]
fn email_shape_check() {
    assert!(validate_email("traveler@example.com"));
    assert!(!validate_email("traveler_at_example.com"));
    assert!(!validate_email("traveler@example"));
    assert!(!validate_email(""));
}
