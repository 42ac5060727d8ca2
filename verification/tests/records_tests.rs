use std::collections::HashSet;
use travel_core::chat::{parse_role, role_token, ChatMessage, ChatRole};
use travel_core::ident::generate_uuid;
use travel_core::itinerary::{Itinerary, UpdateItineraryRequest};
use travel_core::packing::{PackingItem, UpdatePackingItemRequest};
use travel_core::timeline::{TimelineItem, UpdateTimelineItemRequest};

#[test]
fn identifiers_do_not_collide() {
    let mut seen: HashSet<String> = HashSet::new();
    for _ in 0..10_000 {
        let id = generate_uuid();
        assert_eq!(id.len(), 36);
        assert!(seen.insert(id), "identifier generation returned a duplicate");
    }
}

#[test]
fn two_successive_identifiers_differ() {
    assert_ne!(generate_uuid(), generate_uuid());
}

#[test]
fn identifiers_are_hyphenated_lowercase_hex() {
    for _ in 0..100 {
        let id = generate_uuid();
        let chars: Vec<char> = id.chars().collect();
        assert_eq!(chars.len(), 36);
        for (i, c) in chars.iter().enumerate() {
            if i == 8 || i == 13 || i == 18 || i == 23 {
                assert_eq!(*c, '-');
            } else {
                assert!(c.is_ascii_hexdigit() && !c.is_ascii_uppercase());
            }
        }
        assert_eq!(chars[14], '4');
        assert!(matches!(chars[19], '8' | '9' | 'a' | 'b'));
    }
}

#[test]
fn itinerary_new_defaults() {
    let r = Itinerary::new("Kyoto".to_string(), Some("spring".to_string()), None);
    assert_eq!(r.title, "Kyoto");
    assert_eq!(r.description.as_deref(), Some("spring"));
    assert_eq!(r.theme, "simple");
    assert_eq!(r.created_at, r.updated_at);
    assert_eq!(r.id.len(), 36);
}

#[test]
fn itinerary_update_merges_present_fields() {
    let mut r = Itinerary::new("Kyoto".to_string(), None, None);
    let created = r.created_at;
    let id = r.id.clone();
    let later = created + 5_000;
    r.apply_update(
        UpdateItineraryRequest {
            title: Some("Osaka".to_string()),
            description: None,
            theme: Some("dark".to_string()),
        },
        later,
    );
    assert_eq!(r.title, "Osaka");
    assert_eq!(r.description, None);
    assert_eq!(r.theme, "dark");
    assert_eq!(r.id, id);
    assert_eq!(r.created_at, created);
    assert_eq!(r.updated_at, later);
}

#[test]
fn timeline_update_keeps_absent_fields() {
    let mut r = TimelineItem::new("itin-1".to_string(), "Arrive".to_string(), 7);
    let later = r.created_at + 1;
    r.apply_update(
        UpdateTimelineItemRequest {
            title: None,
            description: Some("shinkansen".to_string()),
            location_name: None,
            location_address: None,
            location_lat: Some(35_689_000),
            location_lng: None,
            start_datetime: None,
            end_datetime: None,
            budget_amount: None,
            memo: None,
            sort_order: None,
        },
        later,
    );
    assert_eq!(r.title, "Arrive");
    assert_eq!(r.description.as_deref(), Some("shinkansen"));
    assert_eq!(r.location_lat, Some(35_689_000));
    assert_eq!(r.location_lng, None);
    assert_eq!(r.sort_order, 7);
    assert_eq!(r.updated_at, later);
}

#[test]
fn packing_update_can_check_off() {
    let mut r = PackingItem::new("itin-1".to_string(), "Socks".to_string());
    assert_eq!(r.quantity, 1);
    assert_eq!(r.is_checked, false);
    let later = r.created_at + 10;
    r.apply_update(
        UpdatePackingItemRequest {
            item_name: None,
            category: None,
            quantity: Some(3),
            is_checked: Some(true),
            memo: None,
            assignee: None,
        },
        later,
    );
    assert_eq!(r.quantity, 3);
    assert_eq!(r.is_checked, true);
    assert_eq!(r.item_name, "Socks");
    assert_eq!(r.updated_at, later);
}

#[test]
fn chat_message_new_fields() {
    let m = ChatMessage::new(
        "itin-1".to_string(),
        ChatRole::Assistant,
        "Welcome!".to_string(),
        Some("provider-x".to_string()),
    );
    assert_eq!(m.itinerary_id, "itin-1");
    assert_eq!(m.role, ChatRole::Assistant);
    assert_eq!(m.content, "Welcome!");
    assert_eq!(m.llm_provider.as_deref(), Some("provider-x"));
    assert_eq!(m.id.len(), 36);
}

#[test]
fn role_tokens_are_lowercase() {
    assert_eq!(role_token(&ChatRole::User), "user");
    assert_eq!(role_token(&ChatRole::Assistant), "assistant");
}

#[test]
fn role_tokens_round_trip() {
    assert_eq!(parse_role("user"), Some(ChatRole::User));
    assert_eq!(parse_role("assistant"), Some(ChatRole::Assistant));
    assert_eq!(parse_role("system"), None);
    assert_eq!(parse_role(&role_token(&ChatRole::User)), Some(ChatRole::User));
    assert_eq!(parse_role(&role_token(&ChatRole::Assistant)), Some(ChatRole::Assistant));
}
