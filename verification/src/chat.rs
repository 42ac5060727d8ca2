//! The chat family: one message of an itinerary's planning conversation.
//! Messages are immutable once created, so the family has no update shape
//! and carries a single creation stamp.

use vstd::prelude::*;
use crate::clock::now_millis;
use crate::ident::generate_uuid;

verus! {

/// Who wrote a message: a closed variant, kept as a tagged enumeration so
/// that matches stay exhaustive.
#[derive(Clone, Copy, Debug, PartialEq, Eq, Structural)]
pub enum ChatRole {
    User,
    Assistant,
}

/// A full chat message record. The creation stamp is milliseconds since the
/// Unix epoch.
#[derive(Clone, Debug)]
pub struct ChatMessage {
    pub id: String,
    pub itinerary_id: String,
    pub role: ChatRole,
    pub content: String,
    pub llm_provider: Option<String>,
    pub created_at: i64,
}

/// The construction input: role and content required, the provider label
/// optional.
#[derive(Clone, Debug)]
pub struct CreateChatMessageRequest {
    pub role: ChatRole,
    pub content: String,
    pub llm_provider: Option<String>,
}

/// The lowercase token a role is exchanged as.
pub open spec fn spec_role_token(role: ChatRole) -> Seq<char> {
    match role {
        ChatRole::User => "user"@,
        ChatRole::Assistant => "assistant"@,
    }
}

/// The role a lowercase token names, and nothing for any other text.
pub open spec fn spec_parse_role(s: Seq<char>) -> Option<ChatRole> {
    if s == "user"@ {
        Some(ChatRole::User)
    } else if s == "assistant"@ {
        Some(ChatRole::Assistant)
    } else {
        None
    }
}

/// Renders a role as its lowercase token.
pub fn role_token(role: &ChatRole) -> (r: String)
    ensures
        r@ == spec_role_token(*role),
{
    match role {
        ChatRole::User => String::from_str("user"),
        ChatRole::Assistant => String::from_str("assistant"),
    }
}

/// Reads a role back from its lowercase token; any other text is refused.
pub fn parse_role(s: &str) -> (r: Option<ChatRole>)
    ensures
        r == spec_parse_role(s@),
{
    let owned = s.to_owned();
    if owned == String::from_str("user") {
        Some(ChatRole::User)
    } else if owned == String::from_str("assistant") {
        Some(ChatRole::Assistant)
    } else {
        None
    }
}

/// Rendering a role and reading the token back always yields the same role.
pub proof fn lemma_role_token_round_trip(role: ChatRole)
    ensures
        spec_parse_role(spec_role_token(role)) == Some(role),
{
    reveal_strlit("user");
    reveal_strlit("assistant");
    match role {
        ChatRole::User => {
            assert(spec_role_token(role) == "user"@);
        },
        ChatRole::Assistant => {
            assert(spec_role_token(role) == "assistant"@);
        },
    }
}

impl ChatMessage {
    /// Builds a message with a fresh identifier and creation stamp.
    pub fn new(itinerary_id: String, role: ChatRole, content: String, llm_provider: Option<
        String,
    >) -> (r: ChatMessage)
        ensures
            r.itinerary_id == itinerary_id,
            r.role == role,
            r.content == content,
            r.llm_provider == llm_provider,
            r.id@.len() == 36,
    {
        ChatMessage {
            id: generate_uuid(),
            itinerary_id,
            role,
            content,
            llm_provider,
            created_at: now_millis(),
        }
    }
}

} // verus!
