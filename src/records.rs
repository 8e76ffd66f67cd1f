use vstd::prelude::*;
use crate::address::Address;

verus! {

/// Every way a transition can be refused. A refused transition changes nothing.
#[derive(Clone, Copy, Debug, PartialEq, Eq, Structural)]
pub enum ErrorCode {
    /// The fee rate is above 5000 basis points.
    FeeTooHigh,
    /// A name is longer than its bound.
    NameTooLong,
    /// A metadata URI is longer than 200 bytes.
    UriTooLong,
    /// A skill identifier is longer than 64 bytes.
    SkillIdTooLong,
    /// A description is longer than 256 bytes.
    DescriptionTooLong,
    /// A price of zero was given.
    PriceMustBePositive,
    /// The skill has been deactivated.
    SkillNotActive,
    /// A rating outside 1..=5 was given.
    InvalidRating,
    /// The purchase already carries a rating.
    AlreadyRated,
    /// The caller does not control the record.
    Unauthorized,
    /// The record to be created already exists.
    AlreadyExists,
    /// A record the transition needs does not exist.
    NotFound,
    /// A counter would pass its largest value.
    Overflow,
    /// The token transfer of a purchase did not go through.
    TransferFailed,
}

impl ErrorCode {
    /// Whether the error reports an out-of-range or oversized input.
    pub fn is_invalid_parameter(&self) -> (r: bool)
        ensures
            r == (*self == ErrorCode::FeeTooHigh || *self == ErrorCode::NameTooLong || *self
                == ErrorCode::UriTooLong || *self == ErrorCode::SkillIdTooLong || *self
                == ErrorCode::DescriptionTooLong || *self == ErrorCode::PriceMustBePositive
                || *self == ErrorCode::InvalidRating),
    {
        match self {
            ErrorCode::FeeTooHigh | ErrorCode::NameTooLong | ErrorCode::UriTooLong
            | ErrorCode::SkillIdTooLong | ErrorCode::DescriptionTooLong
            | ErrorCode::PriceMustBePositive | ErrorCode::InvalidRating => true,
            _ => false,
        }
    }
}

/// How a skill's API authenticates its callers.
#[derive(Clone, Copy, Debug, PartialEq, Eq, Structural)]
pub enum AuthType {
    NoAuth,
    Bearer,
    Cookie,
    ApiKey,
    OAuth,
    Custom,
}

/// The global configuration and counters of the marketplace.
pub struct Marketplace {
    pub authority: Address,
    pub fee_bps: u16,
    pub total_skills: u64,
    pub total_purchases: u64,
    pub total_volume_usdc: u64,
}

/// The record of one agent identity: its publishing, sales and reputation.
pub struct Agent {
    pub owner: Address,
    pub name: String,
    pub metadata_uri: String,
    pub skills_published: u64,
    pub skills_sold: u64,
    pub total_earnings: u64,
    pub reputation_score: u8,
    pub total_ratings: u64,
    pub created_at: i64,
}

/// One purchasable skill listing.
pub struct Skill {
    pub publisher: Address,
    /// The owner key of the publisher's agent record.
    pub agent: Address,
    pub skill_id: String,
    pub name: String,
    pub description: String,
    pub endpoint_count: u16,
    pub auth_type: AuthType,
    pub price_usdc: u64,
    pub metadata_uri: String,
    pub total_purchases: u64,
    pub total_revenue: u64,
    pub avg_rating: u8,
    pub total_ratings: u64,
    pub is_active: bool,
    pub created_at: i64,
    pub updated_at: i64,
}

/// A completed sale of one skill to one buyer, with its rating (0 until rated).
pub struct Purchase {
    pub buyer: Address,
    pub skill_id: String,
    pub price_paid: u64,
    pub fee_paid: u64,
    pub purchased_at: i64,
    pub rating: u8,
}

/// Length of a string in bytes of its UTF-8 encoding.
pub open spec fn byte_len(s: String) -> usize {
    vstd::utf8::encode_utf8(s@).len() as usize
}

/// Exec counterpart of [`byte_len`].
pub fn string_byte_len(s: &String) -> (r: usize)
    ensures
        r == byte_len(*s),
{
    s.as_str().len()
}

} // verus!
