//! Data shapes for browsing a provider's mod catalogue: the query a
//! caller builds, the paginated result a provider returns, and the
//! errors a discovery call can surface.

use vstd::prelude::*;

verus! {

/// How a discovery listing is ordered.
#[derive(Debug, Clone)]
pub enum SortOrder {
    Relevance,
    Downloads,
    Views,
    Likes,
    Newest,
    Updated,
}

/// A request for one page of a provider's mod listing.
#[derive(Debug, Clone)]
pub struct DiscoveryQuery {
    pub game_id: String,
    pub page: Option<u32>,
    pub page_size: Option<u32>,
    pub search: Option<String>,
    pub tags: Option<Vec<String>>,
    pub sort: Option<SortOrder>,
}

/// Where a result page sits within the full listing.
#[derive(Debug, Clone)]
pub struct PaginationMeta {
    pub current: u64,
    pub page_size: u64,
    pub total_pages: Option<u64>,
    pub total_items: Option<u64>,
}

/// A tag a provider knows about.
#[derive(Debug, Clone)]
pub struct Tag {
    pub id: String,
    pub name: String,
}

/// Context a provider attaches to a result page.
#[derive(Debug, Clone)]
pub struct DiscoveryMeta {
    pub provider_id: String,
    pub game_id: String,
    pub pagination: PaginationMeta,
    pub applied_tags: Vec<String>,
    pub available_tags: Option<Vec<Tag>>,
}

/// One mod as a provider lists it.
#[derive(Debug, Clone)]
pub struct GenericMod {
    pub id: String,
    pub name: String,
}

/// One page of discovered mods together with its metadata.
#[derive(Debug, Clone)]
pub struct DiscoveryResult {
    pub meta: DiscoveryMeta,
    pub mods: Vec<GenericMod>,
}

/// What a discovery call can fail with.
#[derive(Debug, Clone)]
pub enum DiscoveryError {
    Network(String),
    InvalidQuery(String),
    ProviderUnavailable,
    Internal(String),
}

} // verus!
