//! The provider's zone and record data, as plain values.

use vstd::prelude::*;

verus! {

/// The answer to a zone listing.
#[derive(Debug, Clone)]
pub struct GetZonesResponse {
    pub result: Vec<Zone>,
}

/// One address record that the provider manages.
#[derive(Debug, Clone)]
pub struct DnsRecord {
    pub id: String,
    pub name: String,
    pub record_type: String,
    pub content: String,
    pub proxied: bool,
    pub ttl: i32,
    pub comment: Option<String>,
}

/// A zone of the provider: its identifier, its domain name and its status.
#[derive(Debug, Clone)]
pub struct Zone {
    pub id: String,
    pub name: String,
    pub status: String,
}

/// The answer to a record listing.
#[derive(Debug, Clone)]
pub struct GetDnsRecordsResponse {
    pub success: bool,
    pub result: Vec<DnsRecord>,
}

/// The payload that creates or updates a record; it carries no identifier.
#[derive(Debug, Clone)]
pub struct PostOrPutDnsRecordRequest {
    pub name: String,
    pub record_type: String,
    pub content: String,
    pub proxied: bool,
    pub ttl: i32,
    pub comment: Option<String>,
}

/// The answer to a create or an update.
#[derive(Debug, Clone)]
pub struct PostOrPutDnsRecordResponse {
    pub success: bool,
    pub result: DnsRecord,
}

} // verus!
