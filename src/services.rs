//! The provider client: its zone-identifier cache, the requests it sends and
//! what it makes of the answers. Sending a request and decoding the answer is
//! the caller's part; every decision between those steps is made here.

use crate::models::{DnsRecord, GetDnsRecordsResponse, GetZonesResponse, PostOrPutDnsRecordRequest, PostOrPutDnsRecordResponse, Zone};
use vstd::prelude::*;
use vstd::string::StringExecFns;

verus! {

/// Root of the provider's REST API.
pub const CF_BASE_URL: &'static str = "https://api.cloudflare.com/client/v4";

/// Endpoint that reports the caller's address in a response header.
pub const ECHO_URL: &'static str = "https://echo.fallenwood.net/";

/// Header of the echo endpoint's answer that holds the observed address.
pub const CLIENT_IP_HEADER: &'static str = "X-Client-IP";

/// Time to live of every record written.
pub const RECORD_TTL: i32 = 60;

/// The kinds of failure; the reconciliation loop decides which are fatal.
#[derive(Debug, Clone, Copy, PartialEq, Eq, Structural)]
pub enum DdnsError {
    /// A missing setting or an unsupported address family.
    Configuration,
    /// The call failed or the provider answered with a failure envelope.
    Network,
    /// The answer did not have the expected shape.
    Decode,
    /// The configured zone is not among those the credential can see.
    NotFound,
}

/// The HTTP method of a provider call.
#[derive(Debug, Clone, Copy, PartialEq, Eq, Structural)]
pub enum HttpMethod {
    Get,
    Post,
    Put,
}

/// A call to the provider's API, with its bearer credential and JSON body.
#[derive(Debug, Clone)]
pub struct ApiRequest {
    pub method: HttpMethod,
    pub url: String,
    pub bearer: String,
    pub body: Option<PostOrPutDnsRecordRequest>,
}

/// The local address to bind to so that the echo lookup goes over the
/// given family: `A` is IPv4 and `AAAA` is IPv6.
pub open spec fn bind_address_of(ip_type: Seq<char>) -> Option<Seq<char>> {
    if ip_type == "A"@ {
        Some("0.0.0.0"@)
    } else if ip_type == "AAAA"@ {
        Some("::"@)
    } else {
        None
    }
}

/// Chooses the local bind address for an address family; any family other
/// than `A` and `AAAA` is a configuration error.
pub fn local_bind_address(ip_type: &String) -> (r: Result<String, DdnsError>)
    ensures
        match bind_address_of(ip_type@) {
            Some(a) => r matches Ok(s) && s@ == a,
            None => r == Err::<String, DdnsError>(DdnsError::Configuration),
        },
{
    let a = String::from_str("A");
    let aaaa = String::from_str("AAAA");
    if *ip_type == a {
        Ok(String::from_str("0.0.0.0"))
    } else if *ip_type == aaaa {
        Ok(String::from_str("::"))
    } else {
        Err(DdnsError::Configuration)
    }
}

/// The address the echo endpoint reported, or the empty string when its
/// answer carried no readable address header.
pub fn observed_address(header: Option<String>) -> (r: String)
    ensures
        match header {
            Some(h) => r@ == h@,
            None => r@ == Seq::<char>::empty(),
        },
{
    match header {
        Some(h) => h,
        None => String::new(),
    }
}

/// Whether no zone before index `end` of `zones` is named `name`.
pub open spec fn no_zone_named_before(zones: Seq<Zone>, name: Seq<char>, end: int) -> bool {
    forall|j: int| 0 <= j < end ==> (#[trigger] zones[j]).name@ != name
}

/// The identifier of the first zone of `zones` named exactly `name`.
pub open spec fn first_zone_id(zones: Seq<Zone>, name: Seq<char>) -> Option<Seq<char>> {
    if exists|i: int| 0 <= i < zones.len() && (#[trigger] zones[i]).name@ == name {
        let i = choose|i: int|
            0 <= i < zones.len() && (#[trigger] zones[i]).name@ == name && no_zone_named_before(
                zones,
                name,
                i,
            );
        Some(zones[i].id@)
    } else {
        None
    }
}

/// The cached zone identifier after a zone listing: a cached one is kept,
/// an absent one is filled from the listing when it holds the zone.
pub open spec fn zone_id_after_listing(
    cached: Option<Seq<char>>,
    zones: Seq<Zone>,
    name: Seq<char>,
) -> Option<Seq<char>> {
    match cached {
        Some(id) => Some(id),
        None => first_zone_id(zones, name),
    }
}

/// The records of `records` named exactly `host`, in the provider's order.
pub open spec fn records_named(records: Seq<DnsRecord>, host: Seq<char>) -> Seq<DnsRecord>
    decreases records.len(),
{
    if records.len() == 0 {
        Seq::empty()
    } else {
        let rest = records_named(records.subrange(1, records.len() as int), host);
        if records[0].name@ == host {
            seq![records[0]] + rest
        } else {
            rest
        }
    }
}

/// The URL of the zone listing.
pub open spec fn zones_url() -> Seq<char> {
    CF_BASE_URL@ + "/zones"@
}

/// The URL of a zone's record collection.
pub open spec fn records_url(zone_id: Seq<char>) -> Seq<char> {
    CF_BASE_URL@ + "/zones/"@ + zone_id + "/dns_records"@
}

/// The URL of one record of a zone.
pub open spec fn record_url(zone_id: Seq<char>, record_id: Seq<char>) -> Seq<char> {
    records_url(zone_id) + "/"@ + record_id
}

/// Whether `body` is the payload that writes `content` as a record of type
/// `ip_type` named `host`: never proxied, with the fixed time to live.
pub open spec fn is_upsert_payload(
    body: PostOrPutDnsRecordRequest,
    host: Seq<char>,
    content: Seq<char>,
    ip_type: Seq<char>,
    comment: Option<Seq<char>>,
) -> bool {
    &&& body.name@ == host
    &&& body.record_type@ == ip_type
    &&& body.content@ == content
    &&& !body.proxied
    &&& body.ttl == RECORD_TTL
    &&& match comment {
        Some(c) => body.comment matches Some(b) && b@ == c,
        None => body.comment is None,
    }
}

/// A DNS provider client for one zone. It resolves the zone's identifier on
/// first use and keeps it for its whole lifetime.
pub struct DnsProvider {
    zone_name: String,
    token: String,
    zone_id: Option<String>,
    zone_listings: Ghost<nat>,
}

impl DnsProvider {
    /// The name of the zone this client serves.
    pub closed spec fn zone_name_view(&self) -> Seq<char> {
        self.zone_name@
    }

    /// The bearer credential sent on every call.
    pub closed spec fn token_view(&self) -> Seq<char> {
        self.token@
    }

    /// The cached zone identifier, if one was resolved.
    pub closed spec fn zone_id_view(&self) -> Option<Seq<char>> {
        match self.zone_id {
            Some(id) => Some(id@),
            None => None,
        }
    }

    /// How many zone listings this client has taken in over its lifetime.
    pub closed spec fn zone_listings_taken(&self) -> nat {
        self.zone_listings@
    }

    /// A client for the zone `zone_name`, with no zone identifier cached and
    /// no zone listing taken in yet.
    pub fn new(zone_name: String, token: String) -> (r: Self)
        ensures
            r.zone_name_view() == zone_name@,
            r.token_view() == token@,
            r.zone_id_view() is None,
            r.zone_listings_taken() == 0,
    {
        DnsProvider { zone_name, token, zone_id: None, zone_listings: Ghost(0) }
    }

    pub fn zone_name(&self) -> (r: &String)
        ensures
            r@ == self.zone_name_view(),
    {
        &self.zone_name
    }

    pub fn cached_zone_id(&self) -> (r: Option<String>)
        ensures
            match r {
                Some(id) => self.zone_id_view() == Some(id@),
                None => self.zone_id_view() is None,
            },
    {
        match &self.zone_id {
            Some(id) => Some(id.clone()),
            None => None,
        }
    }

    /// The zone listing to send before a record operation: there is one
    /// only while no zone identifier is cached.
    pub fn zones_request(&self) -> (r: Option<ApiRequest>)
        ensures
            r is Some <==> self.zone_id_view() is None,
            r matches Some(q) ==> q.method == HttpMethod::Get && q.url@ == zones_url()
                && q.bearer@ == self.token_view() && q.body is None,
    {
        if self.zone_id.is_none() {
            let mut url = String::from_str(CF_BASE_URL);
            url.append("/zones");
            Some(ApiRequest { method: HttpMethod::Get, url, bearer: self.token.clone(), body: None })
        } else {
            None
        }
    }

    /// The identifier of the first zone of a listing whose name is exactly
    /// the configured zone name.
    pub fn get_zone_id(&self, zones: &GetZonesResponse) -> (r: Option<String>)
        ensures
            match r {
                Some(id) => first_zone_id(zones.result@, self.zone_name_view()) == Some(id@),
                None => first_zone_id(zones.result@, self.zone_name_view()) is None,
            },
    {
        let n = zones.result.len();
        let mut i: usize = 0;
        while i < n
            invariant
                n == zones.result@.len(),
                i <= n,
                no_zone_named_before(zones.result@, self.zone_name@, i as int),
            decreases n - i,
        {
            let z = &zones.result[i];
            if z.name == self.zone_name {
                let id = z.id.clone();
                proof {
                    let s = zones.result@;
                    let name = self.zone_name@;
                    assert(0 <= i < s.len() && s[i as int].name@ == name);
                    let k = choose|k: int|
                        0 <= k < s.len() && (#[trigger] s[k]).name@ == name
                            && no_zone_named_before(s, name, k);
                    if k < i {
                        assert(s[k].name@ != name);
                    }
                    if k > i {
                        assert(s[i as int].name@ != name);
                    }
                    assert(k == i);
                }
                return Some(id);
            }
            i = i + 1;
        }
        None
    }

    /// Takes in the answer to a zone listing: fills the cache from it when
    /// no identifier is cached yet, and keeps a cached one otherwise.
    pub fn accept_zones(&mut self, zones: &GetZonesResponse)
        ensures
            final(self).zone_name_view() == old(self).zone_name_view(),
            final(self).token_view() == old(self).token_view(),
            final(self).zone_id_view() == zone_id_after_listing(
                old(self).zone_id_view(),
                zones.result@,
                old(self).zone_name_view(),
            ),
            final(self).zone_listings_taken() == old(self).zone_listings_taken() + if old(self).zone_id_view() is None {
                1nat
            } else {
                0nat
            },
    {
        if self.zone_id.is_none() {
            self.zone_id = self.get_zone_id(zones);
            self.zone_listings = Ghost(self.zone_listings@ + 1);
        }
    }

    /// The record listing of the zone; without a cached zone identifier the
    /// zone was not found, which fails the record operation.
    pub fn records_request(&self) -> (r: Result<ApiRequest, DdnsError>)
        ensures
            match self.zone_id_view() {
                Some(id) => r matches Ok(q) && q.method == HttpMethod::Get && q.url@ == records_url(
                    id,
                ) && q.bearer@ == self.token_view() && q.body is None,
                None => r matches Err(e) && e == DdnsError::NotFound,
            },
    {
        match &self.zone_id {
            Some(id) => {
                let url = Self::zone_records_url(id);
                Ok(ApiRequest { method: HttpMethod::Get, url, bearer: self.token.clone(), body: None })
            },
            None => Err(DdnsError::NotFound),
        }
    }

    fn zone_records_url(zone_id: &String) -> (r: String)
        ensures
            r@ == records_url(zone_id@),
    {
        let mut url = String::from_str(CF_BASE_URL);
        url.append("/zones/");
        url.append(zone_id.as_str());
        url.append("/dns_records");
        url
    }

    /// The records of a listing named exactly `hostname`, in the order the
    /// provider gave them; a failure envelope is a network error.
    pub fn get_dns_records(&self, response: GetDnsRecordsResponse, hostname: &str) -> (r: Result<
        Vec<DnsRecord>,
        DdnsError,
    >)
        ensures
            response.success ==> (r matches Ok(v) && v@ == records_named(
                response.result@,
                hostname@,
            )),
            !response.success ==> (r matches Err(e) && e == DdnsError::Network),
    {
        if !response.success {
            return Err(DdnsError::Network);
        }
        let host = String::from_str(hostname);
        let ghost all = response.result@;
        let mut rest = response.result;
        let mut kept: Vec<DnsRecord> = Vec::new();
        while rest.len() > 0
            invariant
                host@ == hostname@,
                kept@ + records_named(rest@, host@) == records_named(all, host@),
            decreases rest@.len(),
        {
            let ghost before = rest@;
            let rec = rest.remove(0);
            assert(rest@ =~= before.subrange(1, before.len() as int));
            if rec.name == host {
                assert(kept@.push(rec) + records_named(rest@, host@) =~= kept@ + records_named(
                    before,
                    host@,
                ));
                kept.push(rec);
            }
        }
        assert(kept@ + records_named(rest@, host@) =~= kept@);
        Ok(kept)
    }

    /// The create or update that writes `ip_address` for `host_name`: a POST
    /// to the zone's record collection when no record exists, a PUT to the
    /// existing record otherwise, both with the same payload. Without a
    /// cached zone identifier the zone was not found.
    pub fn upsert_request(
        &self,
        record: Option<&DnsRecord>,
        host_name: &str,
        ip_address: &str,
        ip_type: &str,
        comment: Option<&str>,
    ) -> (r: Result<ApiRequest, DdnsError>)
        ensures
            match self.zone_id_view() {
                None => r matches Err(e) && e == DdnsError::NotFound,
                Some(zid) => r matches Ok(q) && {
                    &&& q.bearer@ == self.token_view()
                    &&& q.body matches Some(b) && is_upsert_payload(
                        b,
                        host_name@,
                        ip_address@,
                        ip_type@,
                        match comment {
                            Some(c) => Some(c@),
                            None => None,
                        },
                    )
                    &&& match record {
                        None => q.method == HttpMethod::Post && q.url@ == records_url(zid),
                        Some(rec) => q.method == HttpMethod::Put && q.url@ == record_url(
                            zid,
                            rec.id@,
                        ),
                    }
                },
            },
    {
        let zone_id = match &self.zone_id {
            Some(id) => id,
            None => {
                return Err(DdnsError::NotFound);
            },
        };
        let body = PostOrPutDnsRecordRequest {
            name: String::from_str(host_name),
            record_type: String::from_str(ip_type),
            content: String::from_str(ip_address),
            proxied: false,
            ttl: RECORD_TTL,
            comment: match comment {
                Some(c) => Some(String::from_str(c)),
                None => None,
            },
        };
        let mut url = Self::zone_records_url(zone_id);
        let method = match record {
            None => HttpMethod::Post,
            Some(rec) => {
                url.append("/");
                url.append(rec.id.as_str());
                HttpMethod::Put
            },
        };
        Ok(ApiRequest { method, url, bearer: self.token.clone(), body: Some(body) })
    }

    /// The record that a create or an update left at the provider; a failure
    /// envelope is a network error.
    pub fn upsert_dns_record(&self, response: PostOrPutDnsRecordResponse) -> (r: Result<
        DnsRecord,
        DdnsError,
    >)
        ensures
            response.success ==> r == Ok::<DnsRecord, DdnsError>(response.result),
            !response.success ==> r == Err::<DnsRecord, DdnsError>(DdnsError::Network),
    {
        if response.success {
            Ok(response.result)
        } else {
            Err(DdnsError::Network)
        }
    }
}

} // verus!
