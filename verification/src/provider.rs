//! The DNS provider's side: records, the request that changes one, the
//! provider's answer to it, and the addresses of its two endpoints.

use vstd::prelude::*;
use vstd::string::*;

verus! {

/// The kind of a DNS record.
#[derive(Clone, Copy, Debug, PartialEq, Eq, Structural)]
pub enum DnsType {
    A,
    AAAA,
    CNAME,
    HTTPS,
    TXT,
    SRV,
}

impl DnsType {
    /// The name by which the provider knows this kind.
    pub open spec fn spec_name(self) -> Seq<char> {
        match self {
            DnsType::A => "A"@,
            DnsType::AAAA => "AAAA"@,
            DnsType::CNAME => "CNAME"@,
            DnsType::HTTPS => "HTTPS"@,
            DnsType::TXT => "TXT"@,
            DnsType::SRV => "SRV"@,
        }
    }

    /// The name by which the provider knows this kind.
    pub fn name(self) -> (r: &'static str)
        ensures
            r@ == self.spec_name(),
    {
        match self {
            DnsType::A => "A",
            DnsType::AAAA => "AAAA",
            DnsType::CNAME => "CNAME",
            DnsType::HTTPS => "HTTPS",
            DnsType::TXT => "TXT",
            DnsType::SRV => "SRV",
        }
    }
}

/// One record as the provider holds it.
#[derive(Clone, Debug, PartialEq, Eq)]
pub struct DnsRecord {
    pub id: String,
    pub name: String,
    pub record_type: String,
    pub content: String,
    pub ttl: i64,
    pub proxied: bool,
}

/// What a `DnsRecord` holds, as plain values.
pub struct DnsRecordView {
    pub id: Seq<char>,
    pub name: Seq<char>,
    pub record_type: Seq<char>,
    pub content: Seq<char>,
    pub ttl: i64,
    pub proxied: bool,
}

impl View for DnsRecord {
    type V = DnsRecordView;

    open spec fn view(&self) -> DnsRecordView {
        DnsRecordView {
            id: self.id@,
            name: self.name@,
            record_type: self.record_type@,
            content: self.content@,
            ttl: self.ttl,
            proxied: self.proxied,
        }
    }
}

/// The views of a list of records, in its order.
pub open spec fn record_views(records: Seq<DnsRecord>) -> Seq<DnsRecordView> {
    records.map_values(|r: DnsRecord| r@)
}

/// The first record of `records` that is called `name`, if there is one.
pub open spec fn lookup(records: Seq<DnsRecordView>, name: Seq<char>) -> Option<DnsRecordView>
    decreases records.len(),
{
    if records.len() == 0 {
        None
    } else if records.first().name == name {
        Some(records.first())
    } else {
        lookup(records.drop_first(), name)
    }
}

/// `lookup` finds the record at `at` where none before it has the name and
/// it has, and finds nothing where none before `at`, the length, has it.
proof fn lemma_lookup_first(records: Seq<DnsRecordView>, name: Seq<char>, at: int)
    requires
        0 <= at <= records.len(),
        forall|j: int| 0 <= j < at ==> records[j].name != name,
        at < records.len() ==> records[at].name == name,
    ensures
        lookup(records, name) == if at < records.len() {
            Some(records[at])
        } else {
            None
        },
    decreases at,
{
    if at > 0 {
        let rest = records.drop_first();
        assert forall|j: int| 0 <= j < at - 1 implies rest[j].name != name by {
            assert(rest[j] == records[j + 1]);
        }
        lemma_lookup_first(rest, name, at - 1);
    }
}

/// What `lookup` finds is a record of the list, called `name`, with no record
/// of that name before it; it finds nothing only where no record has the name.
pub proof fn lemma_lookup_is_first_match(records: Seq<DnsRecordView>, name: Seq<char>)
    ensures
        match lookup(records, name) {
            Some(found) => exists|at: int|
                0 <= at < records.len() && records[at] == found && found.name == name
                    && forall|j: int| 0 <= j < at ==> records[j].name != name,
            None => forall|j: int| 0 <= j < records.len() ==> records[j].name != name,
        },
    decreases records.len(),
{
    if records.len() > 0 && records.first().name != name {
        let rest = records.drop_first();
        lemma_lookup_is_first_match(rest, name);
        match lookup(rest, name) {
            Some(found) => {
                let at = choose|at: int|
                    0 <= at < rest.len() && rest[at] == found && found.name == name
                        && forall|j: int| 0 <= j < at ==> rest[j].name != name;
                assert forall|j: int| 0 <= j < at + 1 implies records[j].name != name by {
                    if j > 0 {
                        assert(records[j] == rest[j - 1]);
                    }
                }
                assert(records[at + 1] == found);
            },
            None => {
                assert forall|j: int| 0 <= j < records.len() implies records[j].name != name by {
                    if j > 0 {
                        assert(records[j] == rest[j - 1]);
                    }
                }
            },
        }
    } else if records.len() > 0 {
        assert(records[0] == records.first());
    }
}

/// The first record of `records` that is called `name`.
pub fn find_record<'a>(records: &'a Vec<DnsRecord>, name: &str) -> (r: Option<&'a DnsRecord>)
    ensures
        match r {
            Some(found) => lookup(record_views(records@), name@) == Some(found@),
            None => lookup(record_views(records@), name@) is None,
        },
{
    let ghost views = record_views(records@);
    let wanted: String = name.to_owned();
    let mut at: usize = 0;
    while at < records.len()
        invariant
            at <= records.len(),
            views == record_views(records@),
            wanted@ == name@,
            forall|j: int| 0 <= j < at ==> views[j].name != name@,
        decreases records.len() - at,
    {
        assert(views[at as int] == records@[at as int]@);
        if records[at].name == wanted {
            proof {
                lemma_lookup_first(views, name@, at as int);
            }
            return Some(&records[at]);
        }
        at = at + 1;
    }
    proof {
        lemma_lookup_first(views, name@, at as int);
    }
    None
}

/// The request that sets a record's content.
#[derive(Clone, Debug, PartialEq, Eq)]
pub struct UpdateRequest {
    pub id: String,
    pub record_type: DnsType,
    pub name: String,
    pub content: String,
    pub ttl: i64,
    pub proxied: bool,
}

/// What an `UpdateRequest` holds, as plain values.
pub struct UpdateRequestView {
    pub id: Seq<char>,
    pub record_type: DnsType,
    pub name: Seq<char>,
    pub content: Seq<char>,
    pub ttl: i64,
    pub proxied: bool,
}

impl View for UpdateRequest {
    type V = UpdateRequestView;

    open spec fn view(&self) -> UpdateRequestView {
        UpdateRequestView {
            id: self.id@,
            record_type: self.record_type,
            name: self.name@,
            content: self.content@,
            ttl: self.ttl,
            proxied: self.proxied,
        }
    }
}

/// The time to live that every update asks for; the provider reads 1 as
/// "automatic".
pub const UPDATE_TTL: i64 = 1;

/// The request that points the record `id`, called `name`, at `ip`: an
/// address record with the fixed time to live, not proxied.
pub open spec fn update_for(id: Seq<char>, name: Seq<char>, ip: Seq<char>) -> UpdateRequestView {
    UpdateRequestView {
        id,
        record_type: DnsType::A,
        name,
        content: ip,
        ttl: UPDATE_TTL,
        proxied: false,
    }
}

/// The request that points `record`, under the name `name`, at `ip`.
pub fn update_request(record: &DnsRecord, name: &str, ip: &str) -> (r: UpdateRequest)
    ensures
        r@ == update_for(record.id@, name@, ip@),
{
    UpdateRequest {
        id: record.id.clone(),
        record_type: DnsType::A,
        name: name.to_owned(),
        content: ip.to_owned(),
        ttl: UPDATE_TTL,
        proxied: false,
    }
}

/// The provider's answer to an update: whether it took place, and the errors
/// it reports, in the provider's order.
#[derive(Clone, Debug, PartialEq, Eq)]
pub struct UpdateOutcome {
    pub success: bool,
    pub errors: Vec<String>,
}

/// What an `UpdateOutcome` holds, as plain values.
pub struct UpdateOutcomeView {
    pub success: bool,
    pub errors: Seq<Seq<char>>,
}

impl View for UpdateOutcome {
    type V = UpdateOutcomeView;

    open spec fn view(&self) -> UpdateOutcomeView {
        UpdateOutcomeView {
            success: self.success,
            errors: self.errors@.map_values(|e: String| e@),
        }
    }
}

impl UpdateOutcomeView {
    /// The first error that the provider reported; the empty text where it
    /// reported none.
    pub open spec fn first_error(self) -> Seq<char> {
        if self.errors.len() > 0 {
            self.errors[0]
        } else {
            Seq::empty()
        }
    }
}

impl UpdateOutcome {
    /// The first error that the provider reported; the empty text where it
    /// reported none.
    pub fn first_error(&self) -> (r: &str)
        ensures
            r@ == self@.first_error(),
    {
        if self.errors.len() > 0 {
            self.errors[0].as_str()
        } else {
            proof {
                reveal_strlit("");
                assert(""@ =~= Seq::<char>::empty());
            }
            ""
        }
    }
}

/// The address under which the provider lists the records of `zone`,
/// narrowed to one kind where `kind` names one.
pub open spec fn records_uri_spec(zone: Seq<char>, kind: Option<DnsType>) -> Seq<char> {
    "https://api.cloudflare.com/client/v4/zones/"@ + zone + "/dns_records?type="@ + match kind {
        Some(k) => k.spec_name(),
        None => Seq::empty(),
    }
}

/// The address under which the provider lists the records of `zone`,
/// narrowed to one kind where `kind` names one.
pub fn records_uri(zone: &str, kind: Option<DnsType>) -> (uri: String)
    ensures
        uri@ == records_uri_spec(zone@, kind),
{
    let mut uri = String::from_str("https://api.cloudflare.com/client/v4/zones/");
    uri.append(zone);
    uri.append("/dns_records?type=");
    match kind {
        Some(k) => {
            uri.append(k.name());
        },
        None => {
            assert(uri@ + Seq::<char>::empty() =~= uri@);
        },
    }
    uri
}

/// The address under which the provider takes an update of the record `id`
/// of `zone`.
pub open spec fn update_uri_spec(zone: Seq<char>, id: Seq<char>) -> Seq<char> {
    "https://api.cloudflare.com/client/v4/zones/"@ + zone + "/dns_records/"@ + id
}

/// The address under which the provider takes an update of the record `id`
/// of `zone`.
pub fn update_uri(zone: &str, id: &str) -> (uri: String)
    ensures
        uri@ == update_uri_spec(zone@, id@),
{
    let mut uri = String::from_str("https://api.cloudflare.com/client/v4/zones/");
    uri.append(zone);
    uri.append("/dns_records/");
    uri.append(id);
    uri
}

} // verus!
