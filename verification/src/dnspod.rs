//! The stateful reconciliation engine.
//!
//! The cache holds at most one record identity per address family, and only
//! values the provider has confirmed.  One cycle is two steps: `plan_update`
//! classifies the observed address and decides the single remote call the
//! cycle may issue, and `commit_modify` / `commit_create` fold that call's
//! outcome back into the cache.  A modify rejected with the distinguished
//! stale-identity code asks the caller for one full refresh
//! (`apply_refresh` over a fresh listing) and reports the cycle as a
//! recoverable failure; the write is never retried within the same cycle.

use vstd::prelude::*;
use vstd::string::StringExecFns;

use crate::error::DdnsError;
use crate::ip::classify_ip;
use crate::ip::is_ipv4_text;
use crate::ip::is_ipv6_text;
use crate::ip::IpFamily;
use crate::text::str_eq;

verus! {

/// A record as the provider lists it: identifier, value, and type text.
#[derive(Debug)]
pub struct ApiRecord {
    pub id: u64,
    pub value: String,
    pub record_type: String,
}

impl Clone for ApiRecord {
    fn clone(&self) -> (r: Self)
        ensures
            r == *self,
    {
        ApiRecord { id: self.id, value: self.value.clone(), record_type: self.record_type.clone() }
    }
}

/// The record the provider reports after a create: assigned identifier,
/// name, and status text.
#[derive(Debug)]
pub struct CreatedRecord {
    pub id: u64,
    pub name: String,
    pub status: String,
}

/// The record object of the combined update endpoint's response; only the
/// confirmed value is read from it.
#[derive(Debug)]
pub struct Record {
    pub value: String,
}

/// Cached identity and last confirmed value of one provider record.
#[derive(Debug)]
pub struct RecordState {
    pub id: u64,
    pub ip: String,
}

impl Clone for RecordState {
    fn clone(&self) -> (r: Self)
        ensures
            r == *self,
    {
        RecordState { id: self.id, ip: self.ip.clone() }
    }
}

/// The reconciliation cache: at most one tracked record per address family.
/// An empty slot means no record of that family is known to exist.
#[derive(Debug)]
pub struct DdnsState {
    pub a: Option<RecordState>,
    pub aaaa: Option<RecordState>,
}

/// The provider status code that means success.
pub open spec fn success_code() -> Seq<char> {
    "1"@
}

/// The provider status code that means no records exist in this scope; a
/// legitimate state, not an error.
pub open spec fn empty_code() -> Seq<char> {
    "10"@
}

/// The provider status code that means the record identifier no longer
/// refers to a record; it triggers the recovery protocol.
pub open spec fn stale_code() -> Seq<char> {
    "8"@
}

/// Whether an error is the provider's stale-identity rejection.
pub open spec fn is_stale_error(e: DdnsError) -> bool {
    match e {
        DdnsError::Api { code, message } => code@ == stale_code(),
        _ => false,
    }
}

/// The cached slot of one address family.
pub open spec fn slot_of(s: DdnsState, family: IpFamily) -> Option<RecordState> {
    match family {
        IpFamily::V4 => s.a,
        IpFamily::V6 => s.aaaa,
    }
}

pub open spec fn other_family(family: IpFamily) -> IpFamily {
    match family {
        IpFamily::V4 => IpFamily::V6,
        IpFamily::V6 => IpFamily::V4,
    }
}

/// The family of an observed address text, when it has one.
pub open spec fn spec_classify(ip: Seq<char>) -> Option<IpFamily> {
    if is_ipv4_text(ip) {
        Some(IpFamily::V4)
    } else if is_ipv6_text(ip) {
        Some(IpFamily::V6)
    } else {
        None
    }
}

/// The remote call one cycle issues, decided from the cached slot.
#[derive(Clone, Copy, Debug, PartialEq, Eq, Structural)]
pub enum PlannedCall {
    /// The cache already holds the observed value: no call.
    NoRemoteCall,
    /// The cache tracks this record with another value: modify it.
    ModifyCall { record_id: u64 },
    /// Nothing is tracked: create a record.
    CreateCall,
}

/// What one cycle decided: the address family and the single remote call.
#[derive(Clone, Copy, Debug, PartialEq, Eq, Structural)]
pub struct UpdatePlan {
    pub family: IpFamily,
    pub call: PlannedCall,
}

/// How a completed cycle left the record.
#[derive(Clone, Copy, Debug, PartialEq, Eq, Structural)]
pub enum UpdateOutcome {
    Unchanged,
    Updated,
    Created,
}

/// What committing a modify outcome asks of the caller.
#[derive(Debug)]
pub enum ModifyCommit {
    /// The provider confirmed the write; the cache now holds the new value.
    Applied,
    /// The provider no longer knows the tracked identifier: the caller must
    /// run one full refresh and report the cycle as a recoverable failure.
    StaleIdentity,
    /// Any other failure, propagated with the cache untouched.
    Failed(DdnsError),
}

/// The call a cycle plans for one slot and one observed address.
pub open spec fn spec_decide(slot: Option<RecordState>, ip: Seq<char>) -> PlannedCall {
    match slot {
        Some(rs) => if rs.ip@ == ip {
            PlannedCall::NoRemoteCall
        } else {
            PlannedCall::ModifyCall { record_id: rs.id }
        },
        None => PlannedCall::CreateCall,
    }
}

/// Whether the provider's type text names this family, matched
/// case-insensitively: `A` for IPv4 and `AAAA` for IPv6.
pub open spec fn is_a_char(c: char) -> bool {
    c == 'A' || c == 'a'
}

pub open spec fn is_type_text(t: Seq<char>, family: IpFamily) -> bool {
    match family {
        IpFamily::V4 => t.len() == 1 && is_a_char(t[0]),
        IpFamily::V6 => t.len() == 4 && is_a_char(t[0]) && is_a_char(t[1]) && is_a_char(t[2])
            && is_a_char(t[3]),
    }
}

/// The slot a refresh rebuilds for one family: the last listed record of
/// that type wins.
pub open spec fn spec_refresh_slot(records: Seq<ApiRecord>, family: IpFamily) -> Option<
    RecordState,
>
    decreases records.len(),
{
    if records.len() == 0 {
        None
    } else if is_type_text(records.last().record_type@, family) {
        Some(RecordState { id: records.last().id, ip: records.last().value })
    } else {
        spec_refresh_slot(records.drop_last(), family)
    }
}

/// Checks whether a type text names this family.
fn type_text_matches(t: &str, family: IpFamily) -> (r: bool)
    ensures
        r == is_type_text(t@, family),
{
    let cs = crate::text::chars_of(t);
    match family {
        IpFamily::V4 => cs.len() == 1 && (cs[0] == 'A' || cs[0] == 'a'),
        IpFamily::V6 => cs.len() == 4 && (cs[0] == 'A' || cs[0] == 'a') && (cs[1] == 'A' || cs[1]
            == 'a') && (cs[2] == 'A' || cs[2] == 'a') && (cs[3] == 'A' || cs[3] == 'a'),
    }
}

impl Default for DdnsState {
    /// An empty cache, as at client construction.
    fn default() -> (s: Self)
        ensures
            s.a is None,
            s.aaaa is None,
    {
        DdnsState { a: None, aaaa: None }
    }
}

impl DdnsState {
    /// An empty cache: both families untracked.
    pub fn new() -> (s: Self)
        ensures
            s.a is None,
            s.aaaa is None,
    {
        DdnsState { a: None, aaaa: None }
    }

    /// Decides one cycle: classifies the observed address text and plans the
    /// single remote call the cycle may issue.  Text that is neither IPv4
    /// nor IPv6 is rejected locally, with no remote call planned.
    pub fn plan_update(&self, current_ip: &str) -> (r: Result<UpdatePlan, DdnsError>)
        ensures
            spec_classify(current_ip@) is None ==> (r matches Err(DdnsError::InvalidIpFormat(t))
                && t@ == current_ip@),
            spec_classify(current_ip@) matches Some(family) ==> (r matches Ok(plan)
                && plan.family == family && plan.call == spec_decide(
                slot_of(*self, family),
                current_ip@,
            )),
    {
        match classify_ip(current_ip) {
            None => Err(DdnsError::InvalidIpFormat(current_ip.to_owned())),
            Some(family) => {
                let slot = match family {
                    IpFamily::V4 => &self.a,
                    IpFamily::V6 => &self.aaaa,
                };
                let call = match slot {
                    Some(rs) => {
                        if str_eq(rs.ip.as_str(), current_ip) {
                            PlannedCall::NoRemoteCall
                        } else {
                            PlannedCall::ModifyCall { record_id: rs.id }
                        }
                    },
                    None => PlannedCall::CreateCall,
                };
                Ok(UpdatePlan { family, call })
            },
        }
    }

    /// Folds the outcome of this cycle's modify call into the cache.  Only a
    /// confirmed write changes the cached value; the stale-identity code is
    /// turned into a refresh request; any other failure leaves the cache
    /// exactly as it was.
    pub fn commit_modify(
        &mut self,
        family: IpFamily,
        current_ip: &str,
        outcome: Result<ApiRecord, DdnsError>,
    ) -> (r: ModifyCommit)
        requires
            slot_of(*old(self), family) is Some,
        ensures
            (match outcome {
                Ok(_) => r matches ModifyCommit::Applied && (slot_of(*final(self), family)
                    matches Some(rs2) && (slot_of(*old(self), family) matches Some(rs1)
                    && rs2.id == rs1.id && rs2.ip@ == current_ip@)),
                Err(e) => if is_stale_error(e) {
                    r matches ModifyCommit::StaleIdentity && *final(self) == *old(self)
                } else {
                    r matches ModifyCommit::Failed(e2) && e2 == e && *final(self) == *old(self)
                },
            }),
            slot_of(*final(self), other_family(family)) == slot_of(*old(self), other_family(family)),
    {
        match outcome {
            Ok(_confirmed) => {
                match family {
                    IpFamily::V4 => {
                        match &mut self.a {
                            Some(rs) => {
                                rs.ip = current_ip.to_owned();
                            },
                            None => {
                                proof {
                                    assert(false);
                                }
                            },
                        }
                    },
                    IpFamily::V6 => {
                        match &mut self.aaaa {
                            Some(rs) => {
                                rs.ip = current_ip.to_owned();
                            },
                            None => {
                                proof {
                                    assert(false);
                                }
                            },
                        }
                    },
                }
                ModifyCommit::Applied
            },
            Err(e) => {
                let stale = match &e {
                    DdnsError::Api { code, message: _ } => str_eq(code.as_str(), "8"),
                    _ => false,
                };
                if stale {
                    ModifyCommit::StaleIdentity
                } else {
                    ModifyCommit::Failed(e)
                }
            },
        }
    }

    /// Folds the outcome of this cycle's create call into the cache: a
    /// confirmed create installs the assigned identifier and the observed
    /// value; a failure is propagated and the family stays untracked.
    pub fn commit_create(
        &mut self,
        family: IpFamily,
        current_ip: &str,
        outcome: Result<CreatedRecord, DdnsError>,
    ) -> (r: Result<UpdateOutcome, DdnsError>)
        ensures
            (match outcome {
                Ok(rec) => r == Ok::<UpdateOutcome, DdnsError>(UpdateOutcome::Created) && (slot_of(
                    *final(self),
                    family,
                ) matches Some(rs) && rs.id == rec.id && rs.ip@ == current_ip@),
                Err(e) => r matches Err(e2) && e2 == e && *final(self) == *old(self),
            }),
            slot_of(*final(self), other_family(family)) == slot_of(*old(self), other_family(family)),
    {
        match outcome {
            Ok(rec) => {
                let rs = RecordState { id: rec.id, ip: current_ip.to_owned() };
                match family {
                    IpFamily::V4 => {
                        self.a = Some(rs);
                    },
                    IpFamily::V6 => {
                        self.aaaa = Some(rs);
                    },
                }
                Ok(UpdateOutcome::Created)
            },
            Err(e) => Err(e),
        }
    }

    /// Discards the cache and rebuilds it from a full listing: for each
    /// family, the last listed record of that type wins.
    pub fn apply_refresh(&mut self, records: &Vec<ApiRecord>)
        ensures
            final(self).a == spec_refresh_slot(records@, IpFamily::V4),
            final(self).aaaa == spec_refresh_slot(records@, IpFamily::V6),
    {
        self.a = None;
        self.aaaa = None;
        let mut i: usize = 0;
        while i < records.len()
            invariant
                i <= records@.len(),
                self.a == spec_refresh_slot(records@.take(i as int), IpFamily::V4),
                self.aaaa == spec_refresh_slot(records@.take(i as int), IpFamily::V6),
            decreases records@.len() - i,
        {
            let rec = &records[i];
            proof {
                assert(records@.take(i + 1).drop_last() =~= records@.take(i as int));
                assert(records@.take(i + 1).last() == records@[i as int]);
            }
            if type_text_matches(rec.record_type.as_str(), IpFamily::V4) {
                self.a = Some(RecordState { id: rec.id, ip: rec.value.clone() });
            } else if type_text_matches(rec.record_type.as_str(), IpFamily::V6) {
                self.aaaa = Some(RecordState { id: rec.id, ip: rec.value.clone() });
            }
            i = i + 1;
        }
        proof {
            assert(records@.take(i as int) =~= records@);
        }
    }
}

/// Interprets the listing response: success yields the listed records, the
/// distinguished "no records" code yields an empty listing (not an error),
/// and any other status is a provider error carrying its code and message.
pub fn interpret_list(
    status_code: String,
    status_message: String,
    records: Option<Vec<ApiRecord>>,
) -> (r: Result<Vec<ApiRecord>, DdnsError>)
    ensures
        status_code@ == success_code() ==> (r matches Ok(v) && v@ == (match records {
            Some(given) => given@,
            None => Seq::<ApiRecord>::empty(),
        })),
        status_code@ != success_code() && status_code@ == empty_code() ==> (r matches Ok(v)
            && v@.len() == 0),
        status_code@ != success_code() && status_code@ != empty_code() ==> (r matches Err(
            DdnsError::Api { code, message },
        ) && code@ == status_code@ && message@ == status_message@),
{
    if str_eq(status_code.as_str(), "1") {
        match records {
            Some(given) => Ok(given),
            None => Ok(Vec::new()),
        }
    } else if str_eq(status_code.as_str(), "10") {
        Ok(Vec::new())
    } else {
        Err(DdnsError::Api { code: status_code, message: status_message })
    }
}

/// Interprets the modify response: a success status must carry the record
/// object back (a success without one is a decode failure that keeps the
/// raw body); any other status is a provider error, whose code the caller
/// inspects for the stale-identity protocol.
pub fn interpret_modify(
    status_code: String,
    status_message: String,
    record: Option<ApiRecord>,
    raw_body: String,
) -> (r: Result<ApiRecord, DdnsError>)
    ensures
        status_code@ == success_code() ==> (match record {
            Some(m) => r matches Ok(got) && got == m,
            None => r matches Err(DdnsError::ApiResponseDecode { body }) && body@ == raw_body@,
        }),
        status_code@ != success_code() ==> (r matches Err(DdnsError::Api { code, message })
            && code@ == status_code@ && message@ == status_message@),
{
    if str_eq(status_code.as_str(), "1") {
        match record {
            Some(m) => Ok(m),
            None => Err(DdnsError::ApiResponseDecode { body: raw_body }),
        }
    } else {
        Err(DdnsError::Api { code: status_code, message: status_message })
    }
}

/// Interprets the create response, exactly as `interpret_modify` but for
/// the created record object.
pub fn interpret_create(
    status_code: String,
    status_message: String,
    record: Option<CreatedRecord>,
    raw_body: String,
) -> (r: Result<CreatedRecord, DdnsError>)
    ensures
        status_code@ == success_code() ==> (match record {
            Some(m) => r matches Ok(got) && got == m,
            None => r matches Err(DdnsError::ApiResponseDecode { body }) && body@ == raw_body@,
        }),
        status_code@ != success_code() ==> (r matches Err(DdnsError::Api { code, message })
            && code@ == status_code@ && message@ == status_message@),
{
    if str_eq(status_code.as_str(), "1") {
        match record {
            Some(m) => Ok(m),
            None => Err(DdnsError::ApiResponseDecode { body: raw_body }),
        }
    } else {
        Err(DdnsError::Api { code: status_code, message: status_message })
    }
}

/// Interprets the combined update endpoint's response: on success the
/// provider's confirmed value, with `N/A` standing in when no record object
/// came back.
pub fn interpret_ddns(status_code: String, status_message: String, record: Option<Record>) -> (r:
    Result<String, DdnsError>)
    ensures
        status_code@ == success_code() ==> (r matches Ok(v) && v@ == (match record {
            Some(rec) => rec.value@,
            None => "N/A"@,
        })),
        status_code@ != success_code() ==> (r matches Err(DdnsError::Api { code, message })
            && code@ == status_code@ && message@ == status_message@),
{
    if str_eq(status_code.as_str(), "1") {
        match record {
            Some(rec) => Ok(rec.value),
            None => Ok(String::from_str("N/A")),
        }
    } else {
        Err(DdnsError::Api { code: status_code, message: status_message })
    }
}

/// The error a cycle reports after a stale identity was detected and the
/// cache refreshed: the next scheduled cycle retries with corrected state.
pub fn stale_recovery_error() -> (e: DdnsError)
    ensures
        is_stale_error(e),
        e matches DdnsError::Api { code, message } && code@ == stale_code() && message@
            == "State refreshed after Record ID error. The next cycle will retry."@,
{
    DdnsError::Api {
        code: String::from_str("8"),
        message: String::from_str(
            "State refreshed after Record ID error. The next cycle will retry.",
        ),
    }
}

/// Law: when a family tracks one address and a different valid IPv4 address
/// is observed, the cycle plans exactly one remote call, a modify of the
/// tracked record.  In particular, a cycle that tracked `ip1` followed by a
/// cycle observing `ip2 != ip1` issues exactly one modify on the second
/// cycle.
pub proof fn lemma_changed_ip_plans_modify(
    state: DdnsState,
    rs: RecordState,
    ip1: Seq<char>,
    ip2: Seq<char>,
)
    requires
        is_ipv4_text(ip1),
        is_ipv4_text(ip2),
        ip1 != ip2,
        slot_of(state, IpFamily::V4) == Some(rs),
        rs.ip@ == ip1,
    ensures
        spec_classify(ip2) == Some(IpFamily::V4),
        spec_decide(slot_of(state, IpFamily::V4), ip2) == (PlannedCall::ModifyCall {
            record_id: rs.id,
        }),
{
}

/// Law (idempotence): when the cached value of a family already equals the
/// observed address, the cycle plans no remote call.  Since a successful
/// write commits the observed value to the cache, two consecutive cycles
/// observing the same address issue at most one write in total.
pub proof fn lemma_same_ip_plans_no_call(
    state: DdnsState,
    family: IpFamily,
    rs: RecordState,
    ip: Seq<char>,
)
    requires
        slot_of(state, family) == Some(rs),
        rs.ip@ == ip,
    ensures
        (spec_decide(slot_of(state, family), ip) == PlannedCall::NoRemoteCall),
{
}

/// Law (stale-identity recovery): a tracked family observing a changed
/// address plans one modify; when the provider answers it with the
/// stale-identity code, the commit asks for exactly one refresh, and the
/// reported error is the recoverable stale error.  The cache is left
/// untouched for the refresh to rebuild, and the write is not retried
/// within the cycle.
pub proof fn lemma_stale_identity_recovery(
    state: DdnsState,
    family: IpFamily,
    rs: RecordState,
    ip: Seq<char>,
    e: DdnsError,
)
    requires
        slot_of(state, family) == Some(rs),
        rs.ip@ != ip,
        (e matches DdnsError::Api { code, message } && code@ == stale_code()),
    ensures
        spec_decide(slot_of(state, family), ip) == (PlannedCall::ModifyCall { record_id: rs.id }),
        is_stale_error(e),
{
}

/// Law (untracked-to-tracked): an untracked family plans exactly one create
/// call; committing its success installs the assigned identifier and the
/// observed value, as `commit_create` ensures.
pub proof fn lemma_untracked_plans_create(state: DdnsState, family: IpFamily, ip: Seq<char>)
    requires
        (slot_of(state, family) is None),
    ensures
        (spec_decide(slot_of(state, family), ip) == PlannedCall::CreateCall),
{
}

/// Law: refreshing from an empty listing, as the distinguished "no records"
/// status yields, leaves both families untracked.
pub proof fn lemma_empty_refresh_untracks(records: Seq<ApiRecord>)
    requires
        records.len() == 0,
    ensures
        (spec_refresh_slot(records, IpFamily::V4) is None),
        (spec_refresh_slot(records, IpFamily::V6) is None),
{
}

} // verus!
