//! The fetch negotiator: a bounded cross-product of 3 endpoint URL forms and
//! 4 authentication header forms, tried in a fixed priority order, at most 12
//! sequential attempts. The first attempt with an HTTP success status and a
//! JSON body is accepted immediately; every other attempt records a "last
//! error" and the next combination is tried; exhaustion fails with the most
//! recent error.
//!
//! The machine here decides; the surrounding shell performs each HTTP
//! request and reports its outcome back.

use vstd::prelude::*;
use vstd::string::StringExecFns;
use crate::json::{JsonValue, json_tree_of, parse_json};
use crate::normalize::{normalized_panel_spec, parse_native_payload};
use crate::panel::{NativeUsagePanel, PanelV};
use crate::text::{dec_nat, u64_to_dec};

verus! {

/// Endpoints crossed with header forms.
pub const NEGOTIATION_ATTEMPTS: usize = 12;

/// One planned attempt: the URL to request and the single authentication
/// header to send.
#[derive(Debug)]
pub struct AttemptPlan {
    pub url: String,
    pub header_name: String,
    pub header_value: String,
}

pub struct PlanV {
    pub url: Seq<char>,
    pub header_name: Seq<char>,
    pub header_value: Seq<char>,
}

impl View for AttemptPlan {
    type V = PlanV;

    open spec fn view(&self) -> PlanV {
        PlanV { url: self.url@, header_name: self.header_name@, header_value: self.header_value@ }
    }
}

/// Endpoint priority: range as `range=`, range as `period=`, no parameter.
pub open spec fn endpoint_spec(effective_range: Seq<char>, j: int) -> Seq<char> {
    if j == 0 {
        "http://127.0.0.1:8318/v0/management/usage?range="@ + effective_range
    } else if j == 1 {
        "http://127.0.0.1:8318/v0/management/usage?period="@ + effective_range
    } else {
        "http://127.0.0.1:8318/v0/management/usage"@
    }
}

/// Header priority: bearer authorization, then three custom secret headers
/// carrying the raw key.
pub open spec fn auth_header_spec(key: Seq<char>, k: int) -> (Seq<char>, Seq<char>) {
    if k == 0 {
        ("authorization"@, "Bearer "@ + key)
    } else if k == 1 {
        ("x-management-secret"@, key)
    } else if k == 2 {
        ("x-secret-key"@, key)
    } else {
        ("x-api-key"@, key)
    }
}

/// The i-th attempt of the cross-product: outer loop over endpoints, inner
/// loop over header forms.
pub open spec fn attempt_plan_spec(key: Seq<char>, effective_range: Seq<char>, i: int) -> PlanV {
    PlanV {
        url: endpoint_spec(effective_range, i / 4),
        header_name: auth_header_spec(key, i % 4).0,
        header_value: auth_header_spec(key, i % 4).1,
    }
}

/// Negotiation state: the key and range fixed at the start, the index of the
/// next attempt, and the most recent recorded error.
#[derive(Debug)]
pub struct Negotiation {
    pub key: String,
    pub effective_range: String,
    pub next_index: usize,
    pub last_error: String,
}

pub struct NegotiationV {
    pub key: Seq<char>,
    pub effective_range: Seq<char>,
    pub next_index: int,
    pub last_error: Seq<char>,
}

impl View for Negotiation {
    type V = NegotiationV;

    open spec fn view(&self) -> NegotiationV {
        NegotiationV {
            key: self.key@,
            effective_range: self.effective_range@,
            next_index: self.next_index as int,
            last_error: self.last_error@,
        }
    }
}

/// What one recorded attempt leaves behind: the next combination is up and
/// the error is remembered.
pub open spec fn fail_advance(n: NegotiationV, err: Seq<char>) -> NegotiationV {
    NegotiationV { next_index: n.next_index + 1, last_error: err, ..n }
}

pub enum NegotiationStep {
    /// An attempt succeeded: its normalized panel, all remaining attempts
    /// are skipped.
    Accepted(NativeUsagePanel),
    /// The attempt failed; combinations remain.
    Retry,
    /// All combinations failed; the most recent error.
    Exhausted(String),
}

pub enum StepV {
    Accepted(PanelV),
    Retry,
    Exhausted(Seq<char>),
}

impl View for NegotiationStep {
    type V = StepV;

    open spec fn view(&self) -> StepV {
        match self {
            NegotiationStep::Accepted(p) => StepV::Accepted(p@),
            NegotiationStep::Retry => StepV::Retry,
            NegotiationStep::Exhausted(e) => StepV::Exhausted(e@),
        }
    }
}

pub open spec fn no_response_error() -> Seq<char> {
    "No response from native usage endpoint"@
}

pub fn negotiation_start(key: String, effective_range: String) -> (n: Negotiation)
    ensures
        n@ == (NegotiationV {
            key: key@,
            effective_range: effective_range@,
            next_index: 0,
            last_error: no_response_error(),
        }),
{
    Negotiation {
        key,
        effective_range,
        next_index: 0,
        last_error: String::from_str("No response from native usage endpoint"),
    }
}

impl Negotiation {
    /// Whether a combination remains to try.
    pub fn attempts_remaining(&self) -> (b: bool)
        ensures
            b == (self@.next_index < NEGOTIATION_ATTEMPTS),
    {
        self.next_index < NEGOTIATION_ATTEMPTS
    }

    /// The URL and authentication header of the attempt that is up next.
    pub fn current_plan(&self) -> (p: AttemptPlan)
        requires
            self@.next_index < NEGOTIATION_ATTEMPTS,
        ensures
            p@ == attempt_plan_spec(self@.key, self@.effective_range, self@.next_index),
    {
        let j = self.next_index / 4;
        let k = self.next_index % 4;
        let url = if j == 0 {
            String::from_str("http://127.0.0.1:8318/v0/management/usage?range=").concat(
                self.effective_range.as_str(),
            )
        } else if j == 1 {
            String::from_str("http://127.0.0.1:8318/v0/management/usage?period=").concat(
                self.effective_range.as_str(),
            )
        } else {
            String::from_str("http://127.0.0.1:8318/v0/management/usage")
        };
        let (header_name, header_value) = if k == 0 {
            (
                String::from_str("authorization"),
                String::from_str("Bearer ").concat(self.key.as_str()),
            )
        } else if k == 1 {
            (String::from_str("x-management-secret"), self.key.clone())
        } else if k == 2 {
            (String::from_str("x-secret-key"), self.key.clone())
        } else {
            (String::from_str("x-api-key"), self.key.clone())
        };
        AttemptPlan { url, header_name, header_value }
    }

    /// The step after a failed attempt: retry while combinations remain,
    /// otherwise fail with the error just recorded.
    fn advance_with_error(&mut self, err: String) -> (step: NegotiationStep)
        requires
            old(self)@.next_index < NEGOTIATION_ATTEMPTS,
        ensures
            final(self)@ == fail_advance(old(self)@, err@),
            step@ == (if old(self)@.next_index + 1 < NEGOTIATION_ATTEMPTS {
                StepV::Retry
            } else {
                StepV::Exhausted(err@)
            }),
    {
        self.last_error = err;
        self.next_index = self.next_index + 1;
        if self.next_index < NEGOTIATION_ATTEMPTS {
            NegotiationStep::Retry
        } else {
            NegotiationStep::Exhausted(self.last_error.clone())
        }
    }

    /// Records a connect/timeout/transport failure of the current attempt.
    pub fn record_transport_failure(&mut self, detail: &str) -> (step: NegotiationStep)
        requires
            old(self)@.next_index < NEGOTIATION_ATTEMPTS,
        ensures
            ({
                let err = attempt_plan_spec(old(self)@.key, old(self)@.effective_range, old(self)@.next_index).url
                    + " request failed: "@ + detail@;
                &&& final(self)@ == fail_advance(old(self)@, err)
                &&& step@ == (if old(self)@.next_index + 1 < NEGOTIATION_ATTEMPTS {
                    StepV::Retry
                } else {
                    StepV::Exhausted(err)
                })
            }),
    {
        let plan = self.current_plan();
        let mut err = plan.url;
        err.append(" request failed: ");
        err.append(detail);
        self.advance_with_error(err)
    }

    /// Records a non-success HTTP status of the current attempt.
    pub fn record_http_status(&mut self, code: u16) -> (step: NegotiationStep)
        requires
            old(self)@.next_index < NEGOTIATION_ATTEMPTS,
        ensures
            ({
                let err = attempt_plan_spec(old(self)@.key, old(self)@.effective_range, old(self)@.next_index).url
                    + " returned HTTP "@ + dec_nat(code as int);
                &&& final(self)@ == fail_advance(old(self)@, err)
                &&& step@ == (if old(self)@.next_index + 1 < NEGOTIATION_ATTEMPTS {
                    StepV::Retry
                } else {
                    StepV::Exhausted(err)
                })
            }),
    {
        let plan = self.current_plan();
        let mut err = plan.url;
        err.append(" returned HTTP ");
        let rendered = u64_to_dec(code as u64);
        err.append(rendered.as_str());
        self.advance_with_error(err)
    }

    /// Accepts the body of an attempt with a success status: a parseable
    /// body short-circuits the negotiation with its normalized panel; an
    /// unparseable one is recorded and the next combination is tried.
    pub fn record_success_body(&mut self, body: &str, now_iso: String) -> (step: NegotiationStep)
        requires
            old(self)@.next_index < NEGOTIATION_ATTEMPTS,
        ensures
            match json_tree_of(body@) {
                Some(t) => {
                    &&& *final(self) == *old(self)
                    &&& step@ == StepV::Accepted(normalized_panel_spec(t, old(self)@.effective_range, now_iso@))
                },
                None => {
                    &&& exists|detail: Seq<char>|
                        final(self)@ == fail_advance(
                            old(self)@,
                            "Failed to parse native usage response JSON: "@ + detail,
                        )
                    &&& step@ == (if old(self)@.next_index + 1 < NEGOTIATION_ATTEMPTS {
                        StepV::Retry
                    } else {
                        StepV::Exhausted(final(self)@.last_error)
                    })
                },
            },
    {
        match parse_json(body) {
            Ok(tree) => {
                let panel = parse_native_payload(&tree, self.effective_range.as_str(), now_iso);
                NegotiationStep::Accepted(panel)
            },
            Err(detail) => {
                let mut err = String::from_str("Failed to parse native usage response JSON: ");
                err.append(detail.as_str());
                let ghost d = detail@;
                let step = self.advance_with_error(err);
                proof {
                    assert(final(self)@ == fail_advance(
                        old(self)@,
                        "Failed to parse native usage response JSON: "@ + d,
                    ));
                }
                step
            },
        }
    }
}

/// The failure message when reading a success response's body fails; this
/// aborts the whole negotiation.
pub fn body_read_failure_message(detail: &str) -> (m: String)
    ensures
        m@ == "Failed to read native usage response body: "@ + detail@,
{
    let mut m = String::from_str("Failed to read native usage response body: ");
    m.append(detail);
    m
}

/// The failure message when the key provider fails; this aborts the whole
/// negotiation before any attempt.
pub fn key_failure_message(detail: &str) -> (m: String)
    ensures
        m@ == "Failed to load managed management key: "@ + detail@,
{
    let mut m = String::from_str("Failed to load managed management key: ");
    m.append(detail);
    m
}

/// An HTTP status is a success exactly when it lies in the 2xx class.
pub fn http_status_is_success(code: u16) -> (b: bool)
    ensures
        b == (200 <= code < 300),
{
    200 <= code && code < 300
}

/// The state after a run of recorded failures, each leaving its error text.
pub open spec fn after_failures(n: NegotiationV, errs: Seq<Seq<char>>) -> NegotiationV
    decreases errs.len(),
{
    if errs.len() == 0 {
        n
    } else {
        fail_advance(after_failures(n, errs.drop_last()), errs.last())
    }
}

/// Negotiation short-circuit: from a fresh state, a run of recorded
/// failures leaves the machine at exactly that attempt index with the most
/// recent error remembered and the key and range untouched. Together with
/// `record_success_body`'s contract — a success is accepted immediately,
/// with no state change — this pins the attempt count: when the first
/// success comes at some attempt, exactly that many attempts were made.
pub proof fn lemma_negotiation_short_circuit(n: NegotiationV, errs: Seq<Seq<char>>)
    requires
        n.next_index == 0,
        errs.len() <= NEGOTIATION_ATTEMPTS,
    ensures
        after_failures(n, errs).next_index == errs.len(),
        after_failures(n, errs).key == n.key,
        after_failures(n, errs).effective_range == n.effective_range,
        after_failures(n, errs).last_error == (if errs.len() == 0 {
            n.last_error
        } else {
            errs.last()
        }),
    decreases errs.len(),
{
    if errs.len() > 0 {
        lemma_negotiation_short_circuit(n, errs.drop_last());
        if errs.len() == 1 {
            assert(errs.drop_last().len() == 0);
        }
    }
}

} // verus!
