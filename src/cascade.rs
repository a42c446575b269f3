use vstd::prelude::*;

use crate::classify::{
    classification, classify, exclusion_words, extended_keywords, extended_words, lower_of,
    primary_keywords, primary_words, Verdict,
};
use crate::text::{contains, contains_any};

verus! {

/// The device endpoints that the identification cascade probes, in cascade order.
#[derive(PartialEq, Eq, Structural, Clone, Copy, Debug)]
pub enum Endpoint {
    Shelly,
    Status,
    Settings,
    Ota,
    Meter,
}

impl Endpoint {
    /// Position of the endpoint in the cascade.
    pub open spec fn index(self) -> nat {
        match self {
            Endpoint::Shelly => 0,
            Endpoint::Status => 1,
            Endpoint::Settings => 2,
            Endpoint::Ota => 3,
            Endpoint::Meter => 4,
        }
    }

    pub open spec fn path_spec(self) -> Seq<char> {
        match self {
            Endpoint::Shelly => "/shelly"@,
            Endpoint::Status => "/status"@,
            Endpoint::Settings => "/settings"@,
            Endpoint::Ota => "/ota"@,
            Endpoint::Meter => "/meter/0"@,
        }
    }

    pub open spec fn timeout_spec(self) -> u64 {
        match self {
            Endpoint::Shelly | Endpoint::Status => 3,
            _ => 2,
        }
    }

    /// The HTTP path of the endpoint.
    pub fn path(self) -> (r: String)
        ensures
            r@ == self.path_spec(),
    {
        match self {
            Endpoint::Shelly => String::from_str("/shelly"),
            Endpoint::Status => String::from_str("/status"),
            Endpoint::Settings => String::from_str("/settings"),
            Endpoint::Ota => String::from_str("/ota"),
            Endpoint::Meter => String::from_str("/meter/0"),
        }
    }

    /// The time, in seconds, that a probe of the endpoint may take.
    pub fn timeout_secs(self) -> (r: u64)
        ensures
            r == self.timeout_spec(),
    {
        match self {
            Endpoint::Shelly | Endpoint::Status => 3,
            _ => 2,
        }
    }
}

/// The plain-HTTP address of an endpoint on a host.
pub fn probe_url(address: &str, at: Endpoint) -> (r: String)
    ensures
        r@ == "http://"@ + address@ + at.path_spec(),
{
    let mut url = String::from_str("http://");
    url.append(address);
    let path = at.path();
    url.append(path.as_str());
    url
}

/// What one HTTP probe gave: whether the request completed, whether the status
/// was a success, and the body when it could be read as text.
pub struct ProbeResult {
    pub succeeded: bool,
    pub status_ok: bool,
    pub body: Option<String>,
}

impl ProbeResult {
    /// A probe that failed at the transport level.
    pub open spec fn failed_spec() -> ProbeResult {
        ProbeResult { succeeded: false, status_ok: false, body: None }
    }

    pub fn failed() -> (r: ProbeResult)
        ensures
            r == ProbeResult::failed_spec(),
    {
        ProbeResult { succeeded: false, status_ok: false, body: None }
    }

    /// Two probe results that nobody can tell apart.
    pub open spec fn same_as(self, other: ProbeResult) -> bool {
        &&& self.succeeded == other.succeeded
        &&& self.status_ok == other.status_ok
        &&& self.body is Some <==> other.body is Some
        &&& self.body is Some ==> self.body->0@ == other.body->0@
    }
}

/// What the cascade does next: probe an endpoint, or stop with a decisive verdict.
#[derive(PartialEq, Eq, Structural, Clone, Copy, Debug)]
pub enum Step {
    Probe(Endpoint),
    Done(Verdict),
}

/// The verdict on a probe's body; a body that could not be read is inconclusive.
pub open spec fn body_verdict(r: ProbeResult, accept: Seq<Seq<char>>) -> Verdict {
    match r.body {
        Some(b) => classification(b@, accept),
        None => Verdict::Inconclusive,
    }
}

/// The confirmation endpoint after `at`, or rejection once none is left.
pub open spec fn after_confirmation(at: Endpoint) -> Step {
    match at {
        Endpoint::Settings => Step::Probe(Endpoint::Ota),
        Endpoint::Ota => Step::Probe(Endpoint::Meter),
        _ => Step::Done(Verdict::Reject),
    }
}

/// One step of the identification cascade: given the endpoint just probed and
/// what the probe gave, what comes next.
pub open spec fn step_after(at: Endpoint, r: ProbeResult) -> Step {
    match at {
        Endpoint::Shelly => {
            let v = body_verdict(r, primary_words());
            if r.succeeded && v.is_decisive() {
                Step::Done(v)
            } else {
                Step::Probe(Endpoint::Status)
            }
        },
        Endpoint::Status => {
            let v = body_verdict(r, extended_words());
            if !r.succeeded {
                Step::Done(Verdict::Reject)
            } else if v.is_decisive() {
                Step::Done(v)
            } else if r.body is None && r.status_ok {
                Step::Probe(Endpoint::Settings)
            } else {
                Step::Done(Verdict::Reject)
            }
        },
        _ => {
            let v = body_verdict(r, extended_words());
            if r.succeeded && r.status_ok && v.is_decisive() {
                Step::Done(v)
            } else {
                after_confirmation(at)
            }
        },
    }
}

/// The endpoint that the cascade probes first.
pub fn first_probe() -> (r: Endpoint)
    ensures
        r == Endpoint::Shelly,
{
    Endpoint::Shelly
}

fn body_classification(r: &ProbeResult, accept: &Vec<String>) -> (v: Verdict)
    ensures
        v == body_verdict(*r, accept.deep_view()),
{
    match &r.body {
        Some(b) => classify(b.as_str(), accept),
        None => Verdict::Inconclusive,
    }
}

/// Decides the next step of the cascade from the result of probing `at`.
pub fn next_step(at: Endpoint, r: &ProbeResult) -> (s: Step)
    ensures
        s == step_after(at, *r),
{
    match at {
        Endpoint::Shelly => {
            let v = body_classification(r, &primary_keywords());
            if r.succeeded && v != Verdict::Inconclusive {
                Step::Done(v)
            } else {
                Step::Probe(Endpoint::Status)
            }
        },
        Endpoint::Status => {
            if !r.succeeded {
                return Step::Done(Verdict::Reject);
            }
            let v = body_classification(r, &extended_keywords());
            if v != Verdict::Inconclusive {
                Step::Done(v)
            } else if r.body.is_none() && r.status_ok {
                Step::Probe(Endpoint::Settings)
            } else {
                Step::Done(Verdict::Reject)
            }
        },
        _ => {
            if r.succeeded && r.status_ok {
                let v = body_classification(r, &extended_keywords());
                if v != Verdict::Inconclusive {
                    return Step::Done(v);
                }
            }
            match at {
                Endpoint::Settings => Step::Probe(Endpoint::Ota),
                Endpoint::Ota => Step::Probe(Endpoint::Meter),
                _ => Step::Done(Verdict::Reject),
            }
        },
    }
}

/// The response that a fixed table gives for an endpoint: the entry at the
/// endpoint's position, or a transport failure where the table has none.
pub open spec fn response_for(responses: Seq<ProbeResult>, at: Endpoint) -> ProbeResult {
    if at.index() < responses.len() {
        responses[at.index() as int]
    } else {
        ProbeResult::failed_spec()
    }
}

/// The cascade run from `at` against a fixed table of responses: the final verdict
/// and how many probes were issued.
pub open spec fn run_from(at: Endpoint, responses: Seq<ProbeResult>) -> (Verdict, nat)
    decreases 5 - at.index(),
{
    match step_after(at, response_for(responses, at)) {
        Step::Done(v) => (v, 1),
        Step::Probe(next) => if at.index() < next.index() && next.index() < 5 {
            let rest = run_from(next, responses);
            (rest.0, rest.1 + 1)
        } else {
            (Verdict::Reject, 1)
        },
    }
}

/// The cascade from its first probe against a fixed table of responses.
pub open spec fn identification(responses: Seq<ProbeResult>) -> (Verdict, nat) {
    run_from(Endpoint::Shelly, responses)
}

proof fn step_moves_forward(at: Endpoint, r: ProbeResult)
    ensures
        step_after(at, r) matches Step::Probe(next) ==> at.index() < next.index() < 5,
{
}

/// Runs the identification cascade against a fixed table of responses, one entry per
/// endpoint in cascade order; returns the verdict and the number of probes issued.
pub fn identify_with(responses: &Vec<ProbeResult>) -> (r: (Verdict, usize))
    ensures
        r.0 == identification(responses@).0,
        r.1 == identification(responses@).1,
{
    let failed = ProbeResult::failed();
    let mut at = first_probe();
    let mut count: usize = 0;
    loop
        invariant
            count == at.index(),
            count < 5,
            failed == ProbeResult::failed_spec(),
            identification(responses@).0 == run_from(at, responses@).0,
            identification(responses@).1 == run_from(at, responses@).1 + count,
        decreases 5 - at.index(),
    {
        let i: usize = count;
        let r = if i < responses.len() {
            assert(responses@[i as int] == response_for(responses@, at));
            &responses[i]
        } else {
            assert(failed == response_for(responses@, at));
            &failed
        };
        proof {
            step_moves_forward(at, *r);
        }
        assert(*r == response_for(responses@, at));
        match next_step(at, r) {
            Step::Done(v) => {
                return (v, count + 1);
            },
            Step::Probe(next) => {
                at = next;
                count = count + 1;
            },
        }
    }
}

/// Fail-closed: when none of the three confirmation endpoints answers with a success
/// status, the confirmation sweep rejects, and so does every cascade that reaches it.
pub proof fn confirmation_fails_closed(responses: Seq<ProbeResult>)
    requires
        !response_for(responses, Endpoint::Settings).succeeded
            || !response_for(responses, Endpoint::Settings).status_ok,
        !response_for(responses, Endpoint::Ota).succeeded
            || !response_for(responses, Endpoint::Ota).status_ok,
        !response_for(responses, Endpoint::Meter).succeeded
            || !response_for(responses, Endpoint::Meter).status_ok,
    ensures
        run_from(Endpoint::Settings, responses).0 == Verdict::Reject,
        identification(responses).1 > 2 ==> identification(responses).0 == Verdict::Reject,
{
    assert(run_from(Endpoint::Meter, responses).0 == Verdict::Reject);
    assert(run_from(Endpoint::Ota, responses).0 == Verdict::Reject);
    assert(run_from(Endpoint::Settings, responses).0 == Verdict::Reject);
    let rs = response_for(responses, Endpoint::Status);
    match step_after(Endpoint::Status, rs) {
        Step::Done(_) => {
            assert(run_from(Endpoint::Status, responses).1 == 1);
        },
        Step::Probe(next) => {
            assert(next == Endpoint::Settings);
            assert(run_from(Endpoint::Status, responses).0 == Verdict::Reject);
        },
    }
}

/// A text from the identification endpoint that carries the brand word ends the
/// cascade after that single probe: with acceptance, unless an exclusion word
/// rejects it.
pub proof fn primary_match_stops_cascade(responses: Seq<ProbeResult>)
    requires
        response_for(responses, Endpoint::Shelly).succeeded,
        response_for(responses, Endpoint::Shelly).body is Some,
        contains(lower_of(response_for(responses, Endpoint::Shelly).body->0@), "shelly"@),
    ensures
        identification(responses).1 == 1,
        identification(responses).0 == if contains_any(
            lower_of(response_for(responses, Endpoint::Shelly).body->0@),
            exclusion_words(),
        ) {
            Verdict::Reject
        } else {
            Verdict::Accept
        },
{
    let lowered = lower_of(response_for(responses, Endpoint::Shelly).body->0@);
    assert(primary_words()[0] == "shelly"@);
    assert(contains_any(lowered, primary_words()));
}

proof fn runs_agree(at: Endpoint, a: Seq<ProbeResult>, b: Seq<ProbeResult>)
    requires
        forall|e: Endpoint| (#[trigger] response_for(a, e)).same_as(response_for(b, e)),
    ensures
        run_from(at, a) == run_from(at, b),
    decreases 5 - at.index(),
{
    let ra = response_for(a, at);
    let rb = response_for(b, at);
    assert(ra.same_as(rb));
    assert(step_after(at, ra) == step_after(at, rb));
    match step_after(at, ra) {
        Step::Done(_) => {},
        Step::Probe(next) => {
            if at.index() < next.index() && next.index() < 5 {
                runs_agree(next, a, b);
            }
        },
    }
}

/// The cascade keeps no state of its own: against responses that cannot be told
/// apart it reaches the same verdict with the same number of probes.
pub proof fn identification_is_deterministic(a: Seq<ProbeResult>, b: Seq<ProbeResult>)
    requires
        forall|e: Endpoint| (#[trigger] response_for(a, e)).same_as(response_for(b, e)),
    ensures
        identification(a) == identification(b),
{
    runs_agree(Endpoint::Shelly, a, b);
}

} // verus!
