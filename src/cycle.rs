//! One reconciliation cycle: compare the resolved address with the last one
//! reconciled and, on a change, plan the registrar requests.
use vstd::prelude::*;
use crate::batch::{RegistrarRequest, RegistrarRequestView, batch_spec, requests_view, make_registrar_requests};
use crate::error::{DdnsError, RequestError};
use crate::json::json_of_text;
use crate::template::{render_spec, render_registrar_requests, is_template_error_for};
use crate::transport::ServiceResponse;

verus! {

/// The last IP address that was reconciled, if any.
#[derive(Debug)]
pub struct IpState {
    last: Option<String>,
}

impl View for IpState {
    type V = Option<Seq<char>>;

    closed spec fn view(&self) -> Option<Seq<char>> {
        match self.last {
            Some(s) => Some(s@),
            None => None,
        }
    }
}

/// Whether a resolved address differs from the stored one; no stored
/// address differs from every resolved one.
pub open spec fn changes(stored: Option<Seq<char>>, resolved: Seq<char>) -> bool {
    stored != Some(resolved)
}

/// The stored address after a cycle that resolved `resolved`.
pub open spec fn next_state(stored: Option<Seq<char>>, resolved: Seq<char>) -> Option<Seq<char>> {
    if changes(stored, resolved) { Some(resolved) } else { stored }
}

/// The stored address after cycles that resolved each of `resolved` in turn.
pub open spec fn state_after(stored: Option<Seq<char>>, resolved: Seq<Seq<char>>) -> Option<Seq<char>>
    decreases resolved.len(),
{
    if resolved.len() == 0 {
        stored
    } else {
        state_after(next_state(stored, resolved[0]), resolved.drop_first())
    }
}

proof fn lemma_state_after_constant(stored: Seq<char>, resolved: Seq<Seq<char>>)
    requires
        forall|i: int| 0 <= i < resolved.len() ==> resolved[i] == stored,
    ensures
        state_after(Some(stored), resolved) == Some(stored),
    decreases resolved.len(),
{
    if resolved.len() > 0 {
        lemma_state_after_constant(stored, resolved.drop_first());
    }
}

/// Cycles that all resolve the stored address change nothing: the state
/// stays as it was, and no cycle sees a change, so none renders, parses or
/// dispatches.
pub proof fn lemma_unchanged_cycles_idle(stored: Seq<char>, resolved: Seq<Seq<char>>)
    requires
        forall|i: int| 0 <= i < resolved.len() ==> resolved[i] == stored,
    ensures
        state_after(Some(stored), resolved) == Some(stored),
        forall|k: int| 0 <= k < resolved.len()
            ==> !changes(#[trigger] state_after(Some(stored), resolved.take(k)), resolved[k]),
{
    lemma_state_after_constant(stored, resolved);
    assert forall|k: int| 0 <= k < resolved.len()
        implies !changes(#[trigger] state_after(Some(stored), resolved.take(k)), resolved[k]) by {
        lemma_state_after_constant(stored, resolved.take(k));
    }
}

/// A new address is stored exactly once: the first cycle that resolves `b`
/// over a stored `a` sees a change and stores `b`, and every later cycle
/// that resolves `b` again sees none.
pub proof fn lemma_update_once_on_change(a: Seq<char>, b: Seq<char>, resolved: Seq<Seq<char>>)
    requires
        a != b,
        resolved.len() > 0,
        forall|i: int| 0 <= i < resolved.len() ==> resolved[i] == b,
    ensures
        changes(Some(a), b),
        next_state(Some(a), b) == Some(b),
        state_after(Some(a), resolved) == Some(b),
        forall|k: int| 1 <= k < resolved.len()
            ==> !changes(#[trigger] state_after(Some(a), resolved.take(k)), resolved[k]),
{
    lemma_state_after_constant(b, resolved.drop_first());
    assert forall|k: int| 1 <= k < resolved.len()
        implies !changes(#[trigger] state_after(Some(a), resolved.take(k)), resolved[k]) by {
        assert(resolved.take(k).drop_first() =~= resolved.drop_first().take(k - 1));
        lemma_state_after_constant(b, resolved.drop_first().take(k - 1));
    }
}

/// What the change detector decided.
#[derive(Debug)]
pub enum ChangeDecision {
    Unchanged,
    Changed(String),
}

impl IpState {
    /// The state at start-up: the seed, where one is given; an empty seed
    /// stands for none.
    pub fn from_seed(seed: &str) -> (r: IpState)
        ensures
            seed@.len() == 0 ==> r@ is None,
            seed@.len() > 0 ==> r@ == Some(seed@),
    {
        if seed.is_empty() {
            IpState { last: None }
        } else {
            IpState { last: Some(seed.to_owned()) }
        }
    }

    /// The last reconciled address.
    pub fn last(&self) -> (r: Option<&String>)
        ensures
            r is None <==> self@ is None,
            r is Some ==> Some(r->Some_0@) == self@,
    {
        match &self.last {
            Some(s) => Some(s),
            None => None,
        }
    }

    /// Compares a resolved address with the stored one, and stores it when it
    /// is new.
    pub fn detect_change(&mut self, resolved: &str) -> (r: ChangeDecision)
        ensures
            final(self)@ == next_state(old(self)@, resolved@),
            r is Unchanged <==> !changes(old(self)@, resolved@),
            r is Changed ==> r->Changed_0@ == resolved@,
    {
        let same = match &self.last {
            Some(s) => {
                let given = resolved.to_owned();
                *s == given
            },
            None => false,
        };
        if same {
            ChangeDecision::Unchanged
        } else {
            self.last = Some(resolved.to_owned());
            ChangeDecision::Changed(resolved.to_owned())
        }
    }
}

/// The requests planned for a new address: the template rendered with it,
/// parsed as a batch. `None` where any of the three steps fails.
pub open spec fn planned_requests(template: Seq<char>, ip_address: Seq<char>) -> Option<Seq<RegistrarRequestView>> {
    match render_spec(template, ip_address) {
        Some(text) => match json_of_text(text) {
            Some(j) => batch_spec(j),
            None => None,
        },
        None => None,
    }
}

/// Whether an error is the one that planning reports for this template and
/// address: the template failure, or else the parser's failure on the
/// rendered text, or else the failure of the batch's conversion.
pub open spec fn is_plan_error_for(e: DdnsError, template: Seq<char>, ip_address: Seq<char>) -> bool {
    &&& e is RequestError
    &&& match render_spec(template, ip_address) {
        None => is_template_error_for(e->RequestError_0, template, ip_address),
        Some(text) => match json_of_text(text) {
            None => e->RequestError_0 is SerdeJsonError,
            Some(_) => e->RequestError_0 is FormatError,
        },
    }
}

/// Renders the template with the new address and parses the requests.
pub fn render_and_make_registrar_requests(registrar_request_template: &str, ip_address: String) -> (r: Result<Vec<RegistrarRequest>, DdnsError>)
    ensures
        r is Ok <==> planned_requests(registrar_request_template@, ip_address@) is Some,
        r is Ok ==> requests_view(r->Ok_0@) == planned_requests(registrar_request_template@, ip_address@)->Some_0,
        r is Err ==> is_plan_error_for(r->Err_0, registrar_request_template@, ip_address@),
{
    let rendered = match render_registrar_requests(registrar_request_template, ip_address) {
        Ok(text) => text,
        Err(error) => { return Err(DdnsError::RequestError(error)); },
    };
    match make_registrar_requests(rendered.as_str()) {
        Ok(requests) => Ok(requests),
        Err(error) => Err(DdnsError::RequestError(error)),
    }
}

/// What the driver does after a cycle.
#[derive(Debug)]
pub enum CycleAction {
    /// The address is unchanged: nothing to do.
    Unchanged,
    /// The address changed: send these requests, each on its own.
    Dispatch(Vec<RegistrarRequest>),
    /// A step failed; the cycle ends here.
    Failed(DdnsError),
}

/// One cycle, from the discovery service's answer on. The state changes only
/// when a new address was resolved, and then before the requests are made.
pub fn run_cycle(state: &mut IpState, registrar_request_template: &str, resolved: Result<ServiceResponse, DdnsError>) -> (r: CycleAction)
    ensures
        resolved is Err ==> final(state)@ == old(state)@ && r == CycleAction::Failed(resolved->Err_0),
        resolved is Ok ==> {
            let ip = resolved->Ok_0.ip@;
            let plan = planned_requests(registrar_request_template@, ip);
            &&& final(state)@ == next_state(old(state)@, ip)
            &&& (r is Unchanged <==> !changes(old(state)@, ip))
            &&& (r is Dispatch <==> changes(old(state)@, ip) && plan is Some)
            &&& (r is Dispatch ==> requests_view(r->Dispatch_0@) == plan->Some_0)
            &&& (r is Failed ==> is_plan_error_for(r->Failed_0, registrar_request_template@, ip))
        },
{
    let service_response = match resolved {
        Ok(service_response) => service_response,
        Err(error) => { return CycleAction::Failed(error); },
    };
    match state.detect_change(service_response.ip.as_str()) {
        ChangeDecision::Unchanged => CycleAction::Unchanged,
        ChangeDecision::Changed(ip_address) => {
            match render_and_make_registrar_requests(registrar_request_template, ip_address) {
                Ok(requests) => CycleAction::Dispatch(requests),
                Err(error) => CycleAction::Failed(error),
            }
        },
    }
}

} // verus!
