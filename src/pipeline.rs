//! The run as a state machine. Each state names the exchange that comes next
//! and holds what it needs; the caller performs the exchange and hands back
//! its outcome. The states follow each other in a fixed line, and the first
//! failure ends the run.
use vstd::prelude::*;

use crate::config::Config;
use crate::context::RunContext;
use crate::headers::with_header;
use crate::json::str_field;
use crate::request::{is_request, sent_headers, Method, PipelineError, Request, Response};
use crate::stages::{
    application_body, application_result, authorize_body, authorize_buyer, authorize_buyer_reply,
    bearer_headers, buyer_body, buyer_result, contact_body, create_application,
    create_application_reply, create_buyer, create_buyer_reply, no_headers, required,
    send_code, send_code_body, send_code_reply, summary_text, update_buyer_contact,
    version_headers, ApplicationRecord, BuyerRecord,
};

verus! {

/// The five exchanges, in the order they are made.
#[derive(PartialEq, Eq, Structural, Clone, Copy, Debug)]
pub enum Step {
    SendCode,
    AuthorizeBuyer,
    CreateBuyer,
    UpdateContact,
    CreateApplication,
}

pub enum Stage {
    /// The code request comes next.
    SendCode,
    /// The code has been requested; the authorization comes next.
    AuthorizeBuyer { reference_id: String },
    /// Authorized; the buyer creation comes next.
    CreateBuyer { anonymous_token: String },
    /// The buyer exists; the contact update comes next.
    UpdateContact { buyer: BuyerRecord },
    /// The contact is updated; the application comes next.
    CreateApplication { buyer: BuyerRecord },
    /// The application exists; the run is over.
    Done { application: ApplicationRecord },
    /// The exchange `step` failed with `error`; the run is over.
    Failed { step: Step, error: PipelineError },
}

/// The mathematical view of a stage.
pub enum Phase {
    SendCode,
    AuthorizeBuyer(Seq<char>),
    CreateBuyer(Seq<char>),
    UpdateContact(Seq<char>, Seq<char>, Seq<char>),
    CreateApplication(Seq<char>, Seq<char>, Seq<char>),
    Done(Seq<char>, Seq<char>),
    Failed(Step, PipelineError),
}

pub open spec fn phase_of(s: Stage) -> Phase {
    match s {
        Stage::SendCode => Phase::SendCode,
        Stage::AuthorizeBuyer { reference_id } => Phase::AuthorizeBuyer(reference_id@),
        Stage::CreateBuyer { anonymous_token } => Phase::CreateBuyer(anonymous_token@),
        Stage::UpdateContact { buyer } => Phase::UpdateContact(
            buyer.buyer_id@,
            buyer.token@,
            buyer.contact_id@,
        ),
        Stage::CreateApplication { buyer } => Phase::CreateApplication(
            buyer.buyer_id@,
            buyer.token@,
            buyer.contact_id@,
        ),
        Stage::Done { application } => Phase::Done(
            application.application_id@,
            application.payment_agreement_id@,
        ),
        Stage::Failed { step, error } => Phase::Failed(step, error),
    }
}

/// The exchange a phase waits for, if any.
pub open spec fn step_of(p: Phase) -> Option<Step> {
    match p {
        Phase::SendCode => Some(Step::SendCode),
        Phase::AuthorizeBuyer(_) => Some(Step::AuthorizeBuyer),
        Phase::CreateBuyer(_) => Some(Step::CreateBuyer),
        Phase::UpdateContact(_, _, _) => Some(Step::UpdateContact),
        Phase::CreateApplication(_, _, _) => Some(Step::CreateApplication),
        Phase::Done(_, _) => None,
        Phase::Failed(_, _) => None,
    }
}

/// `r` is the request that phase `p` sends, with acceptance time `at`.
pub open spec fn request_for(
    config: Config,
    context: RunContext,
    p: Phase,
    at: Seq<char>,
    r: Request,
) -> bool {
    let app = config.app_id@;
    let rid = context.request_id@;
    match p {
        Phase::SendCode => is_request(
            r,
            Method::Post,
            config.base_url@ + "/api/auth/send-code"@,
            sent_headers(app, rid, version_headers()),
            Some(send_code_body(context.phone@, context.email@, at)),
        ),
        Phase::AuthorizeBuyer(reference_id) => is_request(
            r,
            Method::Post,
            config.base_url@ + "/api/auth/buyer/authorize"@,
            sent_headers(app, rid, no_headers()),
            Some(authorize_body(reference_id, config.merchant_id@, config.program_id@)),
        ),
        Phase::CreateBuyer(token) => is_request(
            r,
            Method::Post,
            config.base_url@ + "/api/buyer"@,
            sent_headers(app, rid, bearer_headers(token)),
            Some(buyer_body(context.phone@, context.email@)),
        ),
        Phase::UpdateContact(buyer_id, token, contact_id) => is_request(
            r,
            Method::Put,
            config.base_url@ + "/api/buyer/"@ + buyer_id + "/contact/"@ + contact_id,
            sent_headers(app, rid, bearer_headers(token)),
            Some(contact_body(context.phone@, context.email@)),
        ),
        Phase::CreateApplication(_, token, _) => is_request(
            r,
            Method::Post,
            config.base_url@ + "/api/application"@,
            sent_headers(app, rid, with_header(bearer_headers(token), "x-api-version"@, "v2"@)),
            Some(application_body(at)),
        ),
        Phase::Done(_, _) => false,
        Phase::Failed(_, _) => false,
    }
}

/// The phase that follows `p` when its exchange ends with `outcome`.
pub open spec fn after(p: Phase, outcome: Result<Response, PipelineError>) -> Phase {
    match step_of(p) {
        None => p,
        Some(step) => match outcome {
            Err(e) => Phase::Failed(step, e),
            Ok(resp) => match p {
                Phase::SendCode => match required(str_field(resp.body, "referenceID"@)) {
                    Ok(reference_id) => Phase::AuthorizeBuyer(reference_id),
                    Err(e) => Phase::Failed(step, e),
                },
                Phase::AuthorizeBuyer(_) => match required(str_field(resp.body, "token"@)) {
                    Ok(token) => Phase::CreateBuyer(token),
                    Err(e) => Phase::Failed(step, e),
                },
                Phase::CreateBuyer(_) => match buyer_result(resp) {
                    Ok(b) => Phase::UpdateContact(b.0, b.1, b.2),
                    Err(e) => Phase::Failed(step, e),
                },
                Phase::UpdateContact(b, t, c) => Phase::CreateApplication(b, t, c),
                Phase::CreateApplication(_, _, _) => match application_result(resp.body) {
                    Ok(a) => Phase::Done(a.0, a.1),
                    Err(e) => Phase::Failed(step, e),
                },
                _ => p,
            },
        },
    }
}

pub struct Pipeline {
    pub config: Config,
    pub context: RunContext,
    pub stage: Stage,
}

impl Pipeline {
    /// A run that has made no exchange yet.
    pub fn new(config: Config, context: RunContext) -> (r: Pipeline)
        ensures
            r.config == config,
            r.context == context,
            phase_of(r.stage) == Phase::SendCode,
    {
        Pipeline { config, context, stage: Stage::SendCode }
    }

    /// The request of the exchange that comes next, with acceptance time
    /// `accepted_at`; `None` once the run is over.
    pub fn next_request(&self, accepted_at: &str) -> (r: Option<Request>)
        ensures
            r is Some <==> step_of(phase_of(self.stage)) is Some,
            r matches Some(q) ==> request_for(
                self.config,
                self.context,
                phase_of(self.stage),
                accepted_at@,
                q,
            ),
    {
        match &self.stage {
            Stage::SendCode => Some(send_code(&self.config, &self.context, accepted_at)),
            Stage::AuthorizeBuyer { reference_id } => Some(
                authorize_buyer(&self.config, &self.context, reference_id.as_str()),
            ),
            Stage::CreateBuyer { anonymous_token } => Some(
                create_buyer(&self.config, &self.context, anonymous_token.as_str()),
            ),
            Stage::UpdateContact { buyer } => Some(
                update_buyer_contact(&self.config, &self.context, buyer),
            ),
            Stage::CreateApplication { buyer } => Some(
                create_application(&self.config, &self.context, buyer.token.as_str(), accepted_at),
            ),
            Stage::Done { .. } => None,
            Stage::Failed { .. } => None,
        }
    }

    /// The run after the pending exchange ended with `outcome`: a reply, or
    /// the transport or decoding failure that prevented one.
    pub fn advance(self, outcome: Result<Response, PipelineError>) -> (r: Pipeline)
        ensures
            r.config == self.config,
            r.context == self.context,
            phase_of(r.stage) == after(phase_of(self.stage), outcome),
    {
        let Pipeline { config, context, stage } = self;
        let step = match &stage {
            Stage::SendCode => Step::SendCode,
            Stage::AuthorizeBuyer { .. } => Step::AuthorizeBuyer,
            Stage::CreateBuyer { .. } => Step::CreateBuyer,
            Stage::UpdateContact { .. } => Step::UpdateContact,
            Stage::CreateApplication { .. } => Step::CreateApplication,
            Stage::Done { .. } => {
                return Pipeline { config, context, stage };
            },
            Stage::Failed { .. } => {
                return Pipeline { config, context, stage };
            },
        };
        let resp = match outcome {
            Ok(resp) => resp,
            Err(error) => {
                return Pipeline { config, context, stage: Stage::Failed { step, error } };
            },
        };
        let next = match stage {
            Stage::SendCode => match send_code_reply(&resp) {
                Ok(reference_id) => Stage::AuthorizeBuyer { reference_id },
                Err(error) => Stage::Failed { step, error },
            },
            Stage::AuthorizeBuyer { .. } => match authorize_buyer_reply(&resp) {
                Ok(anonymous_token) => Stage::CreateBuyer { anonymous_token },
                Err(error) => Stage::Failed { step, error },
            },
            Stage::CreateBuyer { .. } => match create_buyer_reply(&resp) {
                Ok(buyer) => Stage::UpdateContact { buyer },
                Err(error) => Stage::Failed { step, error },
            },
            Stage::UpdateContact { buyer } => Stage::CreateApplication { buyer },
            Stage::CreateApplication { .. } => match create_application_reply(&resp) {
                Ok(application) => Stage::Done { application },
                Err(error) => Stage::Failed { step, error },
            },
            Stage::Done { application } => Stage::Done { application },
            Stage::Failed { step, error } => Stage::Failed { step, error },
        };
        Pipeline { config, context, stage: next }
    }

    /// Whether the run is over, finished or failed.
    pub fn is_over(&self) -> (r: bool)
        ensures
            r == (step_of(phase_of(self.stage)) is None),
    {
        match &self.stage {
            Stage::Done { .. } => true,
            Stage::Failed { .. } => true,
            _ => false,
        }
    }

    /// The exchange that failed and why, once the run has failed.
    pub fn failure(&self) -> (r: Option<(Step, PipelineError)>)
        ensures
            match phase_of(self.stage) {
                Phase::Failed(step, error) => r == Some((step, error)),
                _ => r is None,
            },
    {
        match &self.stage {
            Stage::Failed { step, error } => Some((*step, *error)),
            _ => None,
        }
    }

    /// The line a finished run prints; `None` before the run has finished,
    /// and after a failure.
    pub fn output_line(&self) -> (r: Option<String>)
        ensures
            match phase_of(self.stage) {
                Phase::Done(a, p) => r matches Some(s) && s@ == summary_text(a, p),
                _ => r is None,
            },
    {
        match &self.stage {
            Stage::Done { application } => Some(application.summary_line()),
            _ => None,
        }
    }
}

/// A reference identifier read from the code-request reply is passed on
/// unchanged: the run moves to the authorization, and the authorization
/// request carries exactly that identifier in its body.
pub proof fn lemma_reference_passed_on(
    config: Config,
    context: RunContext,
    resp: Response,
    reference_id: Seq<char>,
    at: Seq<char>,
    q: Request,
)
    requires
        str_field(resp.body, "referenceID"@) == Some(reference_id),
        request_for(config, context, after(Phase::SendCode, Ok(resp)), at, q),
    ensures
        after(Phase::SendCode, Ok(resp)) == Phase::AuthorizeBuyer(reference_id),
        q.body matches Some(b) && b@ == authorize_body(
            reference_id,
            config.merchant_id@,
            config.program_id@,
        ),
{
}

/// A code-request reply without a string `referenceID` ends the run with
/// `FieldMissing` at the code request, and no further request is made.
pub proof fn lemma_missing_reference_aborts(
    config: Config,
    context: RunContext,
    resp: Response,
    at: Seq<char>,
    q: Request,
)
    requires
        str_field(resp.body, "referenceID"@) is None,
    ensures
        after(Phase::SendCode, Ok(resp)) == Phase::Failed(Step::SendCode, PipelineError::FieldMissing),
        step_of(after(Phase::SendCode, Ok(resp))) is None,
        !request_for(config, context, after(Phase::SendCode, Ok(resp)), at, q),
{
}

/// Once a run is over, nothing moves it: every later outcome leaves it where it is.
pub proof fn lemma_over_is_final(p: Phase, outcome: Result<Response, PipelineError>)
    requires
        step_of(p) is None,
    ensures
        after(p, outcome) == p,
{
}

/// The contact update can be repeated: two updates of the same buyer send
/// the same request, and any two replies to it move the run to the same
/// state, since the reply is not read.
pub proof fn lemma_contact_update_repeatable(
    config: Config,
    context: RunContext,
    buyer_id: Seq<char>,
    token: Seq<char>,
    contact_id: Seq<char>,
    at1: Seq<char>,
    at2: Seq<char>,
    q1: Request,
    q2: Request,
    resp1: Response,
    resp2: Response,
)
    requires
        request_for(config, context, Phase::UpdateContact(buyer_id, token, contact_id), at1, q1),
        request_for(config, context, Phase::UpdateContact(buyer_id, token, contact_id), at2, q2),
    ensures
        q1.method == q2.method,
        q1.url@ == q2.url@,
        q1.headers@ == q2.headers@,
        q1.body matches Some(b1) && q2.body matches Some(b2) && b1@ == b2@,
        after(Phase::UpdateContact(buyer_id, token, contact_id), Ok(resp1)) == after(
            Phase::UpdateContact(buyer_id, token, contact_id),
            Ok(resp2),
        ),
        after(Phase::UpdateContact(buyer_id, token, contact_id), Ok(resp1))
            == Phase::CreateApplication(buyer_id, token, contact_id),
{
}

} // verus!
