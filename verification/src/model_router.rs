//! Provider failover routing.
//!
//! A request carries a primary and a secondary candidate, each a
//! `(model, prompt)` pair classified to a provider.  The router
//! health-checks the primary's provider first and selects the first
//! candidate whose provider is confirmed operational; the secondary is
//! consulted only after the primary is confirmed unusable.  The HTTP
//! fetches themselves happen outside the crate; their outcomes are
//! handed in as plain [`FetchOutcome`] values and every decision taken
//! on them is verified here.

use crate::settings::Settings;
use vstd::prelude::*;

verus! {

/// Identity of a text-generation back-end.  The set is closed:
/// adding a provider means adding a variant.  [`ProviderName::NoneKnown`]
/// is the sentinel for "no known provider serves this model" and is
/// always treated as a failed health check, without any network call.
#[derive(Clone, Copy, PartialEq, Eq, Structural, Debug)]
pub enum ProviderName {
    OpenAi,
    Cohere,
    NoneKnown,
}

/// Remote health of a provider.  Only [`HealthStatus::Operational`]
/// counts as usable; `Degraded` and `Unreachable` are treated
/// identically as "failed" when selecting a candidate.
#[derive(Clone, Copy, PartialEq, Eq, Structural, Debug)]
pub enum HealthStatus {
    Operational,
    Degraded,
    Unreachable,
}

/// What came back from one status-page fetch.  `Indicator` carries the
/// remote status indicator verbatim (`"none"` means no incident); the
/// other variants describe why no indicator was obtained.  A fetch that
/// exceeded its deadline is reported as `TimedOut`.
pub enum FetchOutcome {
    Indicator(String),
    TimedOut,
    TransportFailed,
    Malformed,
}

/// Why one candidate was rejected; each way a health check can fail
/// carries a distinct reason.
#[derive(Clone, Copy, PartialEq, Eq, Structural, Debug)]
pub enum FailureReason {
    UnknownProvider,
    Incident,
    TimedOut,
    TransportFailed,
    MalformedStatus,
}

/// The health a status fetch outcome reports: the `"none"` indicator is
/// operational, any other indicator is a degradation, and a fetch that
/// produced no indicator at all leaves the provider unreachable.
pub open spec fn health_of(outcome: FetchOutcome) -> HealthStatus {
    match outcome {
        FetchOutcome::Indicator(s) => if s@ == "none"@ {
            HealthStatus::Operational
        } else {
            HealthStatus::Degraded
        },
        FetchOutcome::TimedOut => HealthStatus::Unreachable,
        FetchOutcome::TransportFailed => HealthStatus::Unreachable,
        FetchOutcome::Malformed => HealthStatus::Unreachable,
    }
}

/// A candidate is usable exactly when its provider is known and the
/// status fetch reported no incident.
pub open spec fn spec_usable(provider: ProviderName, outcome: FetchOutcome) -> bool {
    provider != ProviderName::NoneKnown && health_of(outcome) == HealthStatus::Operational
}

/// The reason recorded when a candidate is not usable.
pub open spec fn spec_fail_reason(provider: ProviderName, outcome: FetchOutcome) -> FailureReason {
    if provider == ProviderName::NoneKnown {
        FailureReason::UnknownProvider
    } else {
        match outcome {
            FetchOutcome::Indicator(_) => FailureReason::Incident,
            FetchOutcome::TimedOut => FailureReason::TimedOut,
            FetchOutcome::TransportFailed => FailureReason::TransportFailed,
            FetchOutcome::Malformed => FailureReason::MalformedStatus,
        }
    }
}

/// What a health check decides for one candidate.
pub open spec fn spec_check(provider: ProviderName, outcome: FetchOutcome) -> Result<
    HealthStatus,
    FailureReason,
> {
    if spec_usable(provider, outcome) {
        Ok(HealthStatus::Operational)
    } else {
        Err(spec_fail_reason(provider, outcome))
    }
}

/// A request body: parallel arrays of model names and prompts, the
/// first slot for the primary candidate and the second for the
/// secondary.  Missing slots default to the empty string.
pub struct Payload {
    pub model: Vec<String>,
    pub prompt: Vec<String>,
}

/// The primary candidate derived from a request: what to ask, which
/// model to ask it of, and the provider that serves that model.
pub struct FirstOption {
    pub model: String,
    pub prompt: String,
    pub provider: ProviderName,
}

/// The secondary candidate, consulted only after the primary's
/// provider is confirmed unusable.
pub struct ScndOption {
    pub model: String,
    pub prompt: String,
    pub provider: ProviderName,
}

/// Which of the two candidates the router selected.
pub enum ProviderOptions {
    First(FirstOption),
    Second(ScndOption),
}

/// Why a generation call failed after its provider's health check had
/// already passed.  Such a failure is surfaced as-is and never retried
/// against the other candidate.
#[derive(Clone, Copy, PartialEq, Eq, Structural, Debug)]
pub enum GenFailure {
    TimedOut,
    TransportFailed,
    Malformed,
}

/// The closed error taxonomy of the relay.
///
/// `TransportError` is connection-level and terminates only that
/// connection; `MalformedRequest` rejects a request body with missing
/// required fields; the remaining variants are routing failures,
/// surfaced verbatim to the caller.
#[derive(Clone, Copy, PartialEq, Eq, Structural, Debug)]
pub enum RouteError {
    TransportError,
    UnknownProvider,
    ProviderUnavailable { provider: ProviderName, reason: FailureReason },
    AllProvidersDown { primary: FailureReason, secondary: FailureReason },
    GenerationFailed { provider: ProviderName, cause: GenFailure },
    MalformedRequest,
}

/// Classify one provider's health from the outcome of its status fetch.
///
/// An unknown provider fails without consulting the outcome; a known
/// provider is operational exactly when the fetched indicator is
/// `"none"`; every failure carries its distinguishing reason.
pub fn check_api_status(provider: ProviderName, outcome: &FetchOutcome) -> (r: Result<
    HealthStatus,
    FailureReason,
>)
    ensures
        r == spec_check(provider, *outcome),
        r is Ok <==> spec_usable(provider, *outcome),
{
    match provider {
        ProviderName::NoneKnown => Err(FailureReason::UnknownProvider),
        _ => match outcome {
            FetchOutcome::Indicator(s) => {
                let no_incident: String = "none".to_owned();
                if *s == no_incident {
                    Ok(HealthStatus::Operational)
                } else {
                    Err(FailureReason::Incident)
                }
            },
            FetchOutcome::TimedOut => Err(FailureReason::TimedOut),
            FetchOutcome::TransportFailed => Err(FailureReason::TransportFailed),
            FetchOutcome::Malformed => Err(FailureReason::MalformedStatus),
        },
    }
}

/// Whether some model name in `models` reads `model`.
pub open spec fn spec_models_contain(models: Seq<String>, model: Seq<char>) -> bool {
    exists|i: int| 0 <= i < models.len() && #[trigger] models[i]@ == model
}

/// The provider the static model table assigns to `model`: the first
/// provider whose model list contains it, or the `NoneKnown` sentinel
/// when no list does.
pub open spec fn spec_provider_of(s: Settings, model: Seq<char>) -> ProviderName {
    if spec_models_contain(s.openai.models@, model) {
        ProviderName::OpenAi
    } else if spec_models_contain(s.cohere.models@, model) {
        ProviderName::Cohere
    } else {
        ProviderName::NoneKnown
    }
}

fn models_contain(models: &Vec<String>, model: &String) -> (b: bool)
    ensures
        b == spec_models_contain(models@, model@),
{
    let mut i: usize = 0;
    while i < models.len()
        invariant
            i <= models.len(),
            forall|j: int| 0 <= j < i ==> #[trigger] models@[j]@ != model@,
        decreases models.len() - i,
    {
        if models[i] == *model {
            return true;
        }
        i = i + 1;
    }
    false
}

/// Look the model name up in the static model table.
pub fn get_provider(settings: &Settings, model: &String) -> (r: ProviderName)
    ensures
        r == spec_provider_of(*settings, model@),
{
    if models_contain(&settings.openai.models, model) {
        ProviderName::OpenAi
    } else if models_contain(&settings.cohere.models, model) {
        ProviderName::Cohere
    } else {
        ProviderName::NoneKnown
    }
}

/// Slot `i` of a request array, defaulting to the empty string where
/// the array is too short.
pub open spec fn spec_slot(v: Seq<String>, i: int) -> Seq<char> {
    if 0 <= i < v.len() {
        v[i]@
    } else {
        Seq::<char>::empty()
    }
}

fn slot(v: &Vec<String>, i: usize) -> (r: String)
    ensures
        r@ == spec_slot(v@, i as int),
{
    if i < v.len() {
        v[i].clone()
    } else {
        String::new()
    }
}

/// Derive the primary and secondary candidates from a request body:
/// slot 0 of each array feeds the primary, slot 1 the secondary, a
/// missing slot reads as the empty string, and each candidate's model
/// name is classified against the model table.
pub fn parse_post(settings: &Settings, payload: Payload) -> (r: (FirstOption, ScndOption))
    ensures
        r.0.model@ == spec_slot(payload.model@, 0),
        r.0.prompt@ == spec_slot(payload.prompt@, 0),
        r.0.provider == spec_provider_of(*settings, spec_slot(payload.model@, 0)),
        r.1.model@ == spec_slot(payload.model@, 1),
        r.1.prompt@ == spec_slot(payload.prompt@, 1),
        r.1.provider == spec_provider_of(*settings, spec_slot(payload.model@, 1)),
{
    let first_model = slot(&payload.model, 0);
    let first_provider = get_provider(settings, &first_model);
    let first_option = FirstOption {
        model: first_model,
        prompt: slot(&payload.prompt, 0),
        provider: first_provider,
    };
    let scnd_model = slot(&payload.model, 1);
    let scnd_provider = get_provider(settings, &scnd_model);
    let scnd_option = ScndOption {
        model: scnd_model,
        prompt: slot(&payload.prompt, 1),
        provider: scnd_provider,
    };
    (first_option, scnd_option)
}

/// The selection the router makes, given both candidates and the
/// outcome of each provider's status fetch: the primary wherever it is
/// usable, else the secondary wherever that one is, else a failure
/// carrying both candidates' reasons.
pub open spec fn spec_route(
    first: FirstOption,
    scnd: ScndOption,
    o1: FetchOutcome,
    o2: FetchOutcome,
) -> Result<ProviderOptions, RouteError> {
    if spec_usable(first.provider, o1) {
        Ok(ProviderOptions::First(first))
    } else if spec_usable(scnd.provider, o2) {
        Ok(ProviderOptions::Second(scnd))
    } else {
        Err(RouteError::AllProvidersDown {
            primary: spec_fail_reason(first.provider, o1),
            secondary: spec_fail_reason(scnd.provider, o2),
        })
    }
}

/// Select a candidate by strict priority: the secondary is consulted
/// only when the primary is unusable, and when both are unusable the
/// error carries both failure reasons.
///
/// This one-shot form consumes both fetch outcomes at once; the
/// step-by-step [`Router`] drives the same decision when the secondary
/// fetch must be avoided while the primary is healthy.
pub fn model_route(
    first: FirstOption,
    scnd: ScndOption,
    first_outcome: &FetchOutcome,
    scnd_outcome: &FetchOutcome,
) -> (r: Result<ProviderOptions, RouteError>)
    ensures
        r == spec_route(first, scnd, *first_outcome, *scnd_outcome),
{
    match check_api_status(first.provider, first_outcome) {
        Ok(_) => Ok(ProviderOptions::First(first)),
        Err(primary_reason) => match check_api_status(scnd.provider, scnd_outcome) {
            Ok(_) => Ok(ProviderOptions::Second(scnd)),
            Err(secondary_reason) => Err(RouteError::AllProvidersDown {
                primary: primary_reason,
                secondary: secondary_reason,
            }),
        },
    }
}

/// Unpack the selected candidate into `(prompt, provider, model)` for
/// the generation call.
pub fn handle_provider(provider: ProviderOptions) -> (r: (String, ProviderName, String))
    ensures
        match provider {
            ProviderOptions::First(f) => r == (f.prompt, f.provider, f.model),
            ProviderOptions::Second(s) => r == (s.prompt, s.provider, s.model),
        },
{
    match provider {
        ProviderOptions::First(first_option) => (
            first_option.prompt,
            first_option.provider,
            first_option.model,
        ),
        ProviderOptions::Second(scnd_option) => (
            scnd_option.prompt,
            scnd_option.provider,
            scnd_option.model,
        ),
    }
}

/// Map the generation call's outcome for the selected candidate to the
/// router's result: the generated text verbatim on success, and a
/// `GenerationFailed` naming the selected provider otherwise.  There is
/// no further fallback after a health-check pass, so this holds for
/// every value the call can come back with.
pub fn generation_result(selected: &ProviderOptions, outcome: Result<String, GenFailure>) -> (r:
    Result<String, RouteError>)
    ensures
        r == spec_generation_result(*selected, outcome),
        outcome matches Ok(text) ==> r == Ok::<String, RouteError>(text),
{
    match outcome {
        Ok(text) => Ok(text),
        Err(cause) => {
            let provider = match selected {
                ProviderOptions::First(f) => f.provider,
                ProviderOptions::Second(s) => s.provider,
            };
            Err(RouteError::GenerationFailed { provider, cause })
        },
    }
}

/// The result the router reports once generation has been attempted on
/// the selected candidate.
pub open spec fn spec_generation_result(
    selected: ProviderOptions,
    outcome: Result<String, GenFailure>,
) -> Result<String, RouteError> {
    match outcome {
        Ok(text) => Ok(text),
        Err(cause) => {
            let provider = match selected {
                ProviderOptions::First(f) => f.provider,
                ProviderOptions::Second(s) => s.provider,
            };
            Err(RouteError::GenerationFailed { provider, cause })
        },
    }
}

/// Where a routing attempt stands.  The states mirror the algorithm:
/// check the primary, check the secondary only after the primary
/// failed, generate on the first candidate whose check passed, done.
pub enum RouterState {
    CheckFirst,
    CheckScnd { first_reason: FailureReason },
    GenFirst,
    GenScnd,
    Done { result: Result<String, RouteError> },
}

/// The one outbound call the caller must perform next, or `Finished`
/// when the result can be read off.  Every such call must be bounded
/// by a deadline; report an exceeded deadline as a timed-out outcome.
pub enum RouterAction {
    CheckHealth(ProviderName),
    Generate { provider: ProviderName, model: String, prompt: String },
    Finished,
}

/// The failover router as a step machine over one request.
///
/// The caller performs each requested [`RouterAction`] (a status fetch
/// or a generation call, both outside the crate) and hands the outcome
/// back through `on_health` or `on_generation`; every decision between
/// the calls is made, and proved, here.  Driving the machine never
/// fetches the secondary's status while the primary is healthy and
/// never requests generation from a provider that was not just
/// confirmed operational.
pub struct Router {
    pub first: FirstOption,
    pub scnd: ScndOption,
    pub state: RouterState,
}

impl Router {
    /// The states only ever entered for candidates with a known
    /// provider: an unknown provider is failed immediately, without a
    /// health-check action.
    pub open spec fn wf(&self) -> bool {
        match self.state {
            RouterState::CheckFirst => self.first.provider != ProviderName::NoneKnown,
            RouterState::CheckScnd { .. } => self.scnd.provider != ProviderName::NoneKnown,
            RouterState::GenFirst => self.first.provider != ProviderName::NoneKnown,
            RouterState::GenScnd => self.scnd.provider != ProviderName::NoneKnown,
            RouterState::Done { .. } => true,
        }
    }
}

/// The machine after the primary candidate has failed for `reason`:
/// move on to the secondary's health check, or finish with both
/// reasons where the secondary's provider is unknown too.
pub open spec fn spec_fail_first(m: Router, reason: FailureReason) -> (Router, RouterAction) {
    if m.scnd.provider != ProviderName::NoneKnown {
        (
            Router { first: m.first, scnd: m.scnd, state: RouterState::CheckScnd { first_reason: reason } },
            RouterAction::CheckHealth(m.scnd.provider),
        )
    } else {
        (
            Router {
                first: m.first,
                scnd: m.scnd,
                state: RouterState::Done {
                    result: Err(RouteError::AllProvidersDown {
                        primary: reason,
                        secondary: FailureReason::UnknownProvider,
                    }),
                },
            },
            RouterAction::Finished,
        )
    }
}

/// A fresh machine for one request, with the first action to perform.
pub open spec fn spec_start(first: FirstOption, scnd: ScndOption) -> (Router, RouterAction) {
    let m = Router { first, scnd, state: RouterState::CheckFirst };
    if first.provider != ProviderName::NoneKnown {
        (m, RouterAction::CheckHealth(first.provider))
    } else {
        spec_fail_first(m, FailureReason::UnknownProvider)
    }
}

/// The step taken on a health-check outcome, in a checking state.
pub open spec fn spec_on_health(m: Router, outcome: FetchOutcome) -> (Router, RouterAction) {
    match m.state {
        RouterState::CheckFirst => {
            if spec_usable(m.first.provider, outcome) {
                (
                    Router { first: m.first, scnd: m.scnd, state: RouterState::GenFirst },
                    RouterAction::Generate {
                        provider: m.first.provider,
                        model: m.first.model,
                        prompt: m.first.prompt,
                    },
                )
            } else {
                spec_fail_first(m, spec_fail_reason(m.first.provider, outcome))
            }
        },
        RouterState::CheckScnd { first_reason } => {
            if spec_usable(m.scnd.provider, outcome) {
                (
                    Router { first: m.first, scnd: m.scnd, state: RouterState::GenScnd },
                    RouterAction::Generate {
                        provider: m.scnd.provider,
                        model: m.scnd.model,
                        prompt: m.scnd.prompt,
                    },
                )
            } else {
                (
                    Router {
                        first: m.first,
                        scnd: m.scnd,
                        state: RouterState::Done {
                            result: Err(RouteError::AllProvidersDown {
                                primary: first_reason,
                                secondary: spec_fail_reason(m.scnd.provider, outcome),
                            }),
                        },
                    },
                    RouterAction::Finished,
                )
            }
        },
        _ => (m, RouterAction::Finished),
    }
}

/// The step taken on a generation outcome, in a generating state.
pub open spec fn spec_on_generation(m: Router, outcome: Result<String, GenFailure>) -> (
    Router,
    RouterAction,
) {
    match m.state {
        RouterState::GenFirst => (
            Router {
                first: m.first,
                scnd: m.scnd,
                state: RouterState::Done {
                    result: spec_generation_result(
                        ProviderOptions::First(m.first),
                        outcome,
                    ),
                },
            },
            RouterAction::Finished,
        ),
        RouterState::GenScnd => (
            Router {
                first: m.first,
                scnd: m.scnd,
                state: RouterState::Done {
                    result: spec_generation_result(
                        ProviderOptions::Second(m.scnd),
                        outcome,
                    ),
                },
            },
            RouterAction::Finished,
        ),
        _ => (m, RouterAction::Finished),
    }
}

impl Router {
    /// Begin routing one request.
    pub fn start(first: FirstOption, scnd: ScndOption) -> (r: (Router, RouterAction))
        ensures
            r == spec_start(first, scnd),
            r.0.wf(),
    {
        let known = match first.provider {
            ProviderName::NoneKnown => false,
            _ => true,
        };
        if known {
            let action = RouterAction::CheckHealth(first.provider);
            (Router { first, scnd, state: RouterState::CheckFirst }, action)
        } else {
            let m = Router { first, scnd, state: RouterState::CheckFirst };
            m.fail_first(FailureReason::UnknownProvider)
        }
    }

    /// Record that the primary candidate failed for `reason` and move on.
    fn fail_first(self, reason: FailureReason) -> (r: (Router, RouterAction))
        ensures
            r == spec_fail_first(self, reason),
            r.0.wf(),
    {
        let scnd_known = match self.scnd.provider {
            ProviderName::NoneKnown => false,
            _ => true,
        };
        if scnd_known {
            let action = RouterAction::CheckHealth(self.scnd.provider);
            (
                Router {
                    first: self.first,
                    scnd: self.scnd,
                    state: RouterState::CheckScnd { first_reason: reason },
                },
                action,
            )
        } else {
            (
                Router {
                    first: self.first,
                    scnd: self.scnd,
                    state: RouterState::Done {
                        result: Err(RouteError::AllProvidersDown {
                            primary: reason,
                            secondary: FailureReason::UnknownProvider,
                        }),
                    },
                },
                RouterAction::Finished,
            )
        }
    }

    /// Feed back the outcome of the health check that was requested.
    pub fn on_health(self, outcome: &FetchOutcome) -> (r: (Router, RouterAction))
        requires
            self.wf(),
            self.state is CheckFirst || self.state is CheckScnd,
        ensures
            r == spec_on_health(self, *outcome),
            r.0.wf(),
    {
        match self.state {
            RouterState::CheckFirst => {
                match check_api_status(self.first.provider, outcome) {
                    Ok(_) => {
                        let action = RouterAction::Generate {
                            provider: self.first.provider,
                            model: self.first.model.clone(),
                            prompt: self.first.prompt.clone(),
                        };
                        (
                            Router {
                                first: self.first,
                                scnd: self.scnd,
                                state: RouterState::GenFirst,
                            },
                            action,
                        )
                    },
                    Err(reason) => Router {
                        first: self.first,
                        scnd: self.scnd,
                        state: RouterState::CheckFirst,
                    }.fail_first(reason),
                }
            },
            RouterState::CheckScnd { first_reason } => {
                match check_api_status(self.scnd.provider, outcome) {
                    Ok(_) => {
                        let action = RouterAction::Generate {
                            provider: self.scnd.provider,
                            model: self.scnd.model.clone(),
                            prompt: self.scnd.prompt.clone(),
                        };
                        (
                            Router {
                                first: self.first,
                                scnd: self.scnd,
                                state: RouterState::GenScnd,
                            },
                            action,
                        )
                    },
                    Err(secondary_reason) => (
                        Router {
                            first: self.first,
                            scnd: self.scnd,
                            state: RouterState::Done {
                                result: Err(RouteError::AllProvidersDown {
                                    primary: first_reason,
                                    secondary: secondary_reason,
                                }),
                            },
                        },
                        RouterAction::Finished,
                    ),
                }
            },
            _ => {
                proof {
                    assert(false);
                }
                (self, RouterAction::Finished)
            },
        }
    }

    /// Feed back the outcome of the generation call that was requested.
    pub fn on_generation(self, outcome: Result<String, GenFailure>) -> (r: (Router, RouterAction))
        requires
            self.wf(),
            self.state is GenFirst || self.state is GenScnd,
        ensures
            r == spec_on_generation(self, outcome),
            r.0.wf(),
    {
        match self.state {
            RouterState::GenFirst => {
                let selected = ProviderOptions::First(FirstOption {
                    model: self.first.model.clone(),
                    prompt: self.first.prompt.clone(),
                    provider: self.first.provider,
                });
                let result = generation_result(&selected, outcome);
                (
                    Router {
                        first: self.first,
                        scnd: self.scnd,
                        state: RouterState::Done { result },
                    },
                    RouterAction::Finished,
                )
            },
            RouterState::GenScnd => {
                let selected = ProviderOptions::Second(ScndOption {
                    model: self.scnd.model.clone(),
                    prompt: self.scnd.prompt.clone(),
                    provider: self.scnd.provider,
                });
                let result = generation_result(&selected, outcome);
                (
                    Router {
                        first: self.first,
                        scnd: self.scnd,
                        state: RouterState::Done { result },
                    },
                    RouterAction::Finished,
                )
            },
            _ => {
                proof {
                    assert(false);
                }
                (self, RouterAction::Finished)
            },
        }
    }

    /// Read the result off a finished machine.
    pub fn into_result(self) -> (r: Result<String, RouteError>)
        requires
            self.state is Done,
        ensures
            self.state matches RouterState::Done { result } ==> r == result,
    {
        match self.state {
            RouterState::Done { result } => result,
            _ => {
                proof {
                    assert(false);
                }
                Err(RouteError::MalformedRequest)
            },
        }
    }
}

/// One whole drive of the machine: start it, feed the primary's fetch
/// outcome if its check was requested, feed the secondary's if that
/// check was requested, feed the generation outcome if generation was
/// requested, and read the result.
pub open spec fn spec_run(
    first: FirstOption,
    scnd: ScndOption,
    o1: FetchOutcome,
    o2: FetchOutcome,
    gen: Result<String, GenFailure>,
) -> Result<String, RouteError> {
    let s0 = spec_start(first, scnd);
    let s1 = if s0.0.state is CheckFirst {
        spec_on_health(s0.0, o1)
    } else {
        s0
    };
    let s2 = if s1.0.state is CheckScnd {
        spec_on_health(s1.0, o2)
    } else {
        s1
    };
    let s3 = if s2.0.state is GenFirst || s2.0.state is GenScnd {
        spec_on_generation(s2.0, gen)
    } else {
        s2
    };
    match s3.0.state {
        RouterState::Done { result } => result,
        _ => Err(RouteError::MalformedRequest),
    }
}

/// The candidate a routing result selected, if any.
pub open spec fn spec_selected(r: Result<ProviderOptions, RouteError>) -> Option<
    ProviderOptions,
> {
    match r {
        Ok(selected) => Some(selected),
        Err(_) => None,
    }
}

/// Driving the step machine is the same decision as the one-shot
/// selection followed by generation on the selected candidate: the two
/// forms of the router cannot disagree.
pub proof fn lemma_run_matches_route(
    first: FirstOption,
    scnd: ScndOption,
    o1: FetchOutcome,
    o2: FetchOutcome,
    gen: Result<String, GenFailure>,
)
    ensures
        spec_run(first, scnd, o1, o2, gen) == (match spec_route(first, scnd, o1, o2) {
            Ok(selected) => spec_generation_result(selected, gen),
            Err(e) => Err(e),
        }),
{
}

/// With the primary healthy, the router selects the primary whatever
/// the secondary's fetch would have reported, and the only actions the
/// machine requests are the primary's health check and generation on
/// the primary: no call ever names the secondary's provider.
pub proof fn lemma_primary_priority(
    first: FirstOption,
    scnd: ScndOption,
    o1: FetchOutcome,
    o2: FetchOutcome,
    o2_alt: FetchOutcome,
)
    requires
        spec_usable(first.provider, o1),
    ensures
        spec_route(first, scnd, o1, o2) == Ok::<ProviderOptions, RouteError>(
            ProviderOptions::First(first),
        ),
        spec_route(first, scnd, o1, o2) == spec_route(first, scnd, o1, o2_alt),
        ({
            let s0 = spec_start(first, scnd);
            let s1 = spec_on_health(s0.0, o1);
            &&& s0.1 == RouterAction::CheckHealth(first.provider)
            &&& s1.1 == (RouterAction::Generate {
                provider: first.provider,
                model: first.model,
                prompt: first.prompt,
            })
            &&& s1.0.state is GenFirst
        }),
{
}

/// With the primary unusable and the secondary healthy, the router
/// selects the secondary, and the run's result is exactly the text the
/// provider client returned for the secondary's prompt and model.
pub proof fn lemma_secondary_fallback(
    first: FirstOption,
    scnd: ScndOption,
    o1: FetchOutcome,
    o2: FetchOutcome,
    text: String,
)
    requires
        !spec_usable(first.provider, o1),
        spec_usable(scnd.provider, o2),
    ensures
        spec_route(first, scnd, o1, o2) == Ok::<ProviderOptions, RouteError>(
            ProviderOptions::Second(scnd),
        ),
        spec_run(first, scnd, o1, o2, Ok(text)) == Ok::<String, RouteError>(text),
{
}

/// With both candidates unusable the router fails with both failure
/// reasons, and the machine finishes without ever requesting a
/// generation call for either provider.
pub proof fn lemma_all_providers_down(
    first: FirstOption,
    scnd: ScndOption,
    o1: FetchOutcome,
    o2: FetchOutcome,
    gen: Result<String, GenFailure>,
)
    requires
        !spec_usable(first.provider, o1),
        !spec_usable(scnd.provider, o2),
    ensures
        spec_route(first, scnd, o1, o2) == Err::<ProviderOptions, RouteError>(
            RouteError::AllProvidersDown {
                primary: spec_fail_reason(first.provider, o1),
                secondary: spec_fail_reason(scnd.provider, o2),
            },
        ),
        spec_run(first, scnd, o1, o2, gen) == Err::<String, RouteError>(
            RouteError::AllProvidersDown {
                primary: spec_fail_reason(first.provider, o1),
                secondary: spec_fail_reason(scnd.provider, o2),
            },
        ),
        ({
            let s0 = spec_start(first, scnd);
            let s1 = if s0.0.state is CheckFirst {
                spec_on_health(s0.0, o1)
            } else {
                s0
            };
            let s2 = if s1.0.state is CheckScnd {
                spec_on_health(s1.0, o2)
            } else {
                s1
            };
            &&& !(s0.1 is Generate)
            &&& !(s1.1 is Generate)
            &&& !(s2.1 is Generate)
            &&& s2.0.state is Done
        }),
{
}

/// A status fetch that exceeded its deadline reports the provider
/// unreachable, and any two outcomes that leave a provider unreachable
/// drive the same selection, in either candidate position: exceeding
/// the deadline is observably the provider being unreachable.  (Only
/// the recorded failure reason still tells a timeout apart.)
pub proof fn lemma_deadline_is_unreachable(
    first: FirstOption,
    scnd: ScndOption,
    o1: FetchOutcome,
    o1_alt: FetchOutcome,
    o2: FetchOutcome,
)
    requires
        health_of(o1) == HealthStatus::Unreachable,
        health_of(o1_alt) == HealthStatus::Unreachable,
    ensures
        health_of(FetchOutcome::TimedOut) == HealthStatus::Unreachable,
        spec_usable(first.provider, o1) == spec_usable(first.provider, o1_alt),
        spec_selected(spec_route(first, scnd, o1, o2)) == spec_selected(
            spec_route(first, scnd, o1_alt, o2),
        ),
        spec_selected(spec_route(first, scnd, o2, o1)) == spec_selected(
            spec_route(first, scnd, o2, o1_alt),
        ),
{
}

/// No step of the machine ever requests a health check for the
/// unknown-provider sentinel: a model that resolved to no known
/// provider is failed immediately, with the unknown-provider reason,
/// without any network call.  Where both candidates' models are
/// unknown the machine is done the moment it starts, carrying both
/// reasons.
pub proof fn lemma_sentinel_never_checked(
    first: FirstOption,
    scnd: ScndOption,
    m: Router,
    outcome: FetchOutcome,
)
    ensures
        spec_start(first, scnd).1 != RouterAction::CheckHealth(ProviderName::NoneKnown),
        spec_on_health(m, outcome).1 != RouterAction::CheckHealth(ProviderName::NoneKnown),
        first.provider == ProviderName::NoneKnown && scnd.provider == ProviderName::NoneKnown
            ==> spec_start(first, scnd) == (
            Router {
                first,
                scnd,
                state: RouterState::Done {
                    result: Err(RouteError::AllProvidersDown {
                        primary: FailureReason::UnknownProvider,
                        secondary: FailureReason::UnknownProvider,
                    }),
                },
            },
            RouterAction::Finished,
        ),
{
}

/// A generation call that fails after a passed health check fails the
/// whole route with the selected provider and the distinguishing
/// cause, whatever that cause is: a generation deadline exceeded is
/// handled exactly like any other generation failure, and is never
/// retried against the other candidate.
pub proof fn lemma_generation_failure_surfaced(selected: ProviderOptions, cause: GenFailure)
    ensures
        spec_generation_result(selected, Err(cause)) == Err::<String, RouteError>(
            RouteError::GenerationFailed {
                provider: match selected {
                    ProviderOptions::First(f) => f.provider,
                    ProviderOptions::Second(s) => s.provider,
                },
                cause,
            },
        ),
{
}

} // verus!
