//! Creating an experiment.

use crate::handler::{Cause, Claims, CustomAPIError, HandlerError};
use crate::service::experiment::{
    create, report, rules_broken, rules_hold, variance_views, Classing, Experiment,
    ExperimentView, Interval, ServiceError, Store, UserError, Variance,
};
use crate::Dependency;
use vstd::prelude::*;

verus! {

/// What a caller sends to create an experiment. It names neither an owner
/// nor a tenant: both come from the caller's claims.
#[derive(Debug, Clone, PartialEq)]
pub struct RequestPayload {
    pub name: String,
    pub description: String,
    pub active_interval: Option<Interval>,
    pub variances: Vec<Variance>,
    pub classing: Classing,
}

/// Whether `data` is the experiment that `rp` asks for: what `rp` says,
/// and nothing more.
pub open spec fn requested(rp: RequestPayload, data: Experiment) -> bool {
    &&& data.id is None
    &&& data.name == rp.name
    &&& data.description == rp.description
    &&& data.active_interval == rp.active_interval
    &&& data.variances == rp.variances
    &&& data.classing == rp.classing
    &&& data.owner is None
    &&& data.tenant_id@ == Seq::<char>::empty()
    &&& data.created_at is None
    &&& data.updated_at is None
    &&& data.deleted_at is None
}

/// The experiment that `rp` asks for.
pub fn experiment_of(rp: RequestPayload) -> (r: Experiment)
    ensures
        requested(rp, r),
{
    Experiment {
        id: None,
        name: rp.name,
        description: rp.description,
        active_interval: rp.active_interval,
        variances: rp.variances,
        classing: rp.classing,
        owner: None,
        tenant_id: String::new(),
        created_at: None,
        updated_at: None,
        deleted_at: None,
    }
}

/// What answers a request that created an experiment.
#[derive(Debug, Clone, PartialEq)]
pub struct ResponsePayload {
    pub data: Experiment,
}

/// Handles a request to create an experiment. `claims` are the claims that
/// the request carries, if it was authenticated.
///
/// A request without claims is refused as unauthorized, and nothing is
/// stored. Otherwise the experiment is created for the caller: it fails
/// with a validation error where it breaks a rule, and with the failure of
/// the store where the store fails; else the experiment comes back as it
/// was stored, the caller's own and of the caller's tenant.
pub fn handle<ER: Store>(
    claims: Option<&Claims>,
    payload: RequestPayload,
    dep: &Dependency<ER>,
) -> (r: Result<ResponsePayload, CustomAPIError>)
    ensures
        claims is None ==> r == Err::<ResponsePayload, CustomAPIError>(
            CustomAPIError { err: Cause::Handler(HandlerError::Unauthorize) },
        ),
        claims matches Some(caller) ==> exists|
            data: Experiment,
            answer: Result<Experiment, ServiceError>,
        |
            {
                &&& requested(payload, data)
                &&& call_ensures(create::<ER>, (&dep.experiment_repo, data, caller), answer)
                &&& r == match answer {
                    Ok(data) => Ok::<ResponsePayload, CustomAPIError>(ResponsePayload { data }),
                    Err(ServiceError::User(e)) => Err::<ResponsePayload, CustomAPIError>(
                        CustomAPIError { err: Cause::User(e) },
                    ),
                    Err(ServiceError::Store(e)) => Err::<ResponsePayload, CustomAPIError>(
                        CustomAPIError { err: Cause::Store(e) },
                    ),
                }
            },
        claims is Some && !rules_hold(
            payload.name@,
            payload.description@,
            variance_views(payload.variances@),
        ) ==> (
        r matches Err(e) && e.err matches Cause::User(UserError::ValidationError { message })
            && message@ == report(
            rules_broken(
                payload.name@,
                payload.description@,
                variance_views(payload.variances@),
            ),
        )),
        claims is Some && rules_hold(
            payload.name@,
            payload.description@,
            variance_views(payload.variances@),
        )
            ==> match r {
            Ok(made) => {
                &&& made.data@ == (ExperimentView {
                    id: made.data@.id,
                    name: payload.name@,
                    description: payload.description@,
                    active_interval: payload.active_interval,
                    variances: variance_views(payload.variances@),
                    classing: payload.classing@,
                    owner: Some(claims->0@.owner()),
                    tenant_id: claims->0@.tenant_id,
                    created_at: made.data@.created_at,
                    updated_at: made.data@.updated_at,
                    deleted_at: None,
                })
                &&& (made.data@.id matches Some(id) && id.len() > 0)
                &&& made.data@.created_at is Some
                &&& made.data@.updated_at is Some
            },
            Err(e) => e.err is Store,
        },
{
    match claims {
        None => Err(CustomAPIError::from(HandlerError::Unauthorize)),
        Some(caller) => {
            let data = experiment_of(payload);
            let ghost asked = data;
            let answer = create(&dep.experiment_repo, data, caller);
            assert(call_ensures(create::<ER>, (&dep.experiment_repo, asked, caller), answer));
            match answer {
                Ok(data) => Ok(ResponsePayload { data }),
                Err(e) => Err(CustomAPIError::from(e)),
            }
        },
    }
}

} // verus!
