//! Fetching one experiment.

use crate::handler::{Cause, Claims, CustomAPIError, HandlerError};
use crate::service::experiment::{get, Experiment, ServiceError, Store};
use crate::Dependency;
use vstd::prelude::*;

verus! {

/// What the path of the request names.
#[derive(Debug, Clone, PartialEq, Eq)]
pub struct Params {
    pub id: String,
}

/// What answers a request that fetched an experiment.
#[derive(Debug, Clone, PartialEq)]
pub struct ResponsePayload {
    pub data: Experiment,
}

/// Handles a request for one experiment. `claims` are the claims that the
/// request carries, if it was authenticated.
///
/// A request without claims is refused as unauthorized, and the store is
/// not asked. Otherwise the experiment is fetched for the caller's tenant,
/// and what comes back belongs to that tenant.
pub fn handle<ER: Store>(claims: Option<&Claims>, path: Params, dep: &Dependency<ER>) -> (r: Result<
    ResponsePayload,
    CustomAPIError,
>)
    ensures
        claims is None ==> r == Err::<ResponsePayload, CustomAPIError>(
            CustomAPIError { err: Cause::Handler(HandlerError::Unauthorize) },
        ),
        claims matches Some(caller) ==> exists|
            id: &str,
            tenant_id: &str,
            answer: Result<Experiment, ServiceError>,
        |
            {
                &&& id@ == path.id@
                &&& tenant_id@ == caller.tenant_id@
                &&& call_ensures(get::<ER>, (&dep.experiment_repo, id, tenant_id), answer)
                &&& r == match answer {
                    Ok(data) => Ok::<ResponsePayload, CustomAPIError>(ResponsePayload { data }),
                    Err(ServiceError::User(e)) => Err::<ResponsePayload, CustomAPIError>(
                        CustomAPIError { err: Cause::User(e) },
                    ),
                    Err(ServiceError::Store(e)) => Err::<ResponsePayload, CustomAPIError>(
                        CustomAPIError { err: Cause::Store(e) },
                    ),
                }
            },
        claims matches Some(caller) ==> match r {
            Ok(found) => found.data.tenant_id@ == caller.tenant_id@,
            Err(e) => e.err is Store,
        },
{
    match claims {
        None => Err(CustomAPIError::from(HandlerError::Unauthorize)),
        Some(caller) => {
            match get(&dep.experiment_repo, path.id.as_str(), caller.tenant_id.as_str()) {
                Ok(data) => Ok(ResponsePayload { data }),
                Err(e) => Err(CustomAPIError::from(e)),
            }
        },
    }
}

} // verus!
