//! Deleting one experiment.

use crate::handler::{Cause, Claims, CustomAPIError, HandlerError};
use crate::service::experiment::{delete, ServiceError, Store};
use crate::Dependency;
use vstd::prelude::*;

verus! {

/// What the path of the request names.
#[derive(Debug, Clone, PartialEq, Eq)]
pub struct Params {
    pub id: String,
}

/// What answers a request that deleted an experiment.
#[derive(Debug, Clone, Copy, PartialEq, Eq)]
pub struct ResponsePayload {
    pub acknowledge: bool,
}

/// Handles a request to delete one experiment. `claims` are the claims
/// that the request carries, if it was authenticated.
///
/// A request without claims is refused as unauthorized, and the store is
/// not asked. Otherwise the experiment is deleted for the caller's tenant,
/// and the answer acknowledges it.
pub fn handle<ER: Store>(claims: Option<&Claims>, path: Params, dep: &Dependency<ER>) -> (r: Result<
    ResponsePayload,
    CustomAPIError,
>)
    ensures
        claims is None ==> r == Err::<ResponsePayload, CustomAPIError>(
            CustomAPIError { err: Cause::Handler(HandlerError::Unauthorize) },
        ),
        claims matches Some(caller) ==> exists|
            id: &str,
            tenant_id: &str,
            answer: Result<(), ServiceError>,
        |
            {
                &&& id@ == path.id@
                &&& tenant_id@ == caller.tenant_id@
                &&& call_ensures(delete::<ER>, (&dep.experiment_repo, id, tenant_id), answer)
                &&& r == match answer {
                    Ok(_) => Ok::<ResponsePayload, CustomAPIError>(
                        ResponsePayload { acknowledge: true },
                    ),
                    Err(ServiceError::User(e)) => Err::<ResponsePayload, CustomAPIError>(
                        CustomAPIError { err: Cause::User(e) },
                    ),
                    Err(ServiceError::Store(e)) => Err::<ResponsePayload, CustomAPIError>(
                        CustomAPIError { err: Cause::Store(e) },
                    ),
                }
            },
        claims is Some ==> match r {
            Ok(done) => done.acknowledge,
            Err(e) => e.err is Store,
        },
{
    match claims {
        None => Err(CustomAPIError::from(HandlerError::Unauthorize)),
        Some(caller) => {
            match delete(&dep.experiment_repo, path.id.as_str(), caller.tenant_id.as_str()) {
                Ok(()) => Ok(ResponsePayload { acknowledge: true }),
                Err(e) => Err(CustomAPIError::from(e)),
            }
        },
    }
}

} // verus!
