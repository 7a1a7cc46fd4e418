//! Listing the experiments of a tenant.

use crate::handler::{Cause, Claims, CustomAPIError, HandlerError};
use crate::service::experiment::{list, Experiment, ServiceError, Store};
use crate::Dependency;
use vstd::prelude::*;

verus! {

/// What answers a request that listed experiments.
#[derive(Debug, Clone, PartialEq)]
pub struct ResponsePayload {
    pub data: Vec<Experiment>,
}

/// The page that a request asks for: the first where it names none.
pub open spec fn page_asked(page: Option<usize>) -> usize {
    match page {
        Some(n) => n,
        None => 1,
    }
}

/// Handles a request for a page of experiments, `limit` to a page. `claims`
/// are the claims that the request carries, if it was authenticated, and
/// `page` is the page that it names.
///
/// A request without claims is refused as unauthorized, and the store is
/// not asked. Otherwise the page is listed for the caller's tenant: what
/// comes back belongs to that tenant, and is no more than `limit`.
pub fn handle<ER: Store>(
    claims: Option<&Claims>,
    page: Option<usize>,
    limit: usize,
    dep: &Dependency<ER>,
) -> (r: Result<ResponsePayload, CustomAPIError>)
    ensures
        claims is None ==> r == Err::<ResponsePayload, CustomAPIError>(
            CustomAPIError { err: Cause::Handler(HandlerError::Unauthorize) },
        ),
        claims matches Some(caller) ==> exists|
            tenant_id: &str,
            answer: Result<Vec<Experiment>, ServiceError>,
        |
            {
                &&& tenant_id@ == caller.tenant_id@
                &&& call_ensures(
                    list::<ER>,
                    (&dep.experiment_repo, tenant_id, page_asked(page), limit),
                    answer,
                )
                &&& r == match answer {
                    Ok(data) => Ok::<ResponsePayload, CustomAPIError>(ResponsePayload { data }),
                    Err(ServiceError::User(e)) => Err::<ResponsePayload, CustomAPIError>(
                        CustomAPIError { err: Cause::User(e) },
                    ),
                    Err(ServiceError::Store(e)) => Err::<ResponsePayload, CustomAPIError>(
                        CustomAPIError { err: Cause::Store(e) },
                    ),
                }
            },
        claims matches Some(caller) ==> match r {
            Ok(found) => found.data@.len() <= limit && forall|i: int|
                0 <= i < found.data@.len() ==> (#[trigger] found.data@[i]).tenant_id@
                    == caller.tenant_id@,
            Err(e) => e.err is Store,
        },
{
    match claims {
        None => Err(CustomAPIError::from(HandlerError::Unauthorize)),
        Some(caller) => {
            let asked = match page {
                Some(n) => n,
                None => 1,
            };
            let tenant_id = caller.tenant_id.as_str();
            let answer = list(&dep.experiment_repo, tenant_id, asked, limit);
            assert(call_ensures(
                list::<ER>,
                (&dep.experiment_repo, tenant_id, page_asked(page), limit),
                answer,
            ));
            match answer {
                Ok(data) => Ok(ResponsePayload { data }),
                Err(e) => Err(CustomAPIError::from(e)),
            }
        },
    }
}

} // verus!
