//! The checkpoint relay handler: resolves the parent of a named child subnet
//! through the pool, validates it, and delegates to the parent's facade. No
//! retries happen at this layer; every failure propagates unchanged.

use vstd::prelude::*;

use std::sync::Arc;

use crate::config::Subnet;
use crate::config::find_subnet;
use crate::errors::RpcError;
use crate::ids::ChainEpoch;
use crate::ids::SubnetID;
use crate::ids::path_text;
use crate::ids::valid_subnet_text;
use crate::jsonrpc::JsonRpcClient;
use crate::payload::Checkpoint;
use crate::pool::SubnetManagerPool;

verus! {

/// Checks that a resolved subnet configuration is usable: its RPC endpoint is
/// not empty. Rejection is a validation error, raised before any transport
/// call.
pub fn check_subnet(subnet: &Subnet) -> (r: Result<(), RpcError>)
    ensures
        r is Ok <==> subnet.jsonrpc_api_http@.len() > 0,
        r matches Err(e) ==> e matches RpcError::Validation(m) && m@
            == "the subnet has an empty RPC endpoint"@,
{
    if subnet.jsonrpc_api_http.as_str().is_empty() {
        Err(RpcError::Validation("the subnet has an empty RPC endpoint".to_owned()))
    } else {
        Ok(())
    }
}

/// The request of the checkpoint listing operation: a child subnet named by
/// its path text and an epoch range.
#[derive(Debug, Clone)]
pub struct ListBottomUpCheckpointsParams {
    pub subnet_id: String,
    pub from_epoch: ChainEpoch,
    pub to_epoch: ChainEpoch,
}

/// The checkpoint listing handler, sharing the connection pool with every
/// other subnet operation.
pub struct ListBottomUpCheckpointsHandler {
    pool: Arc<SubnetManagerPool>,
}

/// The named child cannot be served from this snapshot: it has no parent, its
/// parent is not registered, or the registered parent has an unusable
/// endpoint. Each is caught before any transport call.
pub open spec fn child_rejected(pool: SubnetManagerPool, child: Seq<Seq<char>>) -> bool {
    ||| child.len() <= 1
    ||| find_subnet(pool.snapshot().subnets@, child.drop_last()) is None
    ||| (find_subnet(pool.snapshot().subnets@, child.drop_last()) matches Some(entry)
        && entry.jsonrpc_api_http@.len() == 0)
}

impl ListBottomUpCheckpointsHandler {
    /// The pool this handler resolves parents through.
    pub closed spec fn pool_view(&self) -> SubnetManagerPool {
        *self.pool
    }

    /// Wraps the shared pool.
    pub fn new(pool: Arc<SubnetManagerPool>) -> (r: ListBottomUpCheckpointsHandler)
        ensures
            r.pool_view() == *pool,
    {
        ListBottomUpCheckpointsHandler { pool }
    }

    /// Lists the bottom-up checkpoints a child subnet committed across an
    /// epoch range, by delegating to its parent's facade. A child with no
    /// parent, an unregistered parent, or a parent with an unusable endpoint
    /// is rejected with a validation error before any transport call, and a
    /// validation error can mean nothing else.
    pub fn list_checkpoints_for_child<T: JsonRpcClient>(
        &self,
        child_subnet_id: &SubnetID,
        from_epoch: ChainEpoch,
        to_epoch: ChainEpoch,
    ) -> (r: Result<Vec<Checkpoint>, RpcError>)
        ensures
            (r matches Err(e) && e is Validation) <==> child_rejected(
                self.pool_view(),
                child_subnet_id@,
            ),
            child_subnet_id@.len() <= 1 ==> (r matches Err(e) && e matches RpcError::Validation(m)
                && m@ == "the subnet identifier does not have a parent"@),
            child_subnet_id@.len() > 1 && find_subnet(
                self.pool_view().snapshot().subnets@,
                child_subnet_id@.drop_last(),
            ) is None ==> (r matches Err(e) && e matches RpcError::Validation(m) && m@
                == "target parent subnet not found"@),
            child_subnet_id@.len() > 1 && (find_subnet(
                self.pool_view().snapshot().subnets@,
                child_subnet_id@.drop_last(),
            ) matches Some(entry) && entry.jsonrpc_api_http@.len() == 0) ==> (r matches Err(e)
                && e matches RpcError::Validation(m) && m@
                == "the subnet has an empty RPC endpoint"@),
            r matches Ok(cs) ==> forall|i: int|
                0 <= i < cs@.len() ==> (#[trigger] cs@[i]).well_formed(),
    {
        let parent = match child_subnet_id.parent() {
            Some(p) => p,
            None => {
                return Err(
                    RpcError::Validation("the subnet identifier does not have a parent".to_owned()),
                );
            },
        };
        let conn = match self.pool.get::<T>(&parent) {
            Some(conn) => conn,
            None => {
                return Err(RpcError::Validation("target parent subnet not found".to_owned()));
            },
        };
        check_subnet(conn.subnet())?;
        conn.manager().ipc_list_checkpoints(child_subnet_id, from_epoch, to_epoch)
    }

    /// Handles one checkpoint listing request: parses the child identifier
    /// and delegates. Request text that is not a subnet path is rejected with
    /// a validation error before anything else happens; for valid text the
    /// rejections of the delegation hold of the one identifier the text
    /// names, and a validation error can mean nothing else.
    pub fn handle<T: JsonRpcClient>(&self, request: &ListBottomUpCheckpointsParams) -> (r: Result<
        Vec<Checkpoint>,
        RpcError,
    >)
        ensures
            (r matches Err(e) && e matches RpcError::Validation(m) && m@
                == "the request names no valid subnet"@) <==> !valid_subnet_text(
                request.subnet_id@,
            ),
            forall|id: SubnetID|
                #![trigger path_text(id@)]
                id.well_formed() && path_text(id@) == request.subnet_id@ ==> ((r matches Err(e)
                    && e is Validation) <==> child_rejected(self.pool_view(), id@)),
            forall|id: SubnetID|
                #![trigger path_text(id@)]
                id.well_formed() && path_text(id@) == request.subnet_id@ && id@.len() <= 1 ==> (
                r matches Err(e) && e matches RpcError::Validation(m) && m@
                    == "the subnet identifier does not have a parent"@),
            forall|id: SubnetID|
                #![trigger path_text(id@)]
                id.well_formed() && path_text(id@) == request.subnet_id@ && id@.len() > 1
                    && find_subnet(self.pool_view().snapshot().subnets@, id@.drop_last()) is None
                    ==> (r matches Err(e) && e matches RpcError::Validation(m) && m@
                    == "target parent subnet not found"@),
            r is Ok ==> valid_subnet_text(request.subnet_id@),
            r matches Ok(cs) ==> forall|i: int|
                0 <= i < cs@.len() ==> (#[trigger] cs@[i]).well_formed(),
    {
        let child_subnet_id = match SubnetID::from_text(request.subnet_id.as_str()) {
            Some(id) => id,
            None => {
                proof {
                    assert forall|id: SubnetID|
                        #![trigger path_text(id@)]
                        id.well_formed() && path_text(id@)
                            == request.subnet_id@ implies false by {
                        crate::ids::lemma_rendered_path_is_valid(id@);
                    }
                }
                return Err(RpcError::Validation("the request names no valid subnet".to_owned()));
            },
        };
        let result = self.list_checkpoints_for_child::<T>(
            &child_subnet_id,
            request.from_epoch,
            request.to_epoch,
        );
        proof {
            broadcast use vstd::string::group_string_axioms;

            reveal_strlit("the request names no valid subnet");
            reveal_strlit("the subnet identifier does not have a parent");
            reveal_strlit("target parent subnet not found");
            reveal_strlit("the subnet has an empty RPC endpoint");
            assert forall|id: SubnetID|
                #![trigger path_text(id@)]
                id.well_formed() && path_text(id@) == request.subnet_id@ implies id@
                == child_subnet_id@ by {
                crate::ids::lemma_path_text_injective(id@, child_subnet_id@);
            }
            match &result {
                Result::Err(RpcError::Validation(m)) => {
                    assert(child_rejected(self.pool_view(), child_subnet_id@));
                    if child_subnet_id@.len() <= 1 {
                        assert(m@ == "the subnet identifier does not have a parent"@);
                    } else if find_subnet(
                        self.pool_view().snapshot().subnets@,
                        child_subnet_id@.drop_last(),
                    ) is None {
                        assert(m@ == "target parent subnet not found"@);
                    } else {
                        assert(m@ == "the subnet has an empty RPC endpoint"@);
                    }
                    assert("the request names no valid subnet"@.len() == 33);
                    assert(m@ != "the request names no valid subnet"@);
                },
                _ => {},
            }
        }
        result
    }
}

} // verus!
