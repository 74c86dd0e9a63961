//! What the cluster-wide requests answer.

use crate::handlers::errors::ApiError;
use crate::handlers::models::{ClusterInfo, ProcessorInfo};
use crate::processors::models::ProcessorReply;
use vstd::prelude::*;
use vstd::string::StringExecFns;

verus! {

/// The name under which the cluster reports itself.
pub open spec fn cluster_name() -> Seq<char> {
    "Rusk Default Cluster"@
}

/// Answers the liveness probe.
pub fn is_alive() -> (r: &'static str)
    ensures
        r@ == "I am alive!"@,
{
    "I am alive!"
}

/// Whether every processor answered the GetInfo round with its report.
pub open spec fn all_reported(replies: Seq<Option<ProcessorReply>>) -> bool {
    forall|i: int| 0 <= i < replies.len() ==> #[trigger] replies[i] matches Some(
        ProcessorReply::Info(_),
    )
}

/// The reports of a GetInfo round, in the order of the replies.
pub open spec fn reports_of(replies: Seq<Option<ProcessorReply>>) -> Seq<ProcessorInfo> {
    Seq::new(replies.len(), |i: int| replies[i]->Some_0->Info_0)
}

/// Answers the cluster report from the replies of one GetInfo round over
/// the control map: the reports in the order of the replies, under the
/// cluster's name. After cancellation nothing is reported; one processor
/// that did not answer with its report makes the round fail.
pub fn get_cluster_info(cancelled: bool, replies: &Vec<Option<ProcessorReply>>) -> (r: Result<
    ClusterInfo,
    ApiError,
>)
    ensures
        match r {
            Ok(cluster) => {
                &&& !cancelled
                &&& all_reported(replies@)
                &&& cluster.cluster_name@ == cluster_name()
                &&& cluster.processors@ == reports_of(replies@)
            },
            Err(error) => if cancelled {
                error == ApiError::Cancelled
            } else {
                error == ApiError::ProcessorUnreachable && !all_reported(replies@)
            },
        },
{
    if cancelled {
        return Err(ApiError::Cancelled);
    }
    let mut processors: Vec<ProcessorInfo> = Vec::new();
    let mut i: usize = 0;
    while i < replies.len()
        invariant
            !cancelled,
            i <= replies@.len(),
            processors@.len() == i,
            forall|j: int| 0 <= j < i ==> #[trigger] replies@[j] matches Some(ProcessorReply::Info(_)),
            forall|j: int| 0 <= j < i ==> #[trigger] processors@[j] == replies@[j]->Some_0->Info_0,
        decreases replies@.len() - i,
    {
        match &replies[i] {
            Some(ProcessorReply::Info(info)) => {
                processors.push(
                    ProcessorInfo {
                        processor_id: info.processor_id.clone(),
                        status: info.status,
                        packets_processed_count: info.packets_processed_count,
                    },
                );
            },
            _ => {
                proof {
                    let missing = replies@[i as int];
                    assert(!(missing matches Some(ProcessorReply::Info(_))));
                    assert(!all_reported(replies@));
                }
                return Err(ApiError::ProcessorUnreachable);
            },
        }
        i = i + 1;
    }
    assert(processors@ =~= reports_of(replies@));
    Ok(ClusterInfo { cluster_name: String::from_str("Rusk Default Cluster"), processors })
}

} // verus!
