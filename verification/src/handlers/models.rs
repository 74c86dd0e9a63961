//! Request and response bodies of the control-plane API.

use crate::processors::models::ProcessorStatus;
use vstd::prelude::*;

verus! {

/// Body of `GET /cluster/get_info`.
#[derive(PartialEq, Debug)]
pub struct ClusterInfo {
    pub cluster_name: String,
    pub processors: Vec<ProcessorInfo>,
}

/// Body of the create, start, stop and status requests.
#[derive(Debug)]
pub struct RequestDetails {
    pub processor_name: String,
    pub processor_id: Option<String>,
}

/// Body of the connect and disconnect requests.
#[derive(Debug)]
pub struct ProcessorConnectionRequest {
    pub source_processor_id: String,
    pub destination_processor_id: String,
}

/// Body of the create, start, stop and status responses.
#[derive(Debug)]
pub struct ResponseDetails {
    pub processor_id: String,
    pub status: ProcessorStatus,
}

/// What a processor reports of itself.
#[derive(Debug, PartialEq)]
pub struct ProcessorInfo {
    pub processor_id: String,
    pub status: ProcessorStatus,
    pub packets_processed_count: u64,
}

} // verus!
