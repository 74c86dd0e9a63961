//! What each processor request answers, once the processor has been asked.
//!
//! A handler resolves its request against the registry, sends the command,
//! waits for the acknowledgment and then decides here. `cancelled` says
//! whether the cancellation signal had fired by then; `ack` is the reply,
//! or `None` where the reply handle was dropped without one.

use crate::handlers::errors::ApiError;
use crate::handlers::models::{ProcessorInfo, ResponseDetails};
use crate::ids::{parsed_uuid, uuid_text, uuid_to_text};
use crate::processors::models::{ProcessorReply, ProcessorStatus};
use vstd::prelude::*;

verus! {

/// The status that a command was acknowledged with. After cancellation
/// nothing counts as acknowledged; a missing reply, or one of another
/// shape, leaves the processor unreachable.
pub open spec fn status_ack(cancelled: bool, ack: Option<ProcessorReply>) -> Result<
    ProcessorStatus,
    ApiError,
> {
    if cancelled {
        Err(ApiError::Cancelled)
    } else {
        match ack {
            Some(ProcessorReply::Status(status)) => Ok(status),
            _ => Err(ApiError::ProcessorUnreachable),
        }
    }
}

/// The outcome of a command that has to leave the processor in `expected`:
/// any other acknowledged status means that the processor could not follow.
pub open spec fn transition_ack(
    expected: ProcessorStatus,
    cancelled: bool,
    ack: Option<ProcessorReply>,
) -> Result<ProcessorStatus, ApiError> {
    match status_ack(cancelled, ack) {
        Ok(status) => if status == expected {
            Ok(status)
        } else {
            Err(ApiError::TransformFailure)
        },
        Err(error) => Err(error),
    }
}

/// The report that a GetInfo command was acknowledged with.
pub open spec fn info_ack(cancelled: bool, ack: Option<ProcessorReply>) -> Result<
    ProcessorInfo,
    ApiError,
> {
    if cancelled {
        Err(ApiError::Cancelled)
    } else {
        match ack {
            Some(ProcessorReply::Info(info)) => Ok(info),
            _ => Err(ApiError::ProcessorUnreachable),
        }
    }
}

/// Whether `response` reports `status` for the processor `processor_id`, in
/// text that names that processor again.
pub open spec fn reports(response: ResponseDetails, processor_id: u128, status: ProcessorStatus) -> bool {
    &&& response.processor_id@ == uuid_text(processor_id)
    &&& parsed_uuid(response.processor_id@) == Some(processor_id)
    &&& response.status == status
}

/// Whether `info` reports `status` for the processor `processor_id`, with
/// no packets counted.
pub open spec fn reports_connection(
    info: ProcessorInfo,
    processor_id: u128,
    status: ProcessorStatus,
) -> bool {
    &&& info.processor_id@ == uuid_text(processor_id)
    &&& parsed_uuid(info.processor_id@) == Some(processor_id)
    &&& info.status == status
    &&& info.packets_processed_count == 0
}

/// Reads the acknowledged status out of a reply.
fn acknowledged_status(cancelled: bool, ack: Option<ProcessorReply>) -> (r: Result<
    ProcessorStatus,
    ApiError,
>)
    ensures
        r == status_ack(cancelled, ack),
{
    if cancelled {
        return Err(ApiError::Cancelled);
    }
    match ack {
        Some(ProcessorReply::Status(status)) => Ok(status),
        _ => Err(ApiError::ProcessorUnreachable),
    }
}

/// Answers a start request: success only where the processor reports
/// Running.
pub fn start_processor(processor_id: u128, cancelled: bool, ack: Option<ProcessorReply>) -> (r:
    Result<ResponseDetails, ApiError>)
    ensures
        match r {
            Ok(response) => {
                &&& transition_ack(ProcessorStatus::Running, cancelled, ack) is Ok
                &&& reports(response, processor_id, ProcessorStatus::Running)
            },
            Err(error) => transition_ack(ProcessorStatus::Running, cancelled, ack) == Err::<
                ProcessorStatus,
                ApiError,
            >(error),
        },
        cancelled ==> r is Err,
{
    match acknowledged_status(cancelled, ack) {
        Ok(ProcessorStatus::Running) => Ok(
            ResponseDetails {
                processor_id: uuid_to_text(processor_id),
                status: ProcessorStatus::Running,
            },
        ),
        Ok(_) => Err(ApiError::TransformFailure),
        Err(error) => Err(error),
    }
}

/// Answers a stop request: success only where the processor reports
/// Stopped.
pub fn stop_processor(processor_id: u128, cancelled: bool, ack: Option<ProcessorReply>) -> (r:
    Result<ResponseDetails, ApiError>)
    ensures
        match r {
            Ok(response) => {
                &&& transition_ack(ProcessorStatus::Stopped, cancelled, ack) is Ok
                &&& reports(response, processor_id, ProcessorStatus::Stopped)
            },
            Err(error) => transition_ack(ProcessorStatus::Stopped, cancelled, ack) == Err::<
                ProcessorStatus,
                ApiError,
            >(error),
        },
        cancelled ==> r is Err,
{
    match acknowledged_status(cancelled, ack) {
        Ok(ProcessorStatus::Stopped) => Ok(
            ResponseDetails {
                processor_id: uuid_to_text(processor_id),
                status: ProcessorStatus::Stopped,
            },
        ),
        Ok(_) => Err(ApiError::TransformFailure),
        Err(error) => Err(error),
    }
}

/// Answers a status request with whatever status the processor reports.
pub fn get_status(processor_id: u128, cancelled: bool, ack: Option<ProcessorReply>) -> (r: Result<
    ResponseDetails,
    ApiError,
>)
    ensures
        match r {
            Ok(response) => {
                &&& status_ack(cancelled, ack) matches Ok(status)
                &&& reports(response, processor_id, status)
            },
            Err(error) => status_ack(cancelled, ack) == Err::<ProcessorStatus, ApiError>(error),
        },
        cancelled ==> r is Err,
{
    match acknowledged_status(cancelled, ack) {
        Ok(status) => Ok(ResponseDetails { processor_id: uuid_to_text(processor_id), status }),
        Err(error) => Err(error),
    }
}

/// Answers an info request with the processor's own report.
pub fn get_processor_info(cancelled: bool, ack: Option<ProcessorReply>) -> (r: Result<
    ProcessorInfo,
    ApiError,
>)
    ensures
        r == info_ack(cancelled, ack),
        cancelled ==> r is Err,
{
    if cancelled {
        return Err(ApiError::Cancelled);
    }
    match ack {
        Some(ProcessorReply::Info(info)) => Ok(info),
        _ => Err(ApiError::ProcessorUnreachable),
    }
}

/// Answers a connect request with the source's status.
pub fn connect_processors(
    source_processor_id: u128,
    cancelled: bool,
    ack: Option<ProcessorReply>,
) -> (r: Result<ProcessorInfo, ApiError>)
    ensures
        match r {
            Ok(info) => {
                &&& status_ack(cancelled, ack) matches Ok(status)
                &&& reports_connection(info, source_processor_id, status)
            },
            Err(error) => status_ack(cancelled, ack) == Err::<ProcessorStatus, ApiError>(error),
        },
        cancelled ==> r is Err,
{
    match acknowledged_status(cancelled, ack) {
        Ok(status) => Ok(
            ProcessorInfo {
                processor_id: uuid_to_text(source_processor_id),
                status,
                packets_processed_count: 0,
            },
        ),
        Err(error) => Err(error),
    }
}

/// Answers a disconnect request with the source's status.
pub fn disconnect_processors(
    source_processor_id: u128,
    cancelled: bool,
    ack: Option<ProcessorReply>,
) -> (r: Result<ProcessorInfo, ApiError>)
    ensures
        match r {
            Ok(info) => {
                &&& status_ack(cancelled, ack) matches Ok(status)
                &&& reports_connection(info, source_processor_id, status)
            },
            Err(error) => status_ack(cancelled, ack) == Err::<ProcessorStatus, ApiError>(error),
        },
        cancelled ==> r is Err,
{
    connect_processors(source_processor_id, cancelled, ack)
}

/// Once the cancellation signal has fired, no request that needs a
/// processor's reply succeeds, whatever reply is at hand: each is answered
/// with the code for an unavailable service.
pub proof fn lemma_cancelled_never_succeeds(expected: ProcessorStatus, ack: Option<ProcessorReply>)
    ensures
        status_ack(true, ack) == Err::<ProcessorStatus, ApiError>(ApiError::Cancelled),
        transition_ack(expected, true, ack) == Err::<ProcessorStatus, ApiError>(
            ApiError::Cancelled,
        ),
        info_ack(true, ack) == Err::<ProcessorInfo, ApiError>(ApiError::Cancelled),
        ApiError::Cancelled.code() == 503,
{
}

/// Before cancellation, a status request for a processor that answers
/// succeeds, whatever status the processor is in.
pub proof fn lemma_status_of_live_processor(status: ProcessorStatus)
    ensures
        status_ack(false, Some(ProcessorReply::Status(status))) == Ok::<
            ProcessorStatus,
            ApiError,
        >(status),
{
}

} // verus!
