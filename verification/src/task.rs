//! The normalized model of a polled task and of a poll's failure modes.

use vstd::prelude::*;

verus! {

/// Outcome state of the most recent task reported by a monitored service.
///
/// The set of states is closed: every consumer must handle all four variants,
/// so an unexpected state can never be ignored silently. A `Succeeded` task
/// carries the unix timestamp (in seconds) at which it was enqueued; a
/// `Failed` task carries the service's error message. The other two variants
/// carry nothing this probe reads.
#[derive(Debug, Clone, PartialEq, Eq)]
pub enum TaskRecord {
    Succeeded { enqueued_at: i64 },
    Enqueued,
    Processing,
    Failed { error_message: String },
}

/// Mathematical view of a [`TaskRecord`]: timestamps as unbounded integers,
/// messages as character sequences.
pub enum TaskRecordV {
    Succeeded { enqueued_at: int },
    Enqueued,
    Processing,
    Failed { error_message: Seq<char> },
}

impl View for TaskRecord {
    type V = TaskRecordV;

    open spec fn view(&self) -> TaskRecordV {
        match self {
            TaskRecord::Succeeded { enqueued_at } => (TaskRecordV::Succeeded {
                enqueued_at: *enqueued_at as int,
            }),
            TaskRecord::Enqueued => TaskRecordV::Enqueued,
            TaskRecord::Processing => TaskRecordV::Processing,
            TaskRecord::Failed { error_message } => (TaskRecordV::Failed {
                error_message: error_message@,
            }),
        }
    }
}

/// Why polling a host produced no task record to inspect.
#[derive(Debug, Clone, Copy, PartialEq, Eq, Structural)]
pub enum PollError {
    /// No response could be obtained from the host.
    Unreachable,
    /// The host responded but reported zero tasks.
    Empty,
}

/// Classifies one host's poll response.
///
/// `response` is `None` when no response was obtained, and otherwise holds the
/// task list the host reported, most recent first. The poll yields the most
/// recent record, or the error that says why there is none.
pub fn classify_poll(response: Option<Vec<TaskRecord>>) -> (r: Result<TaskRecord, PollError>)
    ensures
        response is None ==> r == Err::<TaskRecord, PollError>(PollError::Unreachable),
        response matches Some(tasks) ==> if tasks@.len() == 0 {
            r == Err::<TaskRecord, PollError>(PollError::Empty)
        } else {
            r == Ok::<TaskRecord, PollError>(tasks@[0])
        },
{
    match response {
        None => Err(PollError::Unreachable),
        Some(mut tasks) => {
            if tasks.len() == 0 {
                Err(PollError::Empty)
            } else {
                Ok(tasks.remove(0))
            }
        },
    }
}

} // verus!
