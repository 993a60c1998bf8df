//! Per-branch frame callback boundary.
//!
//! The engine invokes a registered callback whenever a branch's sink holds a
//! new encoded frame. The core's obligation here is minimal: read the buffer
//! synchronously within the callback, record observability data, and answer
//! with a flow status. The buffer is never retained beyond the callback.

use byte_slice_cast::AsSliceOf;
use vstd::prelude::*;

verus! {

/// Which output branch this sink serves.
#[derive(Clone, Copy, Debug, PartialEq, Eq, Structural)]
pub enum BranchKind {
    Fullscreen,
    Thumbnail,
}

/// The flow status a frame callback answers the engine with.
#[derive(Clone, Copy, Debug, PartialEq, Eq, Structural)]
pub enum FlowStatus {
    /// The frame was read and acknowledged; keep flowing.
    Accepted,
    /// The branch is not linked to a consumer.
    NotLinked,
    /// The stream is over; no more frames will be accepted.
    Ended,
    /// The frame could not be read; surfaced to the engine as an error.
    Failed,
}

/// A pull that did not yield a readable frame.
#[derive(Clone, Copy, Debug, PartialEq, Eq, Structural)]
pub enum PullEvent {
    /// The sink had no sample: the stream ended under the callback.
    NoSample,
    /// The sample carried no buffer.
    NoBuffer,
    /// The buffer could not be mapped for reading.
    Unreadable,
}

/// Why a buffer could not be reinterpreted as frame data.
#[derive(Clone, Copy, Debug, PartialEq, Eq, Structural)]
pub enum CastFault {
    /// The slice is not aligned for the target type, whose minimum alignment
    /// this carries.
    Alignment { minimum: usize },
    /// The slice's size is not a whole number of target values.
    Length { actual: usize, unit: usize },
}

/// Relies on `byte_slice_cast::AsSliceOf::as_slice_of::<u8>`: reinterprets a
/// byte slice as a slice of the target type after checking alignment and
/// size. For the byte-wide target both checks always pass — every address is
/// one-aligned and every length is a whole number of bytes — and the call
/// returns the same bytes it was given.
#[verifier::external_body]
fn reinterpret_frame<'a>(data: &'a [u8]) -> (r: Result<&'a [u8], CastFault>)
    ensures
        r is Ok,
        (r matches Ok(b) ==> b@ == data@),
{
    match data.as_slice_of::<u8>() {
        Ok(b) => Ok(b),
        Err(byte_slice_cast::Error::AlignmentMismatch { dst_minimum_alignment, .. }) => Err(
            CastFault::Alignment { minimum: dst_minimum_alignment },
        ),
        Err(byte_slice_cast::Error::LengthMismatch { src_slice_size, dst_type_size, .. }) => Err(
            CastFault::Length { actual: src_slice_size, unit: dst_type_size },
        ),
    }
}

/// One branch's frame sink: acknowledges frames and keeps observability
/// counters for its source and branch.
pub struct FrameSink {
    /// The source whose frames this sink receives.
    pub source: String,
    /// The branch this sink serves.
    pub branch: BranchKind,
    /// How many frames were acknowledged; stops counting at the counter's
    /// limit rather than wrapping.
    pub frames_seen: u64,
    /// Size of the last acknowledged frame, in bytes.
    pub last_len: usize,
}

impl FrameSink {
    /// A fresh sink that has seen nothing.
    pub fn new(source: String, branch: BranchKind) -> (s: FrameSink)
        ensures
            s.source == source,
            s.branch == branch,
            s.frames_seen == 0,
            s.last_len == 0,
    {
        FrameSink { source, branch, frames_seen: 0, last_len: 0 }
    }

    /// The engine produced a frame on this branch: read it synchronously,
    /// record its size and count it, and acknowledge. The buffer is read
    /// within the callback and not retained.
    pub fn on_frame(&mut self, data: &[u8]) -> (r: FlowStatus)
        ensures
            r == FlowStatus::Accepted,
            final(self).last_len == data@.len(),
            final(self).frames_seen as int == if old(self).frames_seen < u64::MAX {
                old(self).frames_seen as int + 1
            } else {
                old(self).frames_seen as int
            },
            final(self).source == old(self).source,
            final(self).branch == old(self).branch,
    {
        let bytes = match reinterpret_frame(data) {
            Ok(b) => b,
            Err(_) => {
                proof {
                    assert(false);
                }
                data
            },
        };
        self.last_len = bytes.len();
        if self.frames_seen < u64::MAX {
            self.frames_seen = self.frames_seen + 1;
        }
        FlowStatus::Accepted
    }

    /// The pull did not yield a readable frame: an absent sample means the
    /// stream ended; anything else is surfaced to the engine as an error.
    /// Nothing is counted and nothing is swallowed.
    pub fn on_pull_failure(&mut self, event: &PullEvent) -> (r: FlowStatus)
        ensures
            *final(self) == *old(self),
            (*event == PullEvent::NoSample ==> r == FlowStatus::Ended),
            (*event == PullEvent::NoBuffer ==> r == FlowStatus::Failed),
            (*event == PullEvent::Unreadable ==> r == FlowStatus::Failed),
    {
        match event {
            PullEvent::NoSample => FlowStatus::Ended,
            PullEvent::NoBuffer => FlowStatus::Failed,
            PullEvent::Unreadable => FlowStatus::Failed,
        }
    }
}

} // verus!
