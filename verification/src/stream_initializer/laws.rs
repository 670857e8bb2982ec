//! What initialization leaves of a stream.
use vstd::prelude::*;

use crate::location::{LogFileId, RecordEndLocation};
use crate::stream_initializer::initialization_state::InitializationView;

verus! {

impl InitializationView {
    /// The removed pairs lie behind the checkpoint, behind every recovered record and behind the
    /// active pair.
    pub proof fn cleanup_spares_the_recovered_prefix(self, first: LogFileId, removed: LogFileId)
        requires
            self.wf(),
            self.validated,
            self.first_to_remove == Some(first),
            first.precedes_or_is(removed),
        ensures
            self.checkpoint matches Some(checkpoint) ==> !removed.assigns(
                checkpoint.end.record_id,
            ),
            self.recovered matches Some(end) ==> !removed.assigns(end.record_id),
            self.active matches Some(active) ==> removed != active.file_id && active.file_id.
                file_number@ < removed.file_number@,
    {
    }

    /// Initialization never gives up a checkpointed record: the recovered end does not precede the
    /// checkpoint.
    pub proof fn the_checkpoint_never_goes_back(self)
        requires
            self.wf(),
            self.validated,
        ensures
            self.checkpoint matches Some(checkpoint) ==> {
                &&& self.recovered matches Some(end)
                &&& end.record_id.stream_id == checkpoint.end.record_id.stream_id
                &&& checkpoint.end.record_id.sequence_number.0 <= end.record_id.sequence_number.0
            },
    {
    }

    /// The next record of the active pair is the one behind the recovered end; in a stream without
    /// records it is the stream's first one.
    pub proof fn the_active_pair_continues_the_stream(self)
        requires
            self.wf(),
            self.validated,
            self.active is Some,
        ensures
            ({
                let active = self.active->0;
                let next = active.file_id.record_at(RecordEndLocation::count(active.end));
                match self.recovered {
                    Some(end) => next == end.record_id.plus(1),
                    None => {
                        &&& next.stream_id == self.stream_id
                        &&& next.sequence_number.0 == 0
                        &&& self.checkpoint is None
                    },
                }
            }),
    {
        let active = self.active->0;
        if let Some(end) = active.end {
            LogFileId::count_and_place_are_inverse(active.file_id, end.record_id);
        }
    }
}

} // verus!
