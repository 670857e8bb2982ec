//! What recovery does to an index file, whatever pieces the file accepts its output in.
use vstd::prelude::*;

use crate::file::{FileImage, FileReply, FileRequest};
use crate::index_entry;
use crate::index_entry::INDEX_ENTRY_LEN;
use crate::index_writer::IndexWriteError;
use crate::location::{LogFilePosition, RecordEndLocation};
use crate::output::{OutputRequest, OutputResult};
use crate::validation::index_file_validator::{IndexRecoveryState, IndexStage};
use crate::validation::IndexFileValidationError;

verus! {

impl IndexRecoveryState {
    /// Whether `bytes` hold the trusted entry with its certified position.
    pub open spec fn trusts(self, bytes: Seq<u8>) -> bool {
        &&& bytes.len() >= self.suffix_start()
        &&& self.last_trusted matches Some(end) ==> index_entry::entry(
            bytes,
            self.trusted_count() - 1,
        ) == end.position.0
    }

    /// The contents that recovery gives to a file with the given contents: the trusted entries as
    /// they are, then exactly the supplied ones.
    pub open spec fn recovered(self, bytes: Seq<u8>) -> Seq<u8> {
        bytes.take(self.suffix_start()) + index_entry::encode(self.suffix_ends)
    }

    /// What holds of the file between two operations, `bytes` being its contents at the beginning.
    pub open spec fn matches_file(self, bytes: Seq<u8>, image: FileImage) -> bool {
        let kept = bytes.take(self.suffix_start());
        &&& self.wf()
        &&& match self.stage {
            IndexStage::ReadLength => image.bytes == bytes,
            IndexStage::SeekEntry => image.bytes == bytes && bytes.len() >= self.suffix_start(),
            IndexStage::ReadEntry => {
                &&& image.bytes == bytes
                &&& bytes.len() >= self.suffix_start()
                &&& image.cursor == self.suffix_start() - INDEX_ENTRY_LEN
            },
            IndexStage::Truncate => image.bytes == bytes && self.trusts(bytes),
            IndexStage::SeekSuffix => image.bytes == kept && self.trusts(bytes),
            IndexStage::Send => {
                &&& self.trusts(bytes)
                &&& image.bytes + self.output.unsent() == self.recovered(bytes)
                &&& image.cursor == image.bytes.len()
            },
            IndexStage::Flush | IndexStage::Synchronize => {
                self.trusts(bytes) && image.bytes == self.recovered(bytes)
            },
            IndexStage::Finished => {
                &&& self.trusts(bytes)
                &&& image.bytes == self.recovered(bytes)
                &&& image.durable == image.bytes
            },
        }
    }

    /// A step keeps the relation between the recovery and its file.
    pub proof fn lemma_step_matches_file(
        self,
        bytes: Seq<u8>,
        image: FileImage,
        reply: FileReply,
        next: IndexRecoveryState,
        after: FileImage,
    )
        requires
            self.matches_file(bytes, image),
            self.request() is Some,
            image.serves(self.request()->0, self.output.unsent(), reply, after),
            self.resumed(reply, Ok(next)),
        ensures
            next.matches_file(bytes, after),
            next.last_trusted == self.last_trusted,
            next.suffix_ends == self.suffix_ends,
    {
        index_entry::lemma_encoded_length(self.suffix_ends);
        match self.stage {
            IndexStage::ReadEntry => {
                assert(image.bytes.subrange(image.cursor as int, image.cursor as int + 8)
                    == bytes.subrange(
                    8 * (self.trusted_count() - 1),
                    8 * (self.trusted_count() - 1) + 8,
                ));
            },
            IndexStage::Truncate => {
                FileImage::lemma_shortening_keeps_a_prefix(bytes, self.suffix_start() as nat);
            },
            IndexStage::SeekSuffix => {
                assert(next.output.unsent() =~= self.output.bytes);
                if self.output.bytes.len() == 0 {
                    assert(self.recovered(bytes) =~= after.bytes);
                }
            },
            IndexStage::Send => {
                if let FileReply::Accepted(accepted) = reply {
                    let offered = self.output.unsent();
                    let taken = offered.take(accepted as int);
                    FileImage::lemma_writing_at_the_end_appends(image.bytes, taken);
                    if next.stage == IndexStage::Send {
                        self.output.a_reply_moves_bytes_once(
                            Ok(accepted),
                            next.output,
                            OutputResult::Ok(Some(OutputRequest::Write)),
                        );
                        assert(image.bytes + offered =~= (image.bytes + taken)
                            + next.output.unsent());
                    } else {
                        assert(taken =~= offered);
                    }
                }
            },
            _ => {},
        }
    }
}

/// A recovery together with the file it works on: `states` and `images` have one element more than
/// there are replies.
pub struct IndexRecoveryRun {
    pub states: Seq<IndexRecoveryState>,
    pub images: Seq<FileImage>,
    pub replies: Seq<FileReply>,
}

impl IndexRecoveryRun {
    /// Whether the `step`-th reply is what the file gave to the request and what the recovery went
    /// on with.
    pub open spec fn is_step(self, step: int) -> bool {
        &&& self.states[step].request() is Some
        &&& self.images[step].serves(
            self.states[step].request()->0,
            self.states[step].output.unsent(),
            self.replies[step],
            self.images[step + 1],
        )
        &&& self.states[step].resumed(self.replies[step], Ok(self.states[step + 1]))
    }

    /// Whether the run begins a recovery and goes on with it, so far without an error.
    pub open spec fn proceeds(self) -> bool {
        &&& self.states.len() == self.replies.len() + 1
        &&& self.images.len() == self.states.len()
        &&& self.states[0] == IndexRecoveryState::initial(
            self.states[0].last_trusted,
            self.states[0].suffix_ends,
        )
        &&& self.states[0].wf()
        &&& forall|step: int| 0 <= step < self.replies.len() ==> #[trigger] self.is_step(step)
    }

    proof fn lemma_matches_file(self, step: int)
        requires
            self.proceeds(),
            0 <= step < self.states.len(),
        ensures
            self.states[step].matches_file(self.images[0].bytes, self.images[step]),
            self.states[step].last_trusted == self.states[0].last_trusted,
            self.states[step].suffix_ends == self.states[0].suffix_ends,
        decreases step,
    {
        if step > 0 {
            self.lemma_matches_file(step - 1);
            assert(self.is_step(step - 1));
            self.states[step - 1].lemma_step_matches_file(
                self.images[0].bytes,
                self.images[step - 1],
                self.replies[step - 1],
                self.states[step],
                self.images[step],
            );
        }
    }

    /// A finished recovery has kept the trusted entries, has put exactly the supplied entries
    /// behind them, and has made the result durable.
    pub proof fn a_finished_recovery_has_replaced_the_suffix(self)
        requires
            self.proceeds(),
            self.states.last().stage == IndexStage::Finished,
        ensures
            self.states[0].trusts(self.images[0].bytes),
            self.images.last().bytes == self.states[0].recovered(self.images[0].bytes),
            self.images.last().durable == self.images.last().bytes,
    {
        self.lemma_matches_file(self.states.len() - 1);
    }

    /// Until the trusted entry has been found right, the file's contents stay as they are; in
    /// particular they do where a mismatch is reported.
    pub proof fn the_trusted_entry_is_checked_before_any_change(
        self,
        reply: FileReply,
        after: FileImage,
        error: IndexFileValidationError,
    )
        requires
            self.proceeds(),
            self.states.last().request() is Some,
            self.images.last().serves(
                self.states.last().request()->0,
                self.states.last().output.unsent(),
                reply,
                after,
            ),
            self.states.last().resumed(reply, Err(error)),
        ensures
            error is TrustedIndexMismatch ==> {
                &&& !self.states[0].trusts(self.images[0].bytes)
                &&& after.bytes == self.images[0].bytes
                &&& after.durable == self.images[0].durable
            },
            !self.states[0].trusts(self.images[0].bytes) ==> after.bytes == self.images[0].bytes,
    {
        let last: int = self.states.len() - 1;
        self.lemma_matches_file(last);
        let state = self.states[last];
        let image = self.images[last];
        let bytes = self.images[0].bytes;
        if state.stage == IndexStage::ReadEntry && !(reply is Failed) {
            assert(image.bytes.subrange(image.cursor as int, image.cursor as int + 8) == bytes.subrange(
                8 * (state.trusted_count() - 1),
                8 * (state.trusted_count() - 1) + 8,
            ));
        }
        if error is TrustedIndexMismatch {
            assert(state.stage == IndexStage::ReadLength || state.stage == IndexStage::ReadEntry);
            self.lemma_unchanged_before_truncation(last);
        }
    }

    proof fn lemma_unchanged_before_truncation(self, step: int)
        requires
            self.proceeds(),
            0 <= step < self.states.len(),
            self.states[step].stage == IndexStage::ReadLength || self.states[step].stage
                == IndexStage::SeekEntry || self.states[step].stage == IndexStage::ReadEntry,
        ensures
            self.images[step].durable == self.images[0].durable,
        decreases step,
    {
        if step > 0 {
            assert(self.is_step(step - 1));
            self.lemma_unchanged_before_truncation(step - 1);
        }
    }

    /// Only a failing file, a destination that accepts nothing, or an entry that does not hold the
    /// certified position can end a recovery early.
    pub proof fn recovery_of_a_trusted_file_goes_on(
        self,
        reply: FileReply,
        after: FileImage,
        result: Result<IndexRecoveryState, IndexFileValidationError>,
    )
        requires
            self.proceeds(),
            self.states.last().request() is Some,
            self.images.last().serves(
                self.states.last().request()->0,
                self.states.last().output.unsent(),
                reply,
                after,
            ),
            self.states.last().resumed(reply, result),
            self.states[0].trusts(self.images[0].bytes),
            !(reply is Failed),
            reply != FileReply::Accepted(0),
        ensures
            result is Ok,
            result->Ok_0.remaining() < self.states.last().remaining(),
    {
        let last: int = self.states.len() - 1;
        self.lemma_matches_file(last);
        self.states[last].lemma_goes_on(
            self.images[0].bytes,
            self.images[last],
            reply,
            after,
            result,
        );
    }
}

impl IndexRecoveryRun {
    /// A failed recovery names its reason. A mismatch names the trusted entry, its certified
    /// position and what the file holds in its place, which is nothing where the file is too short.
    pub proof fn a_failed_recovery_names_its_reason(
        self,
        reply: FileReply,
        after: FileImage,
        error: IndexFileValidationError,
    )
        requires
            self.proceeds(),
            self.states.last().request() is Some,
            self.images.last().serves(
                self.states.last().request()->0,
                self.states.last().output.unsent(),
                reply,
                after,
            ),
            self.states.last().resumed(reply, Err(error)),
        ensures
            match reply {
                FileReply::Failed(failure) => {
                    let request = self.states.last().request()->0;
                    if request == FileRequest::Write || request == FileRequest::Flush {
                        error == IndexFileValidationError::Write(IndexWriteError::Io(failure))
                    } else {
                        error == IndexFileValidationError::Io(failure)
                    }
                },
                FileReply::Accepted(accepted) => accepted == 0 && error is Write,
                _ => {
                    let bytes = self.images[0].bytes;
                    let count = RecordEndLocation::count(self.states[0].last_trusted);
                    &&& self.states[0].last_trusted matches Some(end)
                    &&& error == (IndexFileValidationError::TrustedIndexMismatch {
                        entry_index: (count - 1) as u64,
                        expected_position: end.position,
                        actual_position: if bytes.len() < 8 * count {
                            None
                        } else {
                            Some(LogFilePosition(index_entry::entry(bytes, count - 1)))
                        },
                    })
                    &&& bytes.len() < 8 * count || index_entry::entry(bytes, count - 1)
                        != end.position.0
                },
            },
    {
        let last: int = self.states.len() - 1;
        self.lemma_matches_file(last);
        let state = self.states[last];
        let image = self.images[last];
        let bytes = self.images[0].bytes;
        if state.stage == IndexStage::ReadEntry && !(reply is Failed) {
            assert(image.bytes.subrange(image.cursor as int, image.cursor as int + 8)
                == bytes.subrange(
                8 * (state.trusted_count() - 1),
                8 * (state.trusted_count() - 1) + 8,
            ));
        }
    }

    /// A finished recovery has flushed the file and then synchronized it, after the last of its
    /// other operations.
    pub proof fn the_file_is_flushed_and_then_synchronized(self)
        requires
            self.proceeds(),
            self.states.last().stage == IndexStage::Finished,
        ensures
            ({
                let count = self.replies.len() as int;
                &&& count >= 2
                &&& self.states[count - 2].request() == Some(FileRequest::Flush)
                &&& !(self.replies[count - 2] is Failed)
                &&& self.states[count - 1].request() == Some(FileRequest::SyncData)
                &&& !(self.replies[count - 1] is Failed)
            }),
    {
        let count = self.replies.len() as int;
        assert(self.is_step(count - 1));
        assert(self.is_step(count - 2));
    }
}

impl IndexRecoveryState {
    /// Recovery asks for a file operation until it has finished, and takes every outcome that a file
    /// can give.
    pub proof fn recovery_asks_until_it_has_finished(
        self,
        image: FileImage,
        reply: FileReply,
        after: FileImage,
    )
        ensures
            self.request() is None <==> self.stage == IndexStage::Finished,
            self.request() matches Some(request) ==> image.serves(
                request,
                self.output.unsent(),
                reply,
                after,
            ) ==> self.is_answered_by(reply),
    {
    }

    /// Upper bound on the successful replies that recovery still needs.
    pub open spec fn remaining(self) -> int {
        match self.stage {
            IndexStage::ReadLength => self.output.bytes.len() as int + 8,
            IndexStage::SeekEntry => self.output.bytes.len() as int + 7,
            IndexStage::ReadEntry => self.output.bytes.len() as int + 6,
            IndexStage::Truncate => self.output.bytes.len() as int + 5,
            IndexStage::SeekSuffix => self.output.bytes.len() as int + 4,
            IndexStage::Send => self.output.unsent().len() as int + 3,
            IndexStage::Flush => 2,
            IndexStage::Synchronize => 1,
            IndexStage::Finished => 0,
        }
    }

    /// An outcome that is no failure and accepts some of the offered bytes brings the recovery of a
    /// trusted file further.
    pub proof fn lemma_goes_on(
        self,
        bytes: Seq<u8>,
        image: FileImage,
        reply: FileReply,
        after: FileImage,
        result: Result<IndexRecoveryState, IndexFileValidationError>,
    )
        requires
            self.matches_file(bytes, image),
            self.trusts(bytes),
            self.request() is Some,
            image.serves(self.request()->0, self.output.unsent(), reply, after),
            self.resumed(reply, result),
            !(reply is Failed),
            reply != FileReply::Accepted(0),
        ensures
            result is Ok,
            result->Ok_0.remaining() < self.remaining(),
    {
        if self.stage == IndexStage::ReadEntry {
            assert(image.bytes.subrange(image.cursor as int, image.cursor as int + 8)
                == bytes.subrange(
                8 * (self.trusted_count() - 1),
                8 * (self.trusted_count() - 1) + 8,
            ));
        }
    }

    /// A later recovery behind the same trusted entry supersedes an earlier one: whatever entries
    /// the earlier one was supplied with, the file ends up as if only the later one had run.
    pub proof fn a_later_recovery_supersedes_an_earlier_one(
        self,
        later: IndexRecoveryState,
        bytes: Seq<u8>,
    )
        requires
            self.trusts(bytes),
            later.last_trusted == self.last_trusted,
        ensures
            later.trusts(self.recovered(bytes)),
            later.recovered(self.recovered(bytes)) == later.recovered(bytes),
    {
        let once = self.recovered(bytes);
        let start = self.suffix_start();
        assert(once.take(start) =~= bytes.take(start));
        if let Some(end) = self.last_trusted {
            let index = self.trusted_count() - 1;
            assert(once.subrange(8 * index, 8 * index + 8) =~= bytes.subrange(
                8 * index,
                8 * index + 8,
            ));
        }
    }

    /// Recovering a recovered file once more leaves its contents as they are.
    pub proof fn recovery_is_idempotent(self, bytes: Seq<u8>)
        requires
            self.trusts(bytes),
        ensures
            self.trusts(self.recovered(bytes)),
            self.recovered(self.recovered(bytes)) == self.recovered(bytes),
    {
        self.a_later_recovery_supersedes_an_earlier_one(self, bytes);
    }

    /// A recovered file has one entry per record: those of the trusted prefix as they were, then
    /// the supplied ones.
    pub proof fn a_recovered_index_is_dense(self, bytes: Seq<u8>)
        requires
            self.trusts(bytes),
        ensures
            self.recovered(bytes).len() == INDEX_ENTRY_LEN * (self.trusted_count()
                + self.suffix_ends.len()),
            forall|i: int|
                0 <= i < self.trusted_count() ==> index_entry::entry(self.recovered(bytes), i)
                    == #[trigger] index_entry::entry(bytes, i),
            forall|i: int|
                0 <= i < self.suffix_ends.len() ==> index_entry::entry(
                    self.recovered(bytes),
                    self.trusted_count() + i,
                ) == #[trigger] self.suffix_ends[i],
    {
        let count = self.trusted_count();
        let encoded = index_entry::encode(self.suffix_ends);
        index_entry::lemma_encoded_length(self.suffix_ends);
        index_entry::decode_undoes_encode(self.suffix_ends);
        assert forall|i: int| 0 <= i < count implies index_entry::entry(self.recovered(bytes), i)
            == #[trigger] index_entry::entry(bytes, i) by {
            assert(self.recovered(bytes).subrange(8 * i, 8 * i + 8) =~= bytes.subrange(
                8 * i,
                8 * i + 8,
            ));
        }
        assert forall|i: int| 0 <= i < self.suffix_ends.len() implies index_entry::entry(
            self.recovered(bytes),
            count + i,
        ) == #[trigger] self.suffix_ends[i] by {
            assert(index_entry::entries(encoded)[i] == index_entry::entry(encoded, i));
            assert(self.recovered(bytes).subrange(8 * (count + i), 8 * (count + i) + 8)
                =~= encoded.subrange(8 * i, 8 * i + 8));
        }
    }
}

} // verus!
