//! Turning images that arrive unevenly into a video with a constant rate.
//!
//! The video is a row of slots, one for each image that the encoder gets. An image is not
//! written when it arrives: it waits until a later slot is due, and then fills every slot up
//! to that one. So the row never has a gap, and its length is the time that has passed.
use crate::recording::frames::{FrameMetadata, ScreencastFrame};
use vstd::prelude::*;

verus! {

/// The image that arrived last, with the slot that the row has reached.
pub struct EncodedFrame {
    pub bytes: Vec<u8>,
    pub base64_data: String,
    pub metadata: FrameMetadata,
    pub timestamp_secs: serde_json::Value,
    pub frame_number: u64,
}

/// What becomes of the last image once the slots before are filled.
pub enum Successor {
    /// Another image takes its place.
    Frame(ScreencastFrame),
    /// It stays, and counts as made at this time.
    Padding { timestamp_secs: serde_json::Value },
}

/// What is being written.
pub enum WriteJob {
    Idle,
    /// The first image of all.
    Seed { frame: ScreencastFrame },
    /// The last image once more. Slot `at` is filled, and `goal` is the last one due.
    Repeat { at: u64, goal: u64, successor: Successor },
}

/// What the writer wants next.
#[derive(PartialEq, Eq, Structural, Clone, Copy)]
pub enum WriteStep {
    /// Write the pending image, and report.
    Write,
    /// Nothing more: the job is done.
    Done,
    /// Nothing more: the write failed and the job is dropped.
    Failed,
}

/// The writer of a video.
pub struct FrameWriter {
    pub first_timestamp_secs: Option<serde_json::Value>,
    /// When the first image arrived, on the clock of the recording.
    pub first_frame_received_at: Option<u64>,
    pub last_frame: Option<EncodedFrame>,
    pub job: WriteJob,
    /// How many images were written.
    pub written: u64,
}

/// The frame at its place in the row.
pub open spec fn encoded(frame: ScreencastFrame, frame_number: u64) -> EncodedFrame {
    EncodedFrame {
        bytes: frame.bytes,
        base64_data: frame.base64_data,
        metadata: frame.metadata,
        timestamp_secs: frame.timestamp_secs,
        frame_number,
    }
}

impl FrameWriter {
    /// The slot that the row has reached.
    pub open spec fn reached(self) -> Option<u64> {
        match self.last_frame {
            Some(last) => Some(last.frame_number),
            None => None,
        }
    }

    /// The writer once a job is settled, if slot `at` is filled and no more is due.
    pub open spec fn settled(self, at: u64, successor: Successor) -> FrameWriter {
        FrameWriter {
            last_frame: match successor {
                Successor::Frame(frame) => Some(encoded(frame, at)),
                Successor::Padding { timestamp_secs } => match self.last_frame {
                    Some(last) => Some(
                        EncodedFrame { timestamp_secs, frame_number: at, ..last },
                    ),
                    None => None,
                },
            },
            job: WriteJob::Idle,
            ..self
        }
    }

    /// The writer and its wish while slots up to `goal` are due and `at` is filled.
    pub open spec fn repeating(self, at: u64, goal: u64, successor: Successor) -> (
        FrameWriter,
        WriteStep,
    ) {
        if at < goal {
            (
                FrameWriter { job: WriteJob::Repeat { at, goal, successor }, ..self },
                WriteStep::Write,
            )
        } else {
            (self.settled(at, successor), WriteStep::Done)
        }
    }

    /// What an image that is due in slot `slot` and arrives at `now` does.
    pub open spec fn frame_begun(self, frame: ScreencastFrame, now: u64, slot: u64) -> (
        FrameWriter,
        WriteStep,
    ) {
        if self.first_timestamp_secs is None {
            (
                FrameWriter {
                    first_timestamp_secs: Some(frame.timestamp_secs),
                    first_frame_received_at: Some(now),
                    job: WriteJob::Seed { frame },
                    ..self
                },
                WriteStep::Write,
            )
        } else {
            match self.reached() {
                Some(at) => self.repeating(at, slot, Successor::Frame(frame)),
                None => (self.settled(slot, Successor::Frame(frame)), WriteStep::Done),
            }
        }
    }

    /// What the passing of time up to slot `slot` does.
    pub open spec fn padding_begun(self, slot: u64, timestamp_secs: serde_json::Value) -> (
        FrameWriter,
        WriteStep,
    ) {
        match self.reached() {
            Some(at) => if self.first_timestamp_secs is Some && self.first_frame_received_at is Some
                && at < slot {
                self.repeating(at, slot, Successor::Padding { timestamp_secs })
            } else {
                (self, WriteStep::Done)
            },
            None => (self, WriteStep::Done),
        }
    }

    /// What the report of a write does.
    pub open spec fn reported(self, ok: bool) -> (FrameWriter, WriteStep) {
        if !ok {
            (FrameWriter { job: WriteJob::Idle, ..self }, WriteStep::Failed)
        } else {
            let counted = FrameWriter { written: self.written.wrapping_add(1), ..self };
            match self.job {
                WriteJob::Idle => (counted, WriteStep::Done),
                WriteJob::Seed { frame } => (
                    counted.settled(0, Successor::Frame(frame)),
                    WriteStep::Done,
                ),
                WriteJob::Repeat { at, goal, successor } => counted.repeating(
                    (at + 1) as u64,
                    goal,
                    successor,
                ),
            }
        }
    }

    /// The image that a write is about.
    pub open spec fn pending(self) -> Option<Seq<u8>> {
        match self.job {
            WriteJob::Idle => None,
            WriteJob::Seed { frame } => Some(frame.bytes@),
            WriteJob::Repeat { .. } => match self.last_frame {
                Some(last) => Some(last.bytes@),
                None => None,
            },
        }
    }

    /// The parts of the writer fit together: there is a last image once one was written, and
    /// slots are filled only behind it.
    pub open spec fn well_formed(self) -> bool {
        &&& self.first_frame_received_at is Some <==> self.first_timestamp_secs is Some
        &&& self.last_frame is Some ==> self.first_timestamp_secs is Some
        &&& self.job matches WriteJob::Seed { .. } ==> self.last_frame is None
            && self.first_timestamp_secs is Some
        &&& self.job matches WriteJob::Repeat { at, goal, .. } ==> at < goal && self.last_frame
            is Some && self.last_frame->0.frame_number <= at
    }

    pub fn new() -> (writer: Self)
        ensures
            writer == fresh_writer(),
            writer.well_formed(),
    {
        FrameWriter {
            first_timestamp_secs: None,
            first_frame_received_at: None,
            last_frame: None,
            job: WriteJob::Idle,
            written: 0,
        }
    }

    /// Settles a job.
    fn settle(&mut self, at: u64, successor: Successor)
        ensures
            *final(self) == old(self).settled(at, successor),
    {
        match successor {
            Successor::Frame(frame) => {
                self.last_frame = Some(
                    EncodedFrame {
                        bytes: frame.bytes,
                        base64_data: frame.base64_data,
                        metadata: frame.metadata,
                        timestamp_secs: frame.timestamp_secs,
                        frame_number: at,
                    },
                );
            },
            Successor::Padding { timestamp_secs } => {
                if let Some(last) = self.last_frame.take() {
                    self.last_frame = Some(
                        EncodedFrame {
                            bytes: last.bytes,
                            base64_data: last.base64_data,
                            metadata: last.metadata,
                            timestamp_secs,
                            frame_number: at,
                        },
                    );
                }
            },
        }
        self.job = WriteJob::Idle;
    }

    fn repeat(&mut self, at: u64, goal: u64, successor: Successor) -> (step: WriteStep)
        ensures
            (*final(self), step) == old(self).repeating(at, goal, successor),
    {
        if at < goal {
            self.job = WriteJob::Repeat { at, goal, successor };
            WriteStep::Write
        } else {
            self.settle(at, successor);
            WriteStep::Done
        }
    }

    /// Takes an image that arrives at `now`. `slot` is the place that its time gives it in the
    /// row; the first image has none and ignores it.
    pub fn begin_frame(&mut self, frame: ScreencastFrame, now: u64, slot: u64) -> (step: WriteStep)
        requires
            old(self).well_formed(),
            old(self).job is Idle,
        ensures
            (*final(self), step) == old(self).frame_begun(frame, now, slot),
            final(self).well_formed(),
    {
        if self.first_timestamp_secs.is_none() {
            self.first_timestamp_secs = Some(crate::json::copy_of(&frame.timestamp_secs));
            self.first_frame_received_at = Some(now);
            self.job = WriteJob::Seed { frame };
            return WriteStep::Write;
        }
        let reached = match &self.last_frame {
            Some(last) => Some(last.frame_number),
            None => None,
        };
        match reached {
            Some(at) => self.repeat(at, slot, Successor::Frame(frame)),
            None => {
                self.settle(slot, Successor::Frame(frame));
                WriteStep::Done
            },
        }
    }

    /// Lets time pass up to slot `slot`. `timestamp_secs` is the time of that slot.
    pub fn begin_padding(&mut self, slot: u64, timestamp_secs: serde_json::Value) -> (step:
        WriteStep)
        requires
            old(self).well_formed(),
            old(self).job is Idle,
        ensures
            (*final(self), step) == old(self).padding_begun(slot, timestamp_secs),
            final(self).well_formed(),
    {
        let reached = match &self.last_frame {
            Some(last) => Some(last.frame_number),
            None => None,
        };
        match reached {
            Some(at) => if self.first_timestamp_secs.is_some()
                && self.first_frame_received_at.is_some() && at < slot {
                self.repeat(at, slot, Successor::Padding { timestamp_secs })
            } else {
                WriteStep::Done
            },
            None => WriteStep::Done,
        }
    }

    /// Takes the report of the write that was asked for.
    pub fn report(&mut self, ok: bool) -> (step: WriteStep)
        requires
            old(self).well_formed(),
            !(old(self).job is Idle),
        ensures
            (*final(self), step) == old(self).reported(ok),
            final(self).well_formed(),
    {
        let mut job = WriteJob::Idle;
        std::mem::swap(&mut job, &mut self.job);
        if !ok {
            return WriteStep::Failed;
        }
        self.written = self.written.wrapping_add(1);
        match job {
            WriteJob::Idle => WriteStep::Done,
            WriteJob::Seed { frame } => {
                self.settle(0, Successor::Frame(frame));
                WriteStep::Done
            },
            WriteJob::Repeat { at, goal, successor } => self.repeat(at + 1, goal, successor),
        }
    }

    /// The image to write.
    pub fn pending_image(&self) -> (image: Option<&Vec<u8>>)
        ensures
            match image {
                Some(bytes) => self.pending() == Some(bytes@),
                None => self.pending() is None,
            },
    {
        match &self.job {
            WriteJob::Idle => None,
            WriteJob::Seed { frame } => Some(&frame.bytes),
            WriteJob::Repeat { .. } => match &self.last_frame {
                Some(last) => Some(&last.bytes),
                None => None,
            },
        }
    }
}

/// What reaches the writer of a video.
pub enum Arrival {
    /// An image arrives at `now`, and its time gives it the slot `slot`.
    Frame { frame: ScreencastFrame, now: u64, slot: u64 },
    /// Time has passed up to the slot `slot`.
    Time { slot: u64, timestamp_secs: serde_json::Value },
}

impl FrameWriter {
    /// How many writes the job still takes.
    pub open spec fn writes_left(self) -> nat {
        match self.job {
            WriteJob::Idle => 0,
            WriteJob::Seed { .. } => 1,
            WriteJob::Repeat { at, goal, .. } => if at < goal {
                (goal - at) as nat
            } else {
                0
            },
        }
    }

    /// The writer once its job is done, if no write fails.
    pub open spec fn job_done(self) -> FrameWriter
        decreases self.writes_left(),
    {
        if self.writes_left() == 0 || self.reported(true).0.writes_left() >= self.writes_left() {
            self
        } else {
            self.reported(true).0.job_done()
        }
    }

    /// The images that the job writes, if no write fails.
    pub open spec fn job_images(self) -> Seq<Seq<u8>>
        decreases self.writes_left(),
    {
        if self.writes_left() == 0 || self.reported(true).0.writes_left() >= self.writes_left() {
            seq![]
        } else {
            seq![self.pending()->0] + self.reported(true).0.job_images()
        }
    }

    /// The writer with the job that an arrival gives it.
    pub open spec fn begun(self, arrival: Arrival) -> FrameWriter {
        match arrival {
            Arrival::Frame { frame, now, slot } => self.frame_begun(frame, now, slot).0,
            Arrival::Time { slot, timestamp_secs } => self.padding_begun(slot, timestamp_secs).0,
        }
    }

    /// No job is going on, and there are as many images as the row has slots, counted as a
    /// `u64` counts.
    pub open spec fn in_pace(self) -> bool {
        &&& self.well_formed()
        &&& self.job is Idle
        &&& match self.reached() {
            Some(at) => self.written == at.wrapping_add(1),
            None => self.written == 0 && self.first_timestamp_secs is None,
        }
    }
}

impl FrameWriter {
    /// There are as many images as slots are filled, also while a job goes on, counted as a
    /// `u64` counts.
    pub open spec fn keeps_pace(self) -> bool {
        match self.job {
            WriteJob::Idle => self.in_pace(),
            WriteJob::Seed { .. } => self.well_formed() && self.written == 0,
            WriteJob::Repeat { at, .. } => self.well_formed() && self.written == at.wrapping_add(1),
        }
    }
}

/// A writer that has had no image.
pub open spec fn fresh_writer() -> FrameWriter {
    FrameWriter {
        first_timestamp_secs: None,
        first_frame_received_at: None,
        last_frame: None,
        job: WriteJob::Idle,
        written: 0,
    }
}

/// The writer after all of `arrivals`, if no write fails.
pub open spec fn writer_after(arrivals: Seq<Arrival>) -> FrameWriter
    decreases arrivals.len(),
{
    if arrivals.len() == 0 {
        fresh_writer()
    } else {
        writer_after(arrivals.drop_last()).begun(arrivals.last()).job_done()
    }
}

/// The images of the video after all of `arrivals`, if no write fails.
pub open spec fn video(arrivals: Seq<Arrival>) -> Seq<Seq<u8>>
    decreases arrivals.len(),
{
    if arrivals.len() == 0 {
        seq![]
    } else {
        video(arrivals.drop_last()) + writer_after(arrivals.drop_last()).begun(
            arrivals.last(),
        ).job_images()
    }
}

/// A job that repeats the last image fills its slots with that image, one write for each.
proof fn lemma_repeat(writer: FrameWriter)
    requires
        writer.well_formed(),
        writer.job is Repeat,
    ensures
        ({
            let at = writer.job->at;
            let goal = writer.job->goal;
            let done = writer.job_done();
            let images = writer.job_images();
            &&& done == (FrameWriter { written: done.written, ..writer }).settled(
                goal,
                writer.job->successor,
            )
            &&& writer.written == at.wrapping_add(1) ==> done.written == goal.wrapping_add(1)
            &&& images.len() == goal - at
            &&& forall|k: int|
                0 <= k < images.len() ==> #[trigger] images[k] == writer.last_frame->0.bytes@
        }),
    decreases writer.writes_left(),
{
    let at = writer.job->at;
    let goal = writer.job->goal;
    let next = writer.reported(true).0;
    if at + 1 < goal {
        lemma_repeat(next);
        assert(next.job_done() == writer.job_done());
        let rest = next.job_images();
        let images = writer.job_images();
        assert(images == seq![writer.pending()->0] + rest);
        assert forall|k: int| 0 <= k < images.len() implies #[trigger] images[k]
            == writer.last_frame->0.bytes@ by {
            if k > 0 {
                assert(images[k] == rest[k - 1]);
            }
        }
    } else {
        assert(next.writes_left() == 0);
        assert(next.job_done() == next);
        assert(next.job_images() =~= seq![]);
        assert(writer.job_done() == next);
        assert(writer.job_images() =~= seq![writer.pending()->0]);
    }
}

/// What one arrival adds to a video: the slots up to the one that is due, all with the image
/// that was there before, or the very first image.
proof fn lemma_arrival(writer: FrameWriter, arrival: Arrival)
    requires
        writer.in_pace(),
    ensures
        ({
            let begun = writer.begun(arrival);
            let done = begun.job_done();
            let images = begun.job_images();
            &&& done.in_pace()
            &&& match writer.last_frame {
                Some(last) => {
                    let slot = match arrival {
                        Arrival::Frame { slot, .. } => slot,
                        Arrival::Time { slot, .. } => slot,
                    };
                    &&& done.last_frame is Some
                    &&& done.last_frame->0.frame_number == (if last.frame_number < slot {
                        slot
                    } else {
                        last.frame_number
                    })
                    &&& images.len() == done.last_frame->0.frame_number - last.frame_number
                    &&& forall|k: int| 0 <= k < images.len() ==> #[trigger] images[k] == last.bytes@
                    &&& done.last_frame->0.bytes == (match arrival {
                        Arrival::Frame { frame, .. } => frame.bytes,
                        Arrival::Time { .. } => last.bytes,
                    })
                },
                None => match arrival {
                    Arrival::Frame { frame, .. } => {
                        &&& done.last_frame is Some
                        &&& done.last_frame->0.frame_number == 0
                        &&& done.last_frame->0.bytes == frame.bytes
                        &&& images == seq![frame.bytes@]
                    },
                    Arrival::Time { .. } => done == writer && images == Seq::<Seq<u8>>::empty(),
                },
            }
        }),
{
    let begun = writer.begun(arrival);
    match begun.job {
        WriteJob::Idle => {
            assert(begun.job_done() == begun);
            assert(begun.job_images() =~= seq![]);
        },
        WriteJob::Seed { frame } => {
            let next = begun.reported(true).0;
            assert(next.writes_left() == 0);
            assert(next.job_done() == next);
            assert(next.job_images() =~= seq![]);
            assert(begun.job_done() == next);
            assert(begun.job_images() =~= seq![frame.bytes@]);
        },
        WriteJob::Repeat { .. } => {
            lemma_repeat(begun);
        },
    }
}

/// The video has a constant rate: whatever arrives, and however unevenly, it has exactly one
/// image for each slot from the first to the one that the writer has reached, and none before
/// the first image arrives. The writer counts them.
pub proof fn law_video_has_a_constant_rate(arrivals: Seq<Arrival>)
    ensures
        writer_after(arrivals).in_pace(),
        video(arrivals).len() == (match writer_after(arrivals).reached() {
            Some(at) => at + 1,
            None => 0,
        }),
    decreases arrivals.len(),
{
    if arrivals.len() > 0 {
        law_video_has_a_constant_rate(arrivals.drop_last());
        lemma_arrival(writer_after(arrivals.drop_last()), arrivals.last());
    }
}

/// The video lasts as long as the recording: once time has passed up to a slot, the video
/// fills that slot. What was there stays, and the slots that were added show the image that
/// arrived last.
pub proof fn law_video_keeps_up_with_time(
    arrivals: Seq<Arrival>,
    slot: u64,
    timestamp_secs: serde_json::Value,
)
    requires
        writer_after(arrivals).last_frame is Some,
    ensures
        ({
            let before = video(arrivals);
            let after = video(arrivals.push(Arrival::Time { slot, timestamp_secs }));
            &&& after.len() == (if before.len() < slot + 1 {
                slot + 1
            } else {
                before.len() as int
            })
            &&& after.take(before.len() as int) == before
            &&& forall|k: int|
                before.len() <= k < after.len() ==> #[trigger] after[k] == writer_after(
                    arrivals,
                ).last_frame->0.bytes@
        }),
{
    let arrival = Arrival::Time { slot, timestamp_secs };
    lemma_appended(arrivals, arrival);
}

/// An image that arrives shows from the slot after its own: up to its own slot the video still
/// shows the image before. One that arrives for a slot that is filled already takes the place
/// of the image before without a slot being added.
pub proof fn law_image_shows_after_its_slot(
    arrivals: Seq<Arrival>,
    frame: ScreencastFrame,
    now: u64,
    slot: u64,
)
    requires
        writer_after(arrivals).last_frame is Some,
    ensures
        ({
            let before = video(arrivals);
            let arrived = arrivals.push(Arrival::Frame { frame, now, slot });
            let after = video(arrived);
            &&& after.len() == (if before.len() < slot + 1 {
                slot + 1
            } else {
                before.len() as int
            })
            &&& after.take(before.len() as int) == before
            &&& forall|k: int|
                before.len() <= k < after.len() ==> #[trigger] after[k] == writer_after(
                    arrivals,
                ).last_frame->0.bytes@
            &&& writer_after(arrived).last_frame is Some
            &&& writer_after(arrived).last_frame->0.bytes == frame.bytes
        }),
{
    let arrival = Arrival::Frame { frame, now, slot };
    lemma_appended(arrivals, arrival);
}

proof fn lemma_appended(arrivals: Seq<Arrival>, arrival: Arrival)
    requires
        writer_after(arrivals).last_frame is Some,
    ensures
        ({
            let slot = match arrival {
                Arrival::Frame { slot, .. } => slot,
                Arrival::Time { slot, .. } => slot,
            };
            let before = video(arrivals);
            let after = video(arrivals.push(arrival));
            &&& after.len() == (if before.len() < slot + 1 {
                slot + 1
            } else {
                before.len() as int
            })
            &&& after.take(before.len() as int) == before
            &&& forall|k: int|
                before.len() <= k < after.len() ==> #[trigger] after[k] == writer_after(
                    arrivals,
                ).last_frame->0.bytes@
            &&& writer_after(arrivals.push(arrival)).last_frame is Some
            &&& arrival matches Arrival::Frame { frame, .. } ==> writer_after(
                arrivals.push(arrival),
            ).last_frame->0.bytes == frame.bytes
        }),
{
    let writer = writer_after(arrivals);
    law_video_has_a_constant_rate(arrivals);
    lemma_arrival(writer, arrival);
    assert(arrivals.push(arrival).drop_last() =~= arrivals);
    let before = video(arrivals);
    let images = writer.begun(arrival).job_images();
    let after = video(arrivals.push(arrival));
    assert(after == before + images);
    assert(after.take(before.len() as int) =~= before);
    assert forall|k: int| before.len() <= k < after.len() implies #[trigger] after[k]
        == writer.last_frame->0.bytes@ by {
        assert(after[k] == images[k - before.len()]);
    }
}

/// Whatever arrives and is written, there are always as many images as slots are filled; only
/// a write that fails can change that.
pub proof fn law_writer_keeps_pace(writer: FrameWriter, arrival: Arrival)
    requires
        writer.keeps_pace(),
    ensures
        writer.job is Idle ==> writer.begun(arrival).keeps_pace(),
        !(writer.job is Idle) ==> writer.reported(true).0.keeps_pace(),
{
}

} // verus!
