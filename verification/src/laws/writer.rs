//! What is kept of an image until it is written, and what a failed write leaves.
use crate::recording::frames::ScreencastFrame;
use crate::recording::writer::{
    fresh_writer, Arrival, EncodedFrame, FrameWriter, Successor, WriteJob, WriteStep,
};
use vstd::prelude::*;

verus! {

/// `last` is the image `frame`: its bytes, its text, what is known of it, and its time.
pub open spec fn is_kept(last: EncodedFrame, frame: ScreencastFrame) -> bool {
    &&& last.bytes == frame.bytes
    &&& last.base64_data == frame.base64_data
    &&& last.metadata == frame.metadata
    &&& last.timestamp_secs == frame.timestamp_secs
}

/// The first image of all is written at once; it starts the clock of the video with its own time
/// and with the time at which it arrived, and once it is written it is the last image, in the
/// first slot.
pub proof fn law_first_image_starts_the_video(
    writer: FrameWriter,
    frame: ScreencastFrame,
    now: u64,
    slot: u64,
)
    requires
        writer.well_formed(),
        writer.job is Idle,
        writer.first_timestamp_secs is None,
    ensures
        ({
            let (begun, step) = writer.frame_begun(frame, now, slot);
            let (after, done) = begun.reported(true);
            &&& step == WriteStep::Write
            &&& begun.pending() == Some(frame.bytes@)
            &&& begun.first_timestamp_secs == Some(frame.timestamp_secs)
            &&& begun.first_frame_received_at == Some(now)
            &&& done == WriteStep::Done
            &&& after.job is Idle
            &&& after.last_frame is Some
            &&& is_kept(after.last_frame->0, frame)
            &&& after.last_frame->0.frame_number == 0
            &&& after.first_timestamp_secs == Some(frame.timestamp_secs)
            &&& after.first_frame_received_at == Some(now)
            &&& after.written == writer.written.wrapping_add(1)
        }),
{
}

/// A later image has the image before it written once for each slot up to its own, and is then the
/// last image itself, with all that is known of it, in its own slot, or in the one that was reached
/// where that is later. Where no slot is due it takes the place of the image before at once.
pub proof fn law_later_image_is_kept(
    writer: FrameWriter,
    last: EncodedFrame,
    frame: ScreencastFrame,
    now: u64,
    slot: u64,
)
    requires
        writer.well_formed(),
        writer.job is Idle,
        writer.last_frame == Some(last),
    ensures
        ({
            let (begun, step) = writer.frame_begun(frame, now, slot);
            &&& begun.first_timestamp_secs == writer.first_timestamp_secs
            &&& begun.first_frame_received_at == writer.first_frame_received_at
            &&& begun.written == writer.written
            &&& last.frame_number < slot ==> {
                &&& step == WriteStep::Write
                &&& begun.last_frame == writer.last_frame
                &&& begun.pending() == Some(last.bytes@)
                &&& begun.job == (WriteJob::Repeat {
                    at: last.frame_number,
                    goal: slot,
                    successor: Successor::Frame(frame),
                })
            }
            &&& last.frame_number >= slot ==> {
                &&& step == WriteStep::Done
                &&& begun.job is Idle
                &&& begun.last_frame is Some
                &&& is_kept(begun.last_frame->0, frame)
                &&& begun.last_frame->0.frame_number == last.frame_number
            }
        }),
{
}

/// Time that passes has the last image written once for each slot up to the one that is due, and
/// changes nothing of that image but its slot and its time. Where no slot is due, or no image is
/// there, it changes nothing at all.
pub proof fn law_time_repeats_the_last_image(
    writer: FrameWriter,
    slot: u64,
    timestamp_secs: serde_json::Value,
)
    requires
        writer.well_formed(),
        writer.job is Idle,
    ensures
        ({
            let (begun, step) = writer.padding_begun(slot, timestamp_secs);
            match writer.last_frame {
                Some(last) => if last.frame_number < slot {
                    &&& step == WriteStep::Write
                    &&& begun == (FrameWriter {
                        job: WriteJob::Repeat {
                            at: last.frame_number,
                            goal: slot,
                            successor: Successor::Padding { timestamp_secs },
                        },
                        ..writer
                    })
                } else {
                    step == WriteStep::Done && begun == writer
                },
                None => step == WriteStep::Done && begun == writer,
            }
        }),
{
}

/// A write that succeeded is counted and fills one more slot. When slots are still due the last
/// image is written again; with the last of them the job is settled: another image takes the place
/// of the last one, or the last one stays, in the slot that was due.
pub proof fn law_write_fills_one_slot(
    writer: FrameWriter,
    last: EncodedFrame,
    at: u64,
    goal: u64,
    frame: ScreencastFrame,
    timestamp_secs: serde_json::Value,
    successor: Successor,
)
    requires
        writer.well_formed(),
        writer.last_frame == Some(last),
        writer.job == (WriteJob::Repeat { at, goal, successor }),
    ensures
        ({
            let (after, step) = writer.reported(true);
            &&& writer.pending() == Some(last.bytes@)
            &&& after.written == writer.written.wrapping_add(1)
            &&& after.first_timestamp_secs == writer.first_timestamp_secs
            &&& after.first_frame_received_at == writer.first_frame_received_at
            &&& at + 1 < goal ==> {
                &&& step == WriteStep::Write
                &&& after.last_frame == Some(last)
                &&& after.job == (WriteJob::Repeat { at: (at + 1) as u64, goal, successor })
            }
            &&& at + 1 == goal ==> {
                &&& step == WriteStep::Done
                &&& after.job is Idle
                &&& after.last_frame is Some
                &&& after.last_frame->0.frame_number == goal
                &&& successor == Successor::Frame(frame) ==> is_kept(after.last_frame->0, frame)
                &&& successor == (Successor::Padding { timestamp_secs })
                    ==> after.last_frame->0.bytes == last.bytes && after.last_frame->0.base64_data
                    == last.base64_data && after.last_frame->0.metadata == last.metadata
                    && after.last_frame->0.timestamp_secs == timestamp_secs
            }
        }),
{
}

/// A write that failed is not counted, ends its job, and leaves the last image and its slot.
pub proof fn law_failed_write_leaves_the_video(writer: FrameWriter)
    ensures
        ({
            let (after, step) = writer.reported(false);
            &&& step == WriteStep::Failed
            &&& after.job is Idle
            &&& after.written == writer.written
            &&& after.last_frame == writer.last_frame
            &&& after.first_timestamp_secs == writer.first_timestamp_secs
            &&& after.first_frame_received_at == writer.first_frame_received_at
        }),
{
}

/// A new writer has had no image, has no job and has written nothing; and what arrives begins the
/// job of an image or of time, as it is the one or the other.
pub proof fn law_new_writer_is_empty(
    writer: FrameWriter,
    frame: ScreencastFrame,
    now: u64,
    slot: u64,
    timestamp_secs: serde_json::Value,
)
    ensures
        fresh_writer().first_timestamp_secs is None,
        fresh_writer().first_frame_received_at is None,
        fresh_writer().last_frame is None,
        fresh_writer().job is Idle,
        fresh_writer().written == 0,
        fresh_writer().well_formed(),
        writer.begun(Arrival::Frame { frame, now, slot }) == writer.frame_begun(
            frame,
            now,
            slot,
        ).0,
        writer.begun(Arrival::Time { slot, timestamp_secs }) == writer.padding_begun(
            slot,
            timestamp_secs,
        ).0,
{
}

/// What fits together in a writer: the two times of the first image come together, and before any
/// other image; the first image is written before there is a last one; and slots are filled one
/// after another, behind the last image, up to the one that is due.
pub proof fn law_parts_of_a_writer_fit(writer: FrameWriter)
    ensures
        writer.well_formed() <==> {
            &&& writer.first_frame_received_at is Some == writer.first_timestamp_secs is Some
            &&& writer.first_timestamp_secs is None ==> writer.last_frame is None && writer.job
                is Idle
            &&& writer.job is Seed ==> writer.last_frame is None
            &&& writer.job matches WriteJob::Repeat { at, goal, .. } ==> at < goal
                && writer.last_frame is Some && writer.last_frame->0.frame_number <= at
        },
{
}

/// Where the first image was never written, the next one is the last image at once, in its own
/// slot, and nothing is written for it.
pub proof fn law_image_after_a_lost_one_is_kept(
    writer: FrameWriter,
    frame: ScreencastFrame,
    now: u64,
    slot: u64,
)
    requires
        writer.job is Idle,
        writer.first_timestamp_secs is Some,
        writer.last_frame is None,
    ensures
        ({
            let (after, step) = writer.frame_begun(frame, now, slot);
            &&& step == WriteStep::Done
            &&& after.job is Idle
            &&& after.last_frame is Some
            &&& is_kept(after.last_frame->0, frame)
            &&& after.last_frame->0.frame_number == slot
            &&& after.written == writer.written
            &&& after.first_timestamp_secs == writer.first_timestamp_secs
            &&& after.first_frame_received_at == writer.first_frame_received_at
        }),
{
}

} // verus!
