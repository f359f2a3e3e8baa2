//! The command line of the encoder.
use crate::text::{ends_with_text, has_suffix, texts_of};
use vstd::prelude::*;

verus! {

/// A program and its arguments.
pub struct EncoderCommand {
    pub program: String,
    pub args: Vec<String>,
}

/// How the encoder reads: images from its input, each as it comes, at the rate of the video,
/// over whatever file is there.
pub open spec fn input_args() -> Seq<Seq<char>> {
    seq![
        "-loglevel"@, "error"@,
        "-f"@, "image2pipe"@,
        "-avioflags"@, "direct"@,
        "-fpsprobesize"@, "0"@,
        "-probesize"@, "32"@,
        "-analyzeduration"@, "0"@,
        "-c:v"@, "mjpeg"@,
        "-i"@, "pipe:0"@,
        "-y"@, "-an"@,
        "-r"@, "25"@,
    ]
}

/// How the encoder writes a WebM file.
pub open spec fn webm_args() -> Seq<Seq<char>> {
    seq![
        "-c:v"@, "vp8"@,
        "-qmin"@, "0"@,
        "-qmax"@, "50"@,
        "-crf"@, "8"@,
        "-deadline"@, "realtime"@,
        "-speed"@, "8"@,
        "-b:v"@, "1M"@,
    ]
}

/// How the encoder writes any other file.
pub open spec fn h264_args() -> Seq<Seq<char>> {
    seq!["-c:v"@, "libx264"@, "-preset"@, "ultrafast"@]
}

/// How the encoder ends its picture and where it writes to.
pub open spec fn output_args(output_path: Seq<char>) -> Seq<Seq<char>> {
    seq!["-threads"@, "1"@, "-vf"@, "pad=ceil(iw/2)*2:ceil(ih/2)*2"@, output_path]
}

/// All arguments of the encoder for a file.
pub open spec fn encoder_args(output_path: Seq<char>) -> Seq<Seq<char>> {
    input_args() + (if ends_with_text(output_path, ".webm"@) {
        webm_args()
    } else {
        h264_args()
    }) + output_args(output_path)
}

fn push(args: &mut Vec<String>, name: &str, value: &str)
    ensures
        texts_of(final(args)@) == texts_of(old(args)@).push(name@).push(value@),
{
    args.push(name.to_owned());
    args.push(value.to_owned());
    assert(texts_of(args@) =~= texts_of(old(args)@).push(name@).push(value@));
}

/// The command line that encodes a recording to a file.
pub fn build_ffmpeg_command(output_path: &str) -> (command: EncoderCommand)
    ensures
        command.program@ == "ffmpeg"@,
        texts_of(command.args@) == encoder_args(output_path@),
{
    let mut args: Vec<String> = Vec::new();
    assert(texts_of(args@) =~= seq![]);
    push(&mut args, "-loglevel", "error");
    push(&mut args, "-f", "image2pipe");
    push(&mut args, "-avioflags", "direct");
    push(&mut args, "-fpsprobesize", "0");
    push(&mut args, "-probesize", "32");
    push(&mut args, "-analyzeduration", "0");
    push(&mut args, "-c:v", "mjpeg");
    push(&mut args, "-i", "pipe:0");
    push(&mut args, "-y", "-an");
    push(&mut args, "-r", "25");
    assert(texts_of(args@) =~= input_args());
    if has_suffix(output_path, ".webm") {
        push(&mut args, "-c:v", "vp8");
        push(&mut args, "-qmin", "0");
        push(&mut args, "-qmax", "50");
        push(&mut args, "-crf", "8");
        push(&mut args, "-deadline", "realtime");
        push(&mut args, "-speed", "8");
        push(&mut args, "-b:v", "1M");
        assert(texts_of(args@) =~= input_args() + webm_args());
    } else {
        push(&mut args, "-c:v", "libx264");
        push(&mut args, "-preset", "ultrafast");
        assert(texts_of(args@) =~= input_args() + h264_args());
    }
    let ghost front = texts_of(args@);
    push(&mut args, "-threads", "1");
    push(&mut args, "-vf", "pad=ceil(iw/2)*2:ceil(ih/2)*2");
    let ghost almost = texts_of(args@);
    args.push(output_path.to_owned());
    assert(texts_of(args@) =~= almost.push(output_path@));
    assert(texts_of(args@) =~= front + output_args(output_path@));
    EncoderCommand { program: "ffmpeg".to_owned(), args }
}

} // verus!
