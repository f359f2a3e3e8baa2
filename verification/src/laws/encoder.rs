//! What the encoder is told.
use crate::recording::ffmpeg::encoder_args;
use crate::text::ends_with_text;
use vstd::prelude::*;

verus! {

/// For every path, the encoder reads JPEG images from its input, with all that is said of the
/// reading in front of it; it overwrites the file, writes twenty-five images a second with their
/// sides padded to even numbers, and writes to that path, which it is told last. What it writes is
/// VP8 exactly for a path that ends in `.webm`, and H.264 for every other.
pub proof fn law_encoder_writes_to_the_path(path: Seq<char>)
    ensures
        ({
            let args = encoder_args(path);
            &&& args.len() > 0
            &&& args.last() == path
            &&& args[0] == "-loglevel"@ && args[1] == "error"@
            &&& args[2] == "-f"@ && args[3] == "image2pipe"@
            &&& args[4] == "-avioflags"@ && args[5] == "direct"@
            &&& args[6] == "-fpsprobesize"@ && args[7] == "0"@
            &&& args[8] == "-probesize"@ && args[9] == "32"@
            &&& args[10] == "-analyzeduration"@ && args[11] == "0"@
            &&& args[12] == "-c:v"@ && args[13] == "mjpeg"@
            &&& args[14] == "-i"@ && args[15] == "pipe:0"@
            &&& args[16] == "-y"@ && args[17] == "-an"@
            &&& args[18] == "-r"@ && args[19] == "25"@
            &&& args[args.len() - 5] == "-threads"@ && args[args.len() - 4] == "1"@
            &&& args[args.len() - 3] == "-vf"@ && args[args.len() - 2]
                == "pad=ceil(iw/2)*2:ceil(ih/2)*2"@
            &&& ends_with_text(path, ".webm"@) ==> {
                &&& args.len() == 39
                &&& args[20] == "-c:v"@ && args[21] == "vp8"@
                &&& args[22] == "-qmin"@ && args[23] == "0"@
                &&& args[24] == "-qmax"@ && args[25] == "50"@
                &&& args[26] == "-crf"@ && args[27] == "8"@
                &&& args[28] == "-deadline"@ && args[29] == "realtime"@
                &&& args[30] == "-speed"@ && args[31] == "8"@
                &&& args[32] == "-b:v"@ && args[33] == "1M"@
            }
            &&& !ends_with_text(path, ".webm"@) ==> {
                &&& args.len() == 29
                &&& args[20] == "-c:v"@ && args[21] == "libx264"@
                &&& args[22] == "-preset"@ && args[23] == "ultrafast"@
            }
        }),
{
}

/// A path ends in `.webm` exactly where its last five characters are those.
pub proof fn law_webm_is_told_by_the_last_characters(path: Seq<char>)
    ensures
        ends_with_text(path, ".webm"@) <==> path.len() >= 5 && path[path.len() - 5] == '.'
            && path[path.len() - 4] == 'w' && path[path.len() - 3] == 'e' && path[path.len() - 2]
            == 'b' && path[path.len() - 1] == 'm',
{
    reveal_strlit(".webm");
    let suffix = ".webm"@;
    assert(suffix.len() == 5);
    assert(suffix[0] == '.' && suffix[1] == 'w' && suffix[2] == 'e' && suffix[3] == 'b' && suffix[4]
        == 'm');
    if path.len() >= 5 {
        let tail = path.subrange(path.len() - 5, path.len() as int);
        assert(tail[0] == path[path.len() - 5] && tail[1] == path[path.len() - 4] && tail[2]
            == path[path.len() - 3] && tail[3] == path[path.len() - 2] && tail[4] == path[path.len()
            - 1]);
        if path[path.len() - 5] == '.' && path[path.len() - 4] == 'w' && path[path.len() - 3] == 'e'
            && path[path.len() - 2] == 'b' && path[path.len() - 1] == 'm' {
            assert(tail =~= suffix);
        }
    }
}

} // verus!
