//! The clip's timeline: render settings, the file name of each frame, the
//! progress lines, and the arguments that stitch the frames into a video.

use vstd::prelude::*;
use crate::decimal::{
    decimal, digits_value, lemma_decimal_value, lemma_leading_zeros_value,
    lemma_zero_padded_injective, push_decimal, push_zero_padded, zero_padded,
};

verus! {

/// Width of a frame in pixels.
pub const WIDTH: usize = 1280;
/// Height of a frame in pixels.
pub const HEIGHT: usize = 720;
/// Frames per second of the clip.
pub const FPS: u32 = 30;
/// Length of the clip in seconds.
pub const DURATION_SECS: u32 = 10;
/// Number of frames in the clip.
pub const TOTAL_FRAMES: u32 = FPS * DURATION_SECS;

/// Every frame file starts with this: the directory and the stem.
pub open spec fn frame_prefix() -> Seq<char> {
    "frames/frame_"@
}

/// Every frame file ends with this extension.
pub open spec fn frame_suffix() -> Seq<char> {
    ".png"@
}

/// The path of the file that holds frame `frame`: the frame number written
/// with at least four digits, zeros in front.
pub open spec fn frame_name(frame: nat) -> Seq<char> {
    frame_prefix() + zero_padded(decimal(frame), 4) + frame_suffix()
}

/// The pattern that tells the video encoder where the frames are.
pub open spec fn frame_pattern() -> Seq<char> {
    "frames/frame_%04d.png"@
}

/// The arguments handed to the video encoder, in order.
pub open spec fn encoder_args() -> Seq<Seq<char>> {
    seq![
        "-y"@,
        "-framerate"@,
        decimal(FPS as nat),
        "-i"@,
        frame_pattern(),
        "-c:v"@,
        "libx264"@,
        "-pix_fmt"@,
        "yuv420p"@,
        "-crf"@,
        "18"@,
        "out.mp4"@,
    ]
}

/// The line printed when the file of frame `frame` is already there.
pub open spec fn skip_line(frame: nat) -> Seq<char> {
    "frame "@ + decimal(frame) + " already exists, skipping"@
}

/// The line printed when frame `frame` has been written: its number counted
/// from one, over the number of frames.
pub open spec fn done_line(frame: nat) -> Seq<char> {
    "frame "@ + decimal(frame + 1) + "/"@ + decimal(TOTAL_FRAMES as nat) + " done"@
}

/// The path of the PNG file of frame `frame`.
pub fn frame_file_name(frame: u32) -> (name: String)
    ensures
        name@ == frame_name(frame as nat),
{
    let mut name = String::from_str("frames/frame_");
    push_zero_padded(&mut name, frame as u64, 4);
    name.append(".png");
    name
}

/// The arguments of the video encoder that stitches the frames into
/// `out.mp4`.
pub fn encoder_arguments() -> (args: Vec<String>)
    ensures
        args@.len() == encoder_args().len(),
        forall|i: int| 0 <= i < args@.len() ==> #[trigger] args@[i]@ == encoder_args()[i],
{
    let mut rate = String::new();
    push_decimal(&mut rate, FPS as u64);
    let mut args: Vec<String> = Vec::new();
    args.push(String::from_str("-y"));
    args.push(String::from_str("-framerate"));
    args.push(rate);
    args.push(String::from_str("-i"));
    args.push(String::from_str("frames/frame_%04d.png"));
    args.push(String::from_str("-c:v"));
    args.push(String::from_str("libx264"));
    args.push(String::from_str("-pix_fmt"));
    args.push(String::from_str("yuv420p"));
    args.push(String::from_str("-crf"));
    args.push(String::from_str("18"));
    args.push(String::from_str("out.mp4"));
    args
}

/// The progress line for a frame whose file already exists.
pub fn skip_message(frame: u32) -> (line: String)
    ensures
        line@ == skip_line(frame as nat),
{
    let mut line = String::from_str("frame ");
    push_decimal(&mut line, frame as u64);
    line.append(" already exists, skipping");
    line
}

/// The progress line for a frame that has just been written.
pub fn done_message(frame: u32) -> (line: String)
    requires
        frame < u32::MAX,
    ensures
        line@ == done_line(frame as nat),
{
    let mut line = String::from_str("frame ");
    push_decimal(&mut line, (frame + 1) as u64);
    line.append("/");
    push_decimal(&mut line, TOTAL_FRAMES as u64);
    line.append(" done");
    line
}

/// `10` to the power `k`.
pub open spec fn pow10(k: nat) -> nat
    decreases k,
{
    if k == 0 {
        1
    } else {
        10 * pow10((k - 1) as nat)
    }
}

/// A number below `10^k` is spelled with at most `k` digits.
pub proof fn lemma_decimal_len_bound(n: nat, k: nat)
    requires
        1 <= k,
        n < pow10(k),
    ensures
        decimal(n).len() <= k,
    decreases k,
{
    if n >= 10 {
        if k == 1 {
            assert(pow10(1) == 10 * pow10(0));
        } else {
            lemma_decimal_len_bound(n / 10, (k - 1) as nat);
        }
    }
}

/// Distinct frames are written to distinct files, so no frame overwrites
/// another and a file that exists belongs to exactly one frame.
pub proof fn lemma_frame_names_distinct(a: nat, b: nat)
    requires
        a != b,
    ensures
        frame_name(a) != frame_name(b),
{
    reveal_strlit("frames/frame_");
    reveal_strlit(".png");
    if frame_name(a) == frame_name(b) {
        let pa = zero_padded(decimal(a), 4);
        let pb = zero_padded(decimal(b), 4);
        let na = frame_name(a);
        let nb = frame_name(b);
        assert(na.len() == 13 + pa.len() + 4);
        assert(nb.len() == 13 + pb.len() + 4);
        assert(na.subrange(13, 13 + pa.len() as int) =~= pa);
        assert(nb.subrange(13, 13 + pb.len() as int) =~= pb);
        lemma_zero_padded_injective(a, b, 4);
    }
}

/// For every frame number below ten thousand, the frame's file name is the
/// encoder's input pattern with `%04d` replaced by the four-digit,
/// zero-padded frame number; so the encoder reads exactly the files written.
pub proof fn lemma_frame_name_fits_pattern(frame: nat)
    requires
        frame < 10000,
    ensures
        frame_name(frame).len() == frame_pattern().len(),
        zero_padded(decimal(frame), 4).len() == 4,
        frame_name(frame) =~= frame_pattern().subrange(0, 13) + zero_padded(decimal(frame), 4)
            + frame_pattern().subrange(17, 21),
        frame_pattern().subrange(13, 17) == "%04d"@,
{
    reveal_strlit("frames/frame_");
    reveal_strlit(".png");
    reveal_strlit("frames/frame_%04d.png");
    reveal_strlit("%04d");
    reveal_with_fuel(pow10, 5);
    lemma_decimal_len_bound(frame, 4);
    assert(frame_pattern().subrange(0, 13) =~= frame_prefix());
    assert(frame_pattern().subrange(17, 21) =~= frame_suffix());
}

/// Every frame of the clip has a number below ten thousand, so every frame
/// file name has the encoder pattern's shape.
pub proof fn lemma_clip_frames_fit_pattern(frame: nat)
    requires
        frame < TOTAL_FRAMES,
    ensures
        frame < 10000,
        frame_name(frame).len() == frame_pattern().len(),
{
    lemma_frame_name_fits_pattern(frame);
}

/// What to do with one frame, decided from whether its PNG file is already
/// there: skip it with a progress line, or render it into the given file.
pub enum FrameStep {
    Skip { line: String },
    Render { path: String },
}

/// The step taken for frame `frame`: a frame whose file exists is skipped,
/// which is what makes an interrupted run resumable.
pub fn frame_step(frame: u32, png_exists: bool) -> (step: FrameStep)
    ensures
        png_exists ==> (step matches FrameStep::Skip { line } && line@ == skip_line(frame as nat)),
        !png_exists ==> (step matches FrameStep::Render { path } && path@ == frame_name(
            frame as nat,
        )),
{
    if png_exists {
        FrameStep::Skip { line: skip_message(frame) }
    } else {
        FrameStep::Render { path: frame_file_name(frame) }
    }
}

/// What follows the attempt to save a rendered frame: the progress line when
/// the file was written, otherwise the message the run stops with.
pub fn after_save(frame: u32, saved: bool) -> (out: Result<String, String>)
    requires
        frame < u32::MAX,
    ensures
        saved ==> (out matches Ok(l) && l@ == done_line(frame as nat)),
        !saved ==> (out matches Err(m) && m@ == "PNG save failed"@),
{
    if saved {
        Ok(done_message(frame))
    } else {
        Err(String::from_str("PNG save failed"))
    }
}

/// What follows the video encoder's run: the line reporting `out.mp4` when
/// it succeeded, otherwise the failure line (for the error stream).
pub fn encoder_outcome(success: bool) -> (out: Result<String, String>)
    ensures
        success ==> (out matches Ok(l) && l@ == "wrote out.mp4"@),
        !success ==> (out matches Err(m) && m@ == "ffmpeg failed"@),
{
    if success {
        Ok(String::from_str("wrote out.mp4"))
    } else {
        Err(String::from_str("ffmpeg failed"))
    }
}

/// The set of files present after frames `0 .. frames` have each taken
/// their step, starting from the files `files`, every save succeeding: a
/// frame whose file is present is skipped, any other frame's file is written.
pub open spec fn run_files(files: Set<Seq<char>>, frames: nat) -> Set<Seq<char>>
    decreases frames,
{
    if frames == 0 {
        files
    } else {
        let before = run_files(files, (frames - 1) as nat);
        let name = frame_name((frames - 1) as nat);
        if before.contains(name) {
            before
        } else {
            before.insert(name)
        }
    }
}

/// A run only adds files, and after it the file of every frame it went
/// through is present.
pub proof fn lemma_run_writes_every_frame(files: Set<Seq<char>>, frames: nat)
    ensures
        files.subset_of(run_files(files, frames)),
        forall|k: nat| k < frames ==> run_files(files, frames).contains(#[trigger] frame_name(k)),
    decreases frames,
{
    if frames > 0 {
        lemma_run_writes_every_frame(files, (frames - 1) as nat);
    }
}

/// When the file of every frame of a run is already present, the run
/// changes nothing.
pub proof fn lemma_run_over_complete_files(files: Set<Seq<char>>, frames: nat)
    requires
        forall|k: nat| k < frames ==> files.contains(#[trigger] frame_name(k)),
    ensures
        run_files(files, frames) == files,
    decreases frames,
{
    if frames > 0 {
        lemma_run_over_complete_files(files, (frames - 1) as nat);
        assert(files.contains(frame_name((frames - 1) as nat)));
    }
}

/// Running the clip again after a complete run is idempotent: every frame
/// finds its file present and is skipped, and the files are unchanged.
pub proof fn lemma_rerun_skips_every_frame(files: Set<Seq<char>>, frames: nat)
    ensures
        forall|k: nat|
            k < frames ==> run_files(files, frames).contains(#[trigger] frame_name(k)),
        run_files(run_files(files, frames), frames) == run_files(files, frames),
{
    lemma_run_writes_every_frame(files, frames);
    lemma_run_over_complete_files(run_files(files, frames), frames);
}

/// The render settings: 1280 by 720 pixels, 30 frames per second for ten
/// seconds, so 300 frames of 2,764,800 RGB bytes each.
pub proof fn lemma_render_settings()
    ensures
        WIDTH == 1280,
        HEIGHT == 720,
        FPS == 30,
        DURATION_SECS == 10,
        TOTAL_FRAMES == 300,
        3 * WIDTH * HEIGHT == 2764800,
{
}

/// The encoder is run as
/// `ffmpeg -y -framerate 30 -i frames/frame_%04d.png -c:v libx264 -pix_fmt yuv420p -crf 18 out.mp4`.
pub proof fn lemma_encoder_args_literal()
    ensures
        encoder_args().len() == 12,
        encoder_args()[0] == "-y"@,
        encoder_args()[1] == "-framerate"@,
        encoder_args()[2] == seq!['3', '0'],
        encoder_args()[3] == "-i"@,
        encoder_args()[4] == "frames/frame_%04d.png"@,
        encoder_args()[5] == "-c:v"@,
        encoder_args()[6] == "libx264"@,
        encoder_args()[7] == "-pix_fmt"@,
        encoder_args()[8] == "yuv420p"@,
        encoder_args()[9] == "-crf"@,
        encoder_args()[10] == "18"@,
        encoder_args()[11] == "out.mp4"@,
{
    assert(decimal(3) == seq![(48 + 3) as char]);
    assert(decimal(30) =~= seq!['3', '0']);
}

/// The frame file of frame `frame` is `frames/frame_` followed by the frame
/// number in at least four digits and `.png`; the digits read back to the
/// frame number.
pub proof fn lemma_frame_name_shape(frame: nat)
    ensures
        frame_name(frame) == "frames/frame_"@ + zero_padded(decimal(frame), 4) + ".png"@,
        zero_padded(decimal(frame), 4).len() >= 4,
        digits_value(zero_padded(decimal(frame), 4)) == frame,
{
    lemma_decimal_value(frame);
    if decimal(frame).len() < 4 {
        lemma_leading_zeros_value((4 - decimal(frame).len()) as nat, decimal(frame));
    }
}

/// The progress lines: `frame N already exists, skipping` names the frame
/// itself, and `frame N/300 done` counts frames from one, so the last frame
/// of the clip reports `300/300`.
pub proof fn lemma_progress_lines(frame: nat)
    ensures
        skip_line(frame) == "frame "@ + decimal(frame) + " already exists, skipping"@,
        done_line(frame) == "frame "@ + decimal(frame + 1) + "/"@ + seq!['3', '0', '0']
            + " done"@,
        digits_value(decimal(frame + 1)) == frame + 1,
{
    assert(decimal(3) == seq![(48 + 3) as char]);
    assert(decimal(30) =~= seq!['3', '0']);
    assert(decimal(300) =~= seq!['3', '0', '0']);
    lemma_decimal_value(frame + 1);
}

} // verus!
