//! The FFmpeg command lines of the export: the one that extracts and pads
//! the audio into the intermediate WAV file, and the one that encodes the
//! rendered frames and that audio into the MP4 file, with their filters.

use vstd::prelude::*;

use crate::export::{
    AUDIO_CHANNELS, AUDIO_SAMPLE_RATE, EXPORT_FPS, EXPORT_HEIGHT, EXPORT_WIDTH, LEAD_IN_MILLIS,
    RENDER_HEIGHT, RENDER_WIDTH, TAIL_PAD_MILLIS,
};
use crate::text::{decimal, decimal_text, seconds_from_millis, seconds_text, signed_decimal, signed_text};

verus! {

/// One argument of an FFmpeg command line. The file paths are left for the
/// caller to fill in, so that they reach FFmpeg exactly as the system gave
/// them.
#[derive(Debug)]
pub enum CommandArg {
    /// A literal argument.
    Text(String),
    /// The path of the track chosen by the user.
    InputPath,
    /// The path of the intermediate WAV file.
    TempWav,
    /// The path of the MP4 file being written.
    OutputPath,
}

/// What an argument stands for, with the text of a literal argument.
pub enum ArgModel {
    Text(Seq<char>),
    InputPath,
    TempWav,
    OutputPath,
}

impl CommandArg {
    /// What this argument stands for.
    pub open spec fn model(&self) -> ArgModel {
        match self {
            CommandArg::Text(s) => ArgModel::Text(s@),
            CommandArg::InputPath => ArgModel::InputPath,
            CommandArg::TempWav => ArgModel::TempWav,
            CommandArg::OutputPath => ArgModel::OutputPath,
        }
    }
}

/// What a whole command line stands for.
pub open spec fn args_model(args: Seq<CommandArg>) -> Seq<ArgModel> {
    args.map_values(|a: CommandArg| a.model())
}

/// The audio filter of the extraction: "adelay={ms}|{ms},apad=pad_dur={secs}".
pub open spec fn spec_audio_filter() -> Seq<char> {
    "adelay="@ + decimal(LEAD_IN_MILLIS as nat) + "|"@ + decimal(LEAD_IN_MILLIS as nat)
        + ",apad=pad_dur="@ + seconds_from_millis(TAIL_PAD_MILLIS as nat)
}

/// The video filter of the encoding: "scale={w}:{h}:flags=lanczos".
pub open spec fn spec_scale_filter() -> Seq<char> {
    "scale="@ + signed_decimal(EXPORT_WIDTH as int) + ":"@ + signed_decimal(EXPORT_HEIGHT as int)
        + ":flags=lanczos"@
}

/// The audio filter that delays the track by the lead-in on both channels
/// and pads it with the tail silence.
pub fn build_audio_filter() -> (s: String)
    ensures
        s@ == spec_audio_filter(),
{
    let lead_in = decimal_text(LEAD_IN_MILLIS as u128);
    let mut s = String::from_str("adelay=");
    s.append(lead_in.as_str());
    s.append("|");
    s.append(lead_in.as_str());
    s.append(",apad=pad_dur=");
    s.append(seconds_text(TAIL_PAD_MILLIS).as_str());
    s
}

/// The video filter that scales the supersampled frames down to the export
/// size with a Lanczos filter.
pub fn export_scale_filter() -> (s: String)
    ensures
        s@ == spec_scale_filter(),
{
    let mut s = String::from_str("scale=");
    s.append(signed_text(EXPORT_WIDTH as i64).as_str());
    s.append(":");
    s.append(signed_text(EXPORT_HEIGHT as i64).as_str());
    s.append(":flags=lanczos");
    s
}

fn push_text(args: &mut Vec<CommandArg>, text: &str)
    ensures
        args_model(final(args)@) == args_model(old(args)@).push(ArgModel::Text(text@)),
{
    let ghost before = args@;
    args.push(CommandArg::Text(String::from_str(text)));
    assert(args_model(args@) =~= args_model(before).push(ArgModel::Text(text@)));
}

fn push_arg(args: &mut Vec<CommandArg>, arg: CommandArg)
    ensures
        args_model(final(args)@) == args_model(old(args)@).push(arg.model()),
{
    let ghost before = args@;
    let ghost m = arg.model();
    args.push(arg);
    assert(args_model(args@) =~= args_model(before).push(m));
}

/// The arguments of the extraction command: decode the input, apply the
/// audio filter, resample to the export rate in stereo, and write 32-bit
/// float PCM into the intermediate WAV file.
pub open spec fn spec_prepare_audio_args() -> Seq<ArgModel> {
    seq![
        ArgModel::Text("-y"@),
        ArgModel::Text("-i"@),
        ArgModel::InputPath,
        ArgModel::Text("-af"@),
        ArgModel::Text(spec_audio_filter()),
        ArgModel::Text("-ar"@),
        ArgModel::Text(decimal(AUDIO_SAMPLE_RATE as nat)),
        ArgModel::Text("-ac"@),
        ArgModel::Text(decimal(AUDIO_CHANNELS as nat)),
        ArgModel::Text("-c:a"@),
        ArgModel::Text("pcm_f32le"@),
        ArgModel::TempWav,
    ]
}

/// The arguments of the FFmpeg command that extracts and pads the audio.
pub fn prepare_audio_args() -> (args: Vec<CommandArg>)
    ensures
        args_model(args@) == spec_prepare_audio_args(),
{
    let mut args: Vec<CommandArg> = Vec::new();
    assert(args_model(args@) =~= Seq::<ArgModel>::empty());
    push_text(&mut args, "-y");
    push_text(&mut args, "-i");
    push_arg(&mut args, CommandArg::InputPath);
    push_text(&mut args, "-af");
    push_text(&mut args, build_audio_filter().as_str());
    push_text(&mut args, "-ar");
    push_text(&mut args, decimal_text(AUDIO_SAMPLE_RATE as u128).as_str());
    push_text(&mut args, "-ac");
    push_text(&mut args, decimal_text(AUDIO_CHANNELS as u128).as_str());
    push_text(&mut args, "-c:a");
    push_text(&mut args, "pcm_f32le");
    push_arg(&mut args, CommandArg::TempWav);
    assert(args_model(args@) =~= spec_prepare_audio_args());
    args
}

/// The size of the raw frames piped to the encoder: "{w}x{h}".
pub open spec fn spec_render_size() -> Seq<char> {
    signed_decimal(RENDER_WIDTH as int) + "x"@ + signed_decimal(RENDER_HEIGHT as int)
}

/// The arguments of the encoding command: raw RGBA frames of the render
/// size at the export frame rate on standard input, the intermediate WAV
/// file as audio, H.264 video (slower preset, CRF 14) scaled down with the
/// Lanczos filter, ALAC audio, fast start, 4:2:0 chroma.
pub open spec fn spec_encoder_args() -> Seq<ArgModel> {
    seq![
        ArgModel::Text("-y"@),
        ArgModel::Text("-f"@),
        ArgModel::Text("rawvideo"@),
        ArgModel::Text("-vcodec"@),
        ArgModel::Text("rawvideo"@),
        ArgModel::Text("-s"@),
        ArgModel::Text(spec_render_size()),
        ArgModel::Text("-pix_fmt"@),
        ArgModel::Text("rgba"@),
        ArgModel::Text("-r"@),
        ArgModel::Text(decimal(EXPORT_FPS as nat)),
        ArgModel::Text("-i"@),
        ArgModel::Text("-"@),
        ArgModel::Text("-i"@),
        ArgModel::TempWav,
        ArgModel::Text("-c:v"@),
        ArgModel::Text("libx264"@),
        ArgModel::Text("-preset"@),
        ArgModel::Text("slower"@),
        ArgModel::Text("-crf"@),
        ArgModel::Text("14"@),
        ArgModel::Text("-vf"@),
        ArgModel::Text(spec_scale_filter()),
        ArgModel::Text("-c:a"@),
        ArgModel::Text("alac"@),
        ArgModel::Text("-movflags"@),
        ArgModel::Text("+faststart"@),
        ArgModel::Text("-pix_fmt"@),
        ArgModel::Text("yuv420p"@),
        ArgModel::OutputPath,
    ]
}

/// The arguments of the FFmpeg command that encodes the MP4 file.
pub fn encoder_args() -> (args: Vec<CommandArg>)
    ensures
        args_model(args@) == spec_encoder_args(),
{
    let mut size = signed_text(RENDER_WIDTH as i64);
    size.append("x");
    size.append(signed_text(RENDER_HEIGHT as i64).as_str());
    let mut args: Vec<CommandArg> = Vec::new();
    assert(args_model(args@) =~= Seq::<ArgModel>::empty());
    push_text(&mut args, "-y");
    push_text(&mut args, "-f");
    push_text(&mut args, "rawvideo");
    push_text(&mut args, "-vcodec");
    push_text(&mut args, "rawvideo");
    push_text(&mut args, "-s");
    push_text(&mut args, size.as_str());
    push_text(&mut args, "-pix_fmt");
    push_text(&mut args, "rgba");
    push_text(&mut args, "-r");
    push_text(&mut args, decimal_text(EXPORT_FPS as u128).as_str());
    push_text(&mut args, "-i");
    push_text(&mut args, "-");
    push_text(&mut args, "-i");
    push_arg(&mut args, CommandArg::TempWav);
    push_text(&mut args, "-c:v");
    push_text(&mut args, "libx264");
    push_text(&mut args, "-preset");
    push_text(&mut args, "slower");
    push_text(&mut args, "-crf");
    push_text(&mut args, "14");
    push_text(&mut args, "-vf");
    push_text(&mut args, export_scale_filter().as_str());
    push_text(&mut args, "-c:a");
    push_text(&mut args, "alac");
    push_text(&mut args, "-movflags");
    push_text(&mut args, "+faststart");
    push_text(&mut args, "-pix_fmt");
    push_text(&mut args, "yuv420p");
    push_arg(&mut args, CommandArg::OutputPath);
    assert(args_model(args@) =~= spec_encoder_args());
    args
}

} // verus!
