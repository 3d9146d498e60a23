use yue::ffmpeg::{encoder_args, prepare_audio_args, CommandArg};

fn render(args: &[CommandArg]) -> Vec<String> {
    args.iter()
        .map(|a| match a {
            CommandArg::Text(s) => s.clone(),
            CommandArg::InputPath => "<input>".to_string(),
            CommandArg::TempWav => "<wav>".to_string(),
            CommandArg::OutputPath => "<output>".to_string(),
        })
        .collect()
}

#[test]
fn audio_extraction_command_line() {
    assert_eq!(
        render(&prepare_audio_args()),
        vec![
            "-y", "-i", "<input>", "-af", "adelay=300|300,apad=pad_dur=0.7", "-ar", "48000",
            "-ac", "2", "-c:a", "pcm_f32le", "<wav>"
        ]
    );
}

#[test]
fn encoder_command_line() {
    assert_eq!(
        render(&encoder_args()),
        vec![
            "-y", "-f", "rawvideo", "-vcodec", "rawvideo", "-s", "3840x2160", "-pix_fmt", "rgba",
            "-r", "60", "-i", "-", "-i", "<wav>", "-c:v", "libx264", "-preset", "slower", "-crf",
            "14", "-vf", "scale=1920:1080:flags=lanczos", "-c:a", "alac", "-movflags",
            "+faststart", "-pix_fmt", "yuv420p", "<output>"
        ]
    );
}
