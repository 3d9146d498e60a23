# yue

A desktop music visualizer and MP4 exporter. The verified library in `src/`
holds the logic that does not depend on floating point or on the graphics
and audio devices:

- `export`: how the decoded stereo samples are cut into video frames, the
  analysis window of each frame, the check of the rendered image's size,
  the name of the intermediate WAV file;
- `job`: the export job's state machine (render, finalize, wait for the
  encoder) with its invariant and monotone progress;
- `ffmpeg`: the FFmpeg command lines and their audio and video filters;
- `wav`: the checks on the header of the intermediate WAV file (read with
  `hound`);
- `fft`: how an interleaved buffer is folded down to mono for the FFT;
- `visuals`: which FFT bins each point of the circular spectrum averages;
- `player`: the track length label and the theme cycle;
- `text`: decimal rendering of integers.

`app/` is the program around it: the raylib window, drawing and audio, the
file dialogs, the FFmpeg processes, the FFT (rustfft) and every computation
on floating-point samples and geometry.
