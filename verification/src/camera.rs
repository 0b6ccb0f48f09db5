//! The recording camera: the scripting-facing switch for the video sink.

use vstd::prelude::*;

verus! {

use crate::instance::App;
use crate::video::video_wf;

/// The camera: whether this handle asked for a recording.
pub struct Camera {
    pub recording: bool,
}

impl Camera {
    /// A camera that is not recording.
    pub fn new() -> (c: Camera)
        ensures !c.recording,
    {
        Camera { recording: false }
    }

    /// Whether the application's sink is currently accepting frames.
    pub fn get_recording_status(&self, app: &App) -> (r: bool)
        ensures r == app.output.video.writing,
    {
        app.output.video.writing
    }

    /// Starts recording: opens a video stream with the given parameters.
    pub fn record(&mut self, app: &mut App, path: &str, fps: i32, width: i32, height: i32, bitrate: usize)
        requires
            video_wf(old(app).output.video),
            0 < fps <= 240,
            0 < width <= 4096,
            0 < height <= 4096,
            width % 2 == 0,
            height % 2 == 0,
        ensures
            final(self).recording,
            video_wf(final(app).output.video),
            final(app).output.video.writing,
            final(app).output.video.config matches Some(c)
                && c.fps == fps && c.width == width && c.height == height,
            final(app).output.video.pts == old(app).output.video.pts,
            final(app).world == old(app).world,
            final(app).output.render_graph == old(app).output.render_graph,
    {
        self.recording = true;
        app.output.start_video(path, fps, width, height, bitrate);
    }

    /// Stops recording: closes the stream.
    pub fn stop(&mut self, app: &mut App)
        requires
            video_wf(old(app).output.video),
        ensures
            !final(self).recording,
            video_wf(final(app).output.video),
            !final(app).output.video.writing,
            final(app).output.video.pts == old(app).output.video.pts,
            final(app).world == old(app).world,
            final(app).output.render_graph == old(app).output.render_graph,
    {
        self.recording = false;
        app.output.stop();
    }
}

} // verus!
