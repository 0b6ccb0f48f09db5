//! The frame output: the video sink together with the render graph that
//! feeds it.

use vstd::prelude::*;

verus! {

use crate::graph::{RenderGraph, FramePlan, spec_plan_of};
use crate::video::{Video, video_wf};
use crate::world::World;

/// The single owner of the video sink and the render graph.
pub struct Output {
    pub video: Video,
    pub render_graph: RenderGraph,
}

impl Output {
    /// A closed sink in front of the stock render graph.
    pub fn new() -> (o: Output)
        ensures
            video_wf(o.video),
            !o.video.writing,
            o.video.pts == 0,
            o.render_graph.wf(),
            crate::graph::context_wf(o.render_graph.context),
    {
        Output {
            video: Video::new(),
            render_graph: RenderGraph::default(),
        }
    }

    /// The configured output width, in pixels.
    pub fn get_width(&self) -> (r: u32)
        ensures r == self.render_graph.context.width,
    {
        self.render_graph.context.width
    }

    /// The configured output height, in pixels.
    pub fn get_height(&self) -> (r: u32)
        ensures r == self.render_graph.context.height,
    {
        self.render_graph.context.height
    }

    /// Whether a stream is open and frames are being accepted.
    pub fn get_recording_status(&self) -> (r: bool)
        ensures r == self.video.writing,
    {
        self.video.writing
    }

    /// Stops recording: closes the stream.
    pub fn stop(&mut self)
        requires
            video_wf(old(self).video),
        ensures
            video_wf(final(self).video),
            !final(self).video.writing,
            final(self).video.pts == old(self).video.pts,
            final(self).video.config == old(self).video.config,
            final(self).render_graph == old(self).render_graph,
    {
        self.video.free();
    }

    /// Opens a video stream with the given geometry and rate; the bitrate
    /// is accepted for compatibility and left to the encoder's defaults.
    pub fn start_video(&mut self, path: &str, fps: i32, width: i32, height: i32, bitrate: usize)
        requires
            video_wf(old(self).video),
            0 < fps <= 240,
            0 < width <= 4096,
            0 < height <= 4096,
            width % 2 == 0,
            height % 2 == 0,
        ensures
            video_wf(final(self).video),
            final(self).video.writing,
            final(self).video.pts == old(self).video.pts,
            final(self).video.config matches Some(c)
                && c.fps == fps && c.width == width && c.height == height
                && c.path@ == path@,
            final(self).render_graph == old(self).render_graph,
    {
        let _ = bitrate;
        self.video.make(path, fps, width, height);
    }

    /// Writes `frames` repetitions of the current world's frame: when the
    /// sink is open, plans the frame through the render graph and advances
    /// the timestamp counter; when it is closed, does nothing at all.
    pub fn write(&mut self, world: &World, frames: i32) -> (plan: Option<FramePlan>)
        requires
            video_wf(old(self).video),
            old(self).render_graph.wf(),
            world.wf(),
            old(self).video.pts + frames <= 0x7fff_ffff_ffff_ffff,
        ensures
            video_wf(final(self).video),
            final(self).render_graph == old(self).render_graph,
            final(self).video.writing == old(self).video.writing,
            final(self).video.config == old(self).video.config,
            old(self).video.writing ==> {
                &&& plan matches Some(p) && spec_plan_of(old(self).render_graph, *world, p)
                &&& (frames > 0 ==> final(self).video.pts == old(self).video.pts + frames)
                &&& (frames <= 0 ==> final(self).video.pts == old(self).video.pts)
            },
            !old(self).video.writing ==> plan is None && final(self).video.pts == old(self).video.pts,
    {
        if self.video.writing {
            let plan = self.render_graph.run(world);
            self.video.write(frames);
            Some(plan)
        } else {
            None
        }
    }
}

} // verus!
