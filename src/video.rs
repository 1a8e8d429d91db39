//! The bookkeeping side of the video builder: which conversion a video frame
//! takes, the order in which queued audio and video frames go to the encoders,
//! the presentation counters and the encoded duration. The encoders themselves
//! live with the program.

use vstd::prelude::*;
use std::time::Duration;

verus! {

/// The duration that `Duration::new` makes of whole seconds and nanoseconds.
pub uninterp spec fn duration_of(secs: u64, nanos: u32) -> Duration;

/// Relies on `std::time::Duration::new`: below a billion nanoseconds nothing
/// carries into the seconds, so it does not panic.
#[verifier::external_body]
fn duration_new(secs: u64, nanos: u32) -> (r: Duration)
    requires
        nanos < 1_000_000_000,
    ensures
        r == duration_of(secs, nanos),
{
    Duration::new(secs, nanos)
}

/// How a video frame reaches the encoder's format.
#[derive(Clone, Copy, PartialEq, Eq, Structural, Debug)]
pub enum VideoPath {
    /// Scaled, blended over the background frame, then converted.
    Background,
    /// Scaled and converted directly.
    Plain,
}

/// What the encoding loop does next.
#[derive(Clone, Copy, PartialEq, Eq, Structural, Debug)]
pub enum EncodeStep {
    Audio,
    Video,
    Done,
}

pub struct VideoBuilder {
    pub a_frame_size: usize,
    /// The video time base, `time_base_num / time_base_den` seconds per frame.
    pub time_base_num: u32,
    pub time_base_den: u32,
    pub has_background: bool,
    pub v_pts: u64,
    pub a_pts: u64,
    pub v_pts_muxed: u64,
    pub a_pts_muxed: u64,
    pub v_frames_queued: usize,
    pub a_frames_queued: usize,
}

/// The encoding loop's choice: audio while it is not ahead of the video and
/// some is queued, else video while some is queued.
pub open spec fn next_step_spec(b: VideoBuilder) -> EncodeStep {
    if b.a_pts_muxed <= b.v_pts_muxed && b.a_frames_queued > 0 {
        EncodeStep::Audio
    } else if b.v_frames_queued > 0 {
        EncodeStep::Video
    } else {
        EncodeStep::Done
    }
}

impl VideoBuilder {
    pub open spec fn wf(&self) -> bool {
        0 < self.time_base_num <= self.time_base_den
    }

    /// Whole seconds and nanoseconds of the video sent to the encoder so far.
    pub open spec fn encoded_time(&self) -> (int, int) {
        let t = self.v_pts * self.time_base_num;
        (t / self.time_base_den as int, ((t % self.time_base_den as int) * 1_000_000_000) / self.time_base_den as int)
    }

    pub fn new(a_frame_size: usize, time_base_num: u32, time_base_den: u32, has_background: bool) -> (r: VideoBuilder)
        requires
            0 < time_base_num <= time_base_den,
        ensures
            r.wf(),
            r.a_frame_size == a_frame_size,
            r.time_base_num == time_base_num && r.time_base_den == time_base_den,
            r.has_background == has_background,
            r.v_pts == 0 && r.a_pts == 0 && r.v_pts_muxed == 0 && r.a_pts_muxed == 0,
            r.v_frames_queued == 0 && r.a_frames_queued == 0,
    {
        VideoBuilder {
            a_frame_size,
            time_base_num,
            time_base_den,
            has_background,
            v_pts: 0,
            a_pts: 0,
            v_pts_muxed: 0,
            a_pts_muxed: 0,
            v_frames_queued: 0,
            a_frames_queued: 0,
        }
    }

    pub fn audio_frame_size(&self) -> (r: usize)
        ensures
            r == self.a_frame_size,
    {
        self.a_frame_size
    }

    /// Queues a video frame, and says which conversion it takes.
    pub fn push_video_data(&mut self) -> (r: VideoPath)
        requires
            old(self).v_frames_queued < usize::MAX,
        ensures
            *final(self) == (VideoBuilder { v_frames_queued: (old(self).v_frames_queued + 1) as usize, ..*old(self) }),
            r == (if old(self).has_background { VideoPath::Background } else { VideoPath::Plain }),
    {
        self.v_frames_queued = self.v_frames_queued + 1;
        if self.has_background {
            VideoPath::Background
        } else {
            VideoPath::Plain
        }
    }

    /// Queues an audio frame.
    pub fn push_audio_data(&mut self)
        requires
            old(self).a_frames_queued < usize::MAX,
        ensures
            *final(self) == (VideoBuilder { a_frames_queued: (old(self).a_frames_queued + 1) as usize, ..*old(self) }),
    {
        self.a_frames_queued = self.a_frames_queued + 1;
    }

    /// What the encoding loop does next.
    pub fn next_encoding_step(&self) -> (r: EncodeStep)
        ensures
            r == next_step_spec(*self),
    {
        if self.a_pts_muxed <= self.v_pts_muxed && self.a_frames_queued > 0 {
            EncodeStep::Audio
        } else if self.v_frames_queued > 0 {
            EncodeStep::Video
        } else {
            EncodeStep::Done
        }
    }

    /// A queued video frame went to the encoder: its timestamp advances by one.
    pub fn video_frame_sent(&mut self)
        requires
            old(self).v_frames_queued > 0,
            old(self).v_pts < u64::MAX,
        ensures
            *final(self) == (VideoBuilder {
                v_frames_queued: (old(self).v_frames_queued - 1) as usize,
                v_pts: (old(self).v_pts + 1) as u64,
                ..*old(self)
            }),
    {
        self.v_frames_queued = self.v_frames_queued - 1;
        self.v_pts = self.v_pts + 1;
    }

    /// A queued audio frame went to the encoder: its timestamp advances by the
    /// encoder's frame size.
    pub fn audio_frame_sent(&mut self, frame_size: u64)
        requires
            old(self).a_frames_queued > 0,
            old(self).a_pts + frame_size <= u64::MAX,
        ensures
            *final(self) == (VideoBuilder {
                a_frames_queued: (old(self).a_frames_queued - 1) as usize,
                a_pts: (old(self).a_pts + frame_size) as u64,
                ..*old(self)
            }),
    {
        self.a_frames_queued = self.a_frames_queued - 1;
        self.a_pts = self.a_pts + frame_size;
    }

    /// A packet of either stream was written out.
    pub fn packet_muxed(&mut self, audio: bool)
        requires
            audio ==> old(self).a_pts_muxed < u64::MAX,
            !audio ==> old(self).v_pts_muxed < u64::MAX,
        ensures
            audio ==> *final(self) == (VideoBuilder { a_pts_muxed: (old(self).a_pts_muxed + 1) as u64, ..*old(self) }),
            !audio ==> *final(self) == (VideoBuilder { v_pts_muxed: (old(self).v_pts_muxed + 1) as u64, ..*old(self) }),
    {
        if audio {
            self.a_pts_muxed = self.a_pts_muxed + 1;
        } else {
            self.v_pts_muxed = self.v_pts_muxed + 1;
        }
    }

    /// The time of the video sent so far, as whole seconds and nanoseconds.
    pub fn encoded_video_time(&self) -> (r: (u64, u32))
        requires
            self.wf(),
        ensures
            r.0 == self.encoded_time().0,
            r.1 == self.encoded_time().1,
            r.1 < 1_000_000_000,
    {
        assert(self.v_pts * self.time_base_num <= 0xffff_ffff_ffff_ffff * 0xffff_ffffint) by (nonlinear_arith)
            requires self.v_pts <= 0xffff_ffff_ffff_ffffint, self.time_base_num <= 0xffff_ffffint, self.time_base_num >= 0;
        let t: u128 = self.v_pts as u128 * self.time_base_num as u128;
        let den = self.time_base_den as u128;
        let secs = t / den;
        let rem = t % den;
        assert(rem * 1_000_000_000 < den * 1_000_000_000) by (nonlinear_arith)
            requires rem < den;
        assert(secs <= self.v_pts) by (nonlinear_arith)
            requires secs == t / den, t == self.v_pts * self.time_base_num, self.time_base_num <= den, den > 0;
        let scaled = rem * 1_000_000_000;
        let nanos = scaled / den;
        proof {
            vstd::arithmetic::div_mod::lemma_div_is_ordered(scaled as int, (den * 1_000_000_000) as int, den as int);
            vstd::arithmetic::div_mod::lemma_div_multiples_vanish(1_000_000_000, den as int);
            if nanos >= 1_000_000_000 {
                vstd::arithmetic::div_mod::lemma_fundamental_div_mod(scaled as int, den as int);
                vstd::arithmetic::div_mod::lemma_mod_bound(scaled as int, den as int);
                assert(scaled >= den * 1_000_000_000) by (nonlinear_arith)
                    requires scaled == den * nanos + scaled % den, scaled % den >= 0, nanos >= 1_000_000_000, den > 0;
            }
        }
        (secs as u64, nanos as u32)
    }

    /// The duration of the video sent so far.
    pub fn encoded_video_duration(&self) -> (r: Duration)
        requires
            self.wf(),
        ensures
            r == duration_of(self.encoded_time().0 as u64, self.encoded_time().1 as u32),
    {
        let (secs, nanos) = self.encoded_video_time();
        duration_new(secs, nanos)
    }
}

} // verus!
