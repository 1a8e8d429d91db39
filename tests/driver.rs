use std::time::Duration;
use spc_presenter::render::{
    progress_due, render_transition, request_event, RenderAction, RenderEvent, RenderState,
    RenderThreadRequest,
};
use spc_presenter::video::{EncodeStep, VideoBuilder, VideoPath};

#[test]
fn worker_decisions() {
    assert_eq!(render_transition(RenderState::Idle, RenderEvent::CancelRequested), (RenderState::Idle, RenderAction::RejectCancel));
    assert_eq!(render_transition(RenderState::Idle, RenderEvent::StartRequested), (RenderState::Idle, RenderAction::Start));
    assert_eq!(render_transition(RenderState::Idle, RenderEvent::Started(true)), (RenderState::Rendering, RenderAction::Step));
    assert_eq!(render_transition(RenderState::Rendering, RenderEvent::StartRequested), (RenderState::Rendering, RenderAction::RejectStart));
    assert_eq!(render_transition(RenderState::Rendering, RenderEvent::CancelRequested), (RenderState::Idle, RenderAction::Cancel));
    assert_eq!(render_transition(RenderState::Rendering, RenderEvent::Stepped(false)), (RenderState::Rendering, RenderAction::Finish));
    assert_eq!(render_transition(RenderState::Rendering, RenderEvent::Finished(true)), (RenderState::Idle, RenderAction::Complete));
    assert_eq!(render_transition(RenderState::Rendering, RenderEvent::StepFailed), (RenderState::Idle, RenderAction::Fail));
    assert_eq!(render_transition(RenderState::Rendering, RenderEvent::TerminateRequested), (RenderState::Idle, RenderAction::Exit));
    assert_eq!(render_transition(RenderState::Idle, RenderEvent::NoRequest), (RenderState::Idle, RenderAction::Wait));
    let r: RenderThreadRequest<u32> = RenderThreadRequest::StartRender(3);
    assert_eq!(request_event(&r), RenderEvent::StartRequested);
    assert_eq!(request_event::<u32>(&RenderThreadRequest::Terminate), RenderEvent::TerminateRequested);
    assert!(progress_due(500));
    assert!(!progress_due(499));
}

#[test]
fn encoder_interleaving_and_duration() {
    let mut b = VideoBuilder::new(1024, 1, 60, false);
    assert_eq!(b.audio_frame_size(), 1024);
    assert_eq!(b.next_encoding_step(), EncodeStep::Done);
    assert_eq!(b.push_video_data(), VideoPath::Plain);
    b.push_audio_data();
    assert_eq!(b.next_encoding_step(), EncodeStep::Audio);
    b.audio_frame_sent(1024);
    b.packet_muxed(true);
    assert_eq!(b.next_encoding_step(), EncodeStep::Video);
    for _ in 0..89 {
        b.push_video_data();
    }
    for _ in 0..90 {
        b.video_frame_sent();
    }
    assert_eq!(b.encoded_video_time(), (1, 500_000_000));
    assert_eq!(b.encoded_video_duration(), Duration::new(1, 500_000_000));
    let mut c = VideoBuilder::new(1024, 1001, 30000, true);
    assert_eq!(c.push_video_data(), VideoPath::Background);
    c.video_frame_sent();
    assert_eq!(c.encoded_video_duration(), Duration::new(0, 33_366_666));
}
