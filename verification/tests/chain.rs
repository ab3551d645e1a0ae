use webrtc_receiver::chain::{ChainBuildError, ChainStatus, ProcessingChain};
use webrtc_receiver::track::{ChainStep, Stage, TrackKind};

#[test]
fn fresh_chain_waits_for_its_first_step() {
    let chain = ProcessingChain::new(TrackKind::Audio);
    assert_eq!(chain.kind(), TrackKind::Audio);
    assert_eq!(chain.steps_done(), 0);
    assert_eq!(chain.status(), ChainStatus::Building);
    assert_eq!(chain.next_step(), Some(ChainStep::Construct(Stage::AudioConvert)));
}

#[test]
fn successes_walk_the_plan_to_linked() {
    for kind in [TrackKind::Audio, TrackKind::Video] {
        let plan = kind.plan();
        let mut chain = ProcessingChain::new(kind);
        for (i, step) in plan.iter().enumerate() {
            assert_eq!(chain.status(), ChainStatus::Building);
            assert_eq!(chain.steps_done(), i);
            assert_eq!(chain.next_step(), Some(*step));
            let status = chain.report(Ok(())).unwrap();
            let expected = if i + 1 == plan.len() { ChainStatus::Linked } else { ChainStatus::Building };
            assert_eq!(status, expected);
        }
        assert_eq!(chain.status(), ChainStatus::Linked);
        assert_eq!(chain.steps_done(), 11);
        assert_eq!(chain.next_step(), None);
    }
}

#[test]
fn failure_names_the_step_and_ends_the_chain() {
    let mut chain = ProcessingChain::new(TrackKind::Video);
    for _ in 0..6 {
        chain.report(Ok(())).unwrap();
    }
    assert_eq!(chain.next_step(), Some(ChainStep::LinkStages));
    let error = chain.report(Err("pads do not fit".to_string())).unwrap_err();
    assert_eq!(error.kind, TrackKind::Video);
    assert_eq!(error.step, ChainStep::LinkStages);
    assert_eq!(error.reason, "pads do not fit");
    assert_eq!(chain.status(), ChainStatus::Failed);
    assert_eq!(chain.steps_done(), 6);
    assert_eq!(chain.next_step(), None);
}

#[test]
fn failure_of_the_first_step_takes_no_step() {
    let mut chain = ProcessingChain::new(TrackKind::Audio);
    let error = chain.report(Err("no such element".to_string())).unwrap_err();
    assert_eq!(error.step, ChainStep::Construct(Stage::AudioConvert));
    assert_eq!(chain.steps_done(), 0);
    assert_eq!(chain.status(), ChainStatus::Failed);
}

#[test]
fn failed_chain_ignores_later_reports() {
    let mut chain = ProcessingChain::new(TrackKind::Audio);
    chain.report(Ok(())).unwrap();
    chain.report(Err("first".to_string())).unwrap_err();
    assert_eq!(chain.report(Ok(())).unwrap(), ChainStatus::Failed);
    assert_eq!(chain.report(Err("second".to_string())).unwrap(), ChainStatus::Failed);
    assert_eq!(chain.steps_done(), 1);
    assert_eq!(chain.next_step(), None);
}

#[test]
fn linked_chain_ignores_later_reports() {
    let mut chain = ProcessingChain::new(TrackKind::Video);
    for _ in 0..11 {
        chain.report(Ok(())).unwrap();
    }
    assert_eq!(chain.report(Ok(())).unwrap(), ChainStatus::Linked);
    assert_eq!(chain.report(Err("late".to_string())).unwrap(), ChainStatus::Linked);
    assert_eq!(chain.steps_done(), 11);
    assert_eq!(chain.status(), ChainStatus::Linked);
}

#[test]
fn failure_at_every_step_stops_there() {
    for kind in [TrackKind::Audio, TrackKind::Video] {
        let plan = kind.plan();
        for failing in 0..plan.len() {
            let mut chain = ProcessingChain::new(kind);
            for _ in 0..failing {
                chain.report(Ok(())).unwrap();
            }
            let error = chain.report(Err("x".to_string())).unwrap_err();
            assert_eq!(error.step, plan[failing]);
            assert_eq!(error.kind, kind);
            assert_eq!(chain.steps_done(), failing);
            assert_eq!(chain.status(), ChainStatus::Failed);
        }
    }
}

#[test]
fn error_message_names_the_kind() {
    let audio = ChainBuildError {
        kind: TrackKind::Audio,
        step: ChainStep::LinkTrack,
        reason: "refused".to_string(),
    };
    assert_eq!(audio.message(), "❌ Audio chain error: refused");
    let video = ChainBuildError {
        kind: TrackKind::Video,
        step: ChainStep::AddToGraph,
        reason: String::new(),
    };
    assert_eq!(video.message(), "❌ Video chain error: ");
}

#[test]
fn copies_of_a_chain_move_apart() {
    let mut chain = ProcessingChain::new(TrackKind::Audio);
    let copy = chain;
    chain.report(Ok(())).unwrap();
    assert_eq!(chain.steps_done(), 1);
    assert_eq!(copy.steps_done(), 0);
}
