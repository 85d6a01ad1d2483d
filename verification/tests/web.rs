use datachannel_facade::web::{
    buffered_amount_low_threshold, channel_error_message, channel_is_closed, channel_is_open,
    data_channel_init, description, failure_report, gathering_state_from_web, local_candidate,
    local_description_type, remote_candidate, state_from_web, DataChannelOptions, Error,
    FailedStep, GatheringState, LocalDescriptionAction, LocalDescriptionEvent,
    LocalDescriptionTask, RawDescription, Reliability, SdpType, State, TransportPolicy,
};

fn raw(type_: &str, sdp: &str) -> RawDescription {
    RawDescription { type_: type_.to_owned(), sdp: sdp.to_owned() }
}

#[test]
fn sdp_types_round_trip_through_their_names() {
    for t in [SdpType::Answer, SdpType::Offer, SdpType::Pranswer, SdpType::Rollback] {
        assert_eq!(SdpType::from_web(t.to_web()), Some(t));
    }
    assert_eq!(SdpType::Offer.to_web(), "offer");
    assert_eq!(SdpType::Pranswer.to_web(), "pranswer");
    assert_eq!(SdpType::from_web("Offer"), None);
    assert_eq!(SdpType::from_web(""), None);
}

#[test]
fn descriptions_are_read_or_refused() {
    let d = description(Some(raw("answer", "v=0"))).unwrap();
    assert_eq!(d.type_, SdpType::Answer);
    assert_eq!(d.sdp, "v=0");
    assert_eq!(description(None).unwrap_err().message(), "no description");
    assert_eq!(
        description(Some(raw("bogus", "v=0"))).unwrap_err().to_string(),
        "unknown sdp type"
    );
}

#[test]
fn browser_states_map_onto_libdatachannel_states() {
    assert_eq!(state_from_web("new"), State::Connecting);
    assert_eq!(state_from_web("connecting"), State::Connecting);
    assert_eq!(state_from_web("connected"), State::Connected);
    assert_eq!(state_from_web("disconnected"), State::Disconnected);
    assert_eq!(state_from_web("failed"), State::Failed);
    assert_eq!(state_from_web("closed"), State::Closed);
    assert_eq!(gathering_state_from_web("new"), GatheringState::New);
    assert_eq!(gathering_state_from_web("gathering"), GatheringState::InProgress);
    assert_eq!(gathering_state_from_web("complete"), GatheringState::Complete);
}

#[test]
fn a_reliable_channel_sets_no_limit() {
    let options = DataChannelOptions {
        reliability: Reliability {
            unordered: true,
            unreliable: false,
            max_packet_life_time: 500,
            max_retransmits: 3,
        },
        protocol: String::new(),
        negotiated: false,
        stream: None,
    };
    let init = data_channel_init(&options);
    assert!(!init.ordered);
    assert_eq!(init.max_packet_life_time, None);
    assert_eq!(init.max_retransmits, None);
    assert_eq!(init.protocol, None);
    assert!(!init.negotiated);
    assert_eq!(init.id, None);
}

#[test]
fn the_packet_lifetime_wins_over_retransmits() {
    let options = DataChannelOptions {
        reliability: Reliability {
            unordered: false,
            unreliable: true,
            max_packet_life_time: 500,
            max_retransmits: 3,
        },
        protocol: "chat".to_owned(),
        negotiated: true,
        stream: Some(7),
    };
    let init = data_channel_init(&options);
    assert!(init.ordered);
    assert_eq!(init.max_packet_life_time, Some(500));
    assert_eq!(init.max_retransmits, None);
    assert_eq!(init.protocol.as_deref(), Some("chat"));
    assert!(init.negotiated);
    assert_eq!(init.id, Some(7));
}

#[test]
fn retransmits_are_used_without_a_lifetime_and_truncated_to_16_bits() {
    let options = DataChannelOptions {
        reliability: Reliability {
            unordered: false,
            unreliable: true,
            max_packet_life_time: 0,
            max_retransmits: 70000,
        },
        ..Default::default()
    };
    let init = data_channel_init(&options);
    assert_eq!(init.max_packet_life_time, None);
    assert_eq!(init.max_retransmits, Some(4464));
}

#[test]
fn an_unrequested_type_follows_the_signaling_state() {
    assert_eq!(local_description_type(None, "stable"), SdpType::Offer);
    assert_eq!(local_description_type(None, "have-remote-offer"), SdpType::Answer);
    assert_eq!(local_description_type(None, "have-local-pranswer"), SdpType::Answer);
    assert_eq!(local_description_type(None, "have-local-offer"), SdpType::Offer);
    assert_eq!(
        local_description_type(Some(SdpType::Rollback), "have-remote-offer"),
        SdpType::Rollback
    );
}

#[test]
fn an_offer_is_created_set_and_reported() {
    let (task, action) = LocalDescriptionTask::start(None, "stable");
    assert_eq!(task, LocalDescriptionTask::Creating(SdpType::Offer));
    assert!(matches!(action, LocalDescriptionAction::CreateOffer));
    let (task, action) = task.step(LocalDescriptionEvent::Created(true));
    assert_eq!(task, LocalDescriptionTask::Setting(SdpType::Offer));
    assert!(matches!(action, LocalDescriptionAction::SetCreated(SdpType::Offer)));
    let (task, action) = task.step(LocalDescriptionEvent::LocalSet(true));
    assert_eq!(task, LocalDescriptionTask::Reading(SdpType::Offer));
    assert!(matches!(action, LocalDescriptionAction::ReadLocal));
    let (task, action) = task.step(LocalDescriptionEvent::LocalRead(Some(raw("offer", "v=0 o"))));
    assert_eq!(task, LocalDescriptionTask::Finished);
    match action {
        LocalDescriptionAction::Report { sdp, type_ } => {
            assert_eq!(sdp, "v=0 o");
            assert_eq!(type_, SdpType::Offer);
        }
        other => panic!("unexpected {other:?}"),
    }
}

#[test]
fn a_rejected_create_answer_fails_the_task() {
    let (task, action) = LocalDescriptionTask::start(None, "have-remote-offer");
    assert_eq!(task, LocalDescriptionTask::Creating(SdpType::Answer));
    assert!(matches!(action, LocalDescriptionAction::CreateAnswer));
    let (task, action) = task.step(LocalDescriptionEvent::Created(false));
    assert_eq!(task, LocalDescriptionTask::Finished);
    assert!(matches!(action, LocalDescriptionAction::Fail(FailedStep::CreateAnswer)));
    let (task, action) = task.step(LocalDescriptionEvent::Created(true));
    assert_eq!(task, LocalDescriptionTask::Finished);
    assert!(matches!(action, LocalDescriptionAction::Stop));
}

#[test]
fn a_rollback_creates_nothing_and_reports_nothing() {
    let (task, action) = LocalDescriptionTask::start(Some(SdpType::Rollback), "have-local-offer");
    assert_eq!(task, LocalDescriptionTask::Setting(SdpType::Rollback));
    assert!(matches!(action, LocalDescriptionAction::SetRollback));
    let (task, action) = task.step(LocalDescriptionEvent::LocalSet(true));
    assert_eq!(task, LocalDescriptionTask::Finished);
    assert!(matches!(action, LocalDescriptionAction::Stop));
    // Even when an earlier description survives the rollback, a late
    // read reports nothing.
    let (task, action) = LocalDescriptionTask::Reading(SdpType::Rollback)
        .step(LocalDescriptionEvent::LocalRead(Some(raw("offer", "v=0"))));
    assert_eq!(task, LocalDescriptionTask::Finished);
    assert!(matches!(action, LocalDescriptionAction::Stop));
}

#[test]
fn a_failed_rollback_fails_the_task() {
    let (task, _) = LocalDescriptionTask::start(Some(SdpType::Rollback), "stable");
    let (task, action) = task.step(LocalDescriptionEvent::LocalSet(false));
    assert_eq!(task, LocalDescriptionTask::Finished);
    assert!(matches!(action, LocalDescriptionAction::Fail(FailedStep::SetLocalDescription)));
}

#[test]
fn a_provisional_answer_is_created_as_an_answer_and_set_as_a_pranswer() {
    let (task, action) = LocalDescriptionTask::start(Some(SdpType::Pranswer), "have-remote-offer");
    assert_eq!(task, LocalDescriptionTask::Creating(SdpType::Pranswer));
    assert!(matches!(action, LocalDescriptionAction::CreateAnswer));
    let (task, action) = task.step(LocalDescriptionEvent::Created(true));
    assert_eq!(task, LocalDescriptionTask::Setting(SdpType::Pranswer));
    assert!(matches!(action, LocalDescriptionAction::SetCreated(SdpType::Pranswer)));
    let (task, action) = task.step(LocalDescriptionEvent::LocalSet(true));
    assert!(matches!(action, LocalDescriptionAction::ReadLocal));
    let (task, action) = task.step(LocalDescriptionEvent::LocalRead(Some(raw("pranswer", "v=0 p"))));
    assert_eq!(task, LocalDescriptionTask::Finished);
    match action {
        LocalDescriptionAction::Report { sdp, type_ } => {
            assert_eq!(sdp, "v=0 p");
            assert_eq!(type_, SdpType::Pranswer);
        }
        other => panic!("unexpected {other:?}"),
    }
}

#[test]
fn a_read_back_description_is_reported_under_its_own_type() {
    let (task, action) = LocalDescriptionTask::Reading(SdpType::Offer)
        .step(LocalDescriptionEvent::LocalRead(Some(raw("answer", "v=0 a"))));
    assert_eq!(task, LocalDescriptionTask::Finished);
    match action {
        LocalDescriptionAction::Report { sdp, type_ } => {
            assert_eq!(sdp, "v=0 a");
            assert_eq!(type_, SdpType::Answer);
        }
        other => panic!("unexpected {other:?}"),
    }
}

#[test]
fn a_rejected_set_local_description_fails_the_task() {
    let (task, _) = LocalDescriptionTask::start(Some(SdpType::Pranswer), "stable");
    assert_eq!(task, LocalDescriptionTask::Creating(SdpType::Pranswer));
    let (task, _) = task.step(LocalDescriptionEvent::Created(true));
    let (task, action) = task.step(LocalDescriptionEvent::LocalSet(false));
    assert_eq!(task, LocalDescriptionTask::Finished);
    assert!(matches!(action, LocalDescriptionAction::Fail(FailedStep::SetLocalDescription)));
}

#[test]
fn an_unknown_local_type_is_not_reported() {
    let (task, action) = LocalDescriptionTask::Reading(SdpType::Offer)
        .step(LocalDescriptionEvent::LocalRead(Some(raw("weird", "v=0"))));
    assert_eq!(task, LocalDescriptionTask::Finished);
    assert!(matches!(action, LocalDescriptionAction::Stop));
}

#[test]
fn a_failure_is_logged_and_drives_the_connection_to_failed() {
    let e = Error::new("boom".to_owned());
    let (line, state) = failure_report(FailedStep::SetRemoteDescription, &e);
    assert_eq!(line, "setRemoteDescription failed: boom");
    assert_eq!(state, State::Failed);
    let (line, _) = failure_report(FailedStep::AddIceCandidate, &e);
    assert_eq!(line, "addIceCandidate failed: boom");
    assert_eq!(FailedStep::CreateOffer.name(), "createOffer");
}

#[test]
fn an_empty_candidate_means_end_of_candidates() {
    assert!(remote_candidate("").is_none());
    let c = remote_candidate("candidate:1 1 udp 1 1.2.3.4 5 typ host").unwrap();
    assert_eq!(c.candidate, "candidate:1 1 udp 1 1.2.3.4 5 typ host");
    assert_eq!(c.sdp_m_line_index, 0);
    assert_eq!(local_candidate(None), "");
    assert_eq!(local_candidate(Some("candidate:x".to_owned())), "candidate:x");
}

#[test]
fn channel_ready_states() {
    assert!(channel_is_open("open"));
    assert!(!channel_is_open("connecting"));
    assert!(!channel_is_open("closed"));
    assert!(channel_is_closed("closed"));
    assert!(!channel_is_closed("closing"));
}

#[test]
fn thresholds_are_truncated_to_32_bits() {
    assert_eq!(buffered_amount_low_threshold(1024), 1024);
    assert_eq!(buffered_amount_low_threshold(0), 0);
    if usize::BITS > 32 {
        assert_eq!(buffered_amount_low_threshold((1usize << 32) + 5), 5);
    }
}

#[test]
fn error_messages() {
    assert_eq!(channel_error_message(None), "data channel error");
    assert_eq!(channel_error_message(Some("sctp reset".to_owned())), "sctp reset");
    let e = Error::from_thrown(Some("TypeError: x".to_owned()), "JsValue(...)".to_owned());
    assert_eq!(e.message(), "TypeError: x");
    let e = Error::from_thrown(None, "JsValue(42)".to_owned());
    assert_eq!(e.to_string(), "JsValue(42)");
}

#[test]
fn transport_policy_names_and_default() {
    assert_eq!(TransportPolicy::default(), TransportPolicy::All);
    assert_eq!(TransportPolicy::All.to_web(), "all");
    assert_eq!(TransportPolicy::Relay.to_web(), "relay");
}
