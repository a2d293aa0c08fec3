use federation_join::{
    accept_join, build_template, check_template, contains_version, default_versions, normalize_versions,
    select_version, submit_join, EventTemplate, JoinError, JoinEvent, JoinPhase, JoinResponse,
    JoinTemplate, MembershipEventContent, Pdu, ResidentServer, RoomIdentifier, RoomSnapshot,
    RoomState, SignedEvent, UserIdentifier,
};

fn strings(items: &[&str]) -> Vec<String> {
    items.iter().map(|s| s.to_string()).collect()
}

fn server() -> ResidentServer {
    ResidentServer { origin: "example.org".to_string(), versions: strings(&["2", "1"]) }
}

fn room() -> RoomIdentifier {
    RoomIdentifier::parse("!abc:example.org").unwrap()
}

fn alice() -> UserIdentifier {
    UserIdentifier::parse("@alice:example.org").unwrap()
}

fn event(id: &str, auth: &[&str]) -> Pdu {
    Pdu {
        room_version: "1".to_string(),
        event_id: id.to_string(),
        room_id: "!abc:example.org".to_string(),
        sender: "@creator:example.org".to_string(),
        origin: "example.org".to_string(),
        origin_server_ts: 1_000,
        event_type: "m.room.create".to_string(),
        state_key: String::new(),
        content: None,
        auth_events: strings(auth),
        signature: vec![7, 7],
    }
}

fn signed() -> SignedEvent {
    SignedEvent { event_id: "$join1".to_string(), signature: vec![1, 2, 3] }
}

fn join_pdu() -> Pdu {
    let t = build_template(&server(), &room(), &alice(), strings(&["1", "2"]), true, true, 42)
        .unwrap();
    submit_join(&room(), &t.room_version, t.event, &strings(&["1", "2", "3"]), Some(signed()))
        .unwrap()
}

fn snapshot() -> RoomSnapshot {
    RoomSnapshot {
        state: vec![event("$power", &["$create"]), event("$create", &[])],
        auth_chain: Some(vec![event("$create", &[])]),
    }
}

#[test]
fn default_versions_is_the_baseline_alone() {
    assert_eq!(default_versions(), vec!["1".to_string()]);
}

#[test]
fn normalize_replaces_an_empty_list() {
    assert_eq!(normalize_versions(Vec::new()), vec!["1".to_string()]);
}

#[test]
fn normalize_keeps_a_given_list() {
    assert_eq!(normalize_versions(strings(&["3", "2"])), strings(&["3", "2"]));
    assert_eq!(normalize_versions(strings(&["1"])), strings(&["1"]));
}

#[test]
fn contains_version_finds_exact_tags_only() {
    let v = strings(&["1", "10"]);
    assert!(contains_version(&v, &"10".to_string()));
    assert!(contains_version(&v, &"1".to_string()));
    assert!(!contains_version(&v, &"0".to_string()));
    assert!(!contains_version(&Vec::new(), &"1".to_string()));
}

#[test]
fn select_version_prefers_the_hosts_order() {
    let hosted = strings(&["5", "2", "1"]);
    assert_eq!(select_version(&hosted, &strings(&["1", "2"])), Some("2".to_string()));
    assert_eq!(select_version(&hosted, &strings(&["1"])), Some("1".to_string()));
    assert_eq!(select_version(&hosted, &strings(&["1", "5", "2"])), Some("5".to_string()));
}

#[test]
fn select_version_without_common_version() {
    assert_eq!(select_version(&strings(&["5"]), &strings(&["1", "2"])), None);
    assert_eq!(select_version(&Vec::new(), &strings(&["1"])), None);
    assert_eq!(select_version(&strings(&["1"]), &Vec::new()), None);
}

#[test]
fn room_identifier_parses_and_keeps_its_text() {
    let id = RoomIdentifier::parse("!abc:example.org").unwrap();
    assert_eq!(id.as_str(), "!abc:example.org");
    assert!(id == id.clone());
    assert!(id.is_text(&"!abc:example.org".to_string()));
    assert!(!id.is_text(&"!abd:example.org".to_string()));
    assert!(id != RoomIdentifier::parse("!abc:example.com").unwrap());
}

#[test]
fn room_identifier_rejects_what_the_grammar_rejects() {
    for text in ["", "abc", "abc:example.org", "@abc:example.org", "!abc", "!abc:", "!:example.org", "!abc:exa mple.org"] {
        assert_eq!(RoomIdentifier::parse(text).unwrap_err(), JoinError::MalformedRequest, "{}", text);
    }
}

#[test]
fn user_identifier_parses_and_keeps_its_text() {
    let id = UserIdentifier::parse("@alice:example.org").unwrap();
    assert_eq!(id.as_str(), "@alice:example.org");
    assert_eq!(id.to_text(), "@alice:example.org".to_string());
    assert!(id == id.clone());
    assert!(id != UserIdentifier::parse("@bob:example.org").unwrap());
    assert!(UserIdentifier::parse("@alice:example.org:8448").is_ok());
}

#[test]
fn user_identifier_rejects_what_the_grammar_rejects() {
    for text in ["", "alice", "!alice:example.org", "@alice", "@:example.org", "@al ice:example.org", "@alice:exam_ple.org"] {
        assert_eq!(UserIdentifier::parse(text).unwrap_err(), JoinError::MalformedRequest, "{}", text);
    }
}

#[test]
fn template_for_alice() {
    let t = build_template(&server(), &room(), &alice(), strings(&["1", "2"]), true, true, 1_234)
        .unwrap();
    assert!(t.room_version == "1" || t.room_version == "2");
    assert_eq!(t.room_version, "2");
    assert_eq!(t.event.sender, "@alice:example.org");
    assert_eq!(t.event.state_key, "@alice:example.org");
    assert_eq!(t.event.content.membership, "join");
    assert_eq!(t.event.event_type, "m.room.member");
    assert_eq!(t.event.origin, "example.org");
    assert_eq!(t.event.origin_server_ts, 1_234);
}

#[test]
fn template_is_the_whole_expected_value() {
    let t = build_template(&server(), &room(), &alice(), strings(&["1"]), true, true, 9).unwrap();
    let expected = JoinTemplate {
        room_version: "1".to_string(),
        event: EventTemplate {
            sender: "@alice:example.org".to_string(),
            origin: "example.org".to_string(),
            origin_server_ts: 9,
            event_type: "m.room.member".to_string(),
            state_key: "@alice:example.org".to_string(),
            content: MembershipEventContent { membership: "join".to_string() },
        },
    };
    assert_eq!(t, expected);
}

#[test]
fn omitted_versions_are_answered_as_the_baseline() {
    let with_none = build_template(&server(), &room(), &alice(), Vec::new(), true, true, 5);
    let with_one = build_template(&server(), &room(), &alice(), strings(&["1"]), true, true, 5);
    assert_eq!(with_none, with_one);
    assert_eq!(with_none.unwrap().room_version, "1");

    let newer = ResidentServer { origin: "example.org".to_string(), versions: strings(&["6"]) };
    let a = build_template(&newer, &room(), &alice(), Vec::new(), true, true, 5);
    let b = build_template(&newer, &room(), &alice(), strings(&["1"]), true, true, 5);
    assert_eq!(a, b);
    assert!(a.is_err());
}

#[test]
fn template_for_an_unknown_room() {
    let r = build_template(&server(), &room(), &alice(), strings(&["1"]), false, true, 5);
    assert_eq!(r, Err(JoinError::NotFound));
    let r = build_template(&server(), &room(), &alice(), strings(&["9"]), false, false, 5);
    assert_eq!(r, Err(JoinError::NotFound));
}

#[test]
fn template_for_a_user_who_may_not_join() {
    let r = build_template(&server(), &room(), &alice(), strings(&["1"]), true, false, 5);
    assert_eq!(r, Err(JoinError::Unauthorized));
    let r = build_template(&server(), &room(), &alice(), strings(&["9"]), true, false, 5);
    assert_eq!(r, Err(JoinError::Unauthorized));
}

#[test]
fn template_without_a_common_version_names_both_lists() {
    let r = build_template(&server(), &room(), &alice(), strings(&["3", "4"]), true, true, 5);
    assert_eq!(
        r,
        Err(JoinError::UnsupportedRoomVersion {
            offered: strings(&["3", "4"]),
            supported: strings(&["2", "1"]),
        })
    );
    let newer = ResidentServer { origin: "example.org".to_string(), versions: strings(&["6"]) };
    let r = build_template(&newer, &room(), &alice(), Vec::new(), true, true, 5);
    assert_eq!(
        r,
        Err(JoinError::UnsupportedRoomVersion {
            offered: strings(&["1"]),
            supported: strings(&["6"]),
        })
    );
}

#[test]
fn submit_keeps_every_field_of_the_template() {
    let t = build_template(&server(), &room(), &alice(), strings(&["1", "2"]), true, true, 42)
        .unwrap();
    let pdu = submit_join(&room(), &t.room_version, t.event.clone(), &strings(&["2"]), Some(signed()))
        .unwrap();
    let expected = Pdu {
        room_version: "2".to_string(),
        event_id: "$join1".to_string(),
        room_id: "!abc:example.org".to_string(),
        sender: "@alice:example.org".to_string(),
        origin: "example.org".to_string(),
        origin_server_ts: 42,
        event_type: "m.room.member".to_string(),
        state_key: "@alice:example.org".to_string(),
        content: Some(MembershipEventContent { membership: "join".to_string() }),
        auth_events: Vec::new(),
        signature: vec![1, 2, 3],
    };
    assert_eq!(pdu, expected);
    assert_eq!(pdu.sender, t.event.sender);
    assert_eq!(pdu.state_key, t.event.state_key);
    assert_eq!(pdu.content, Some(t.event.content));
}

#[test]
fn submit_without_a_signature() {
    let t = build_template(&server(), &room(), &alice(), strings(&["1"]), true, true, 42).unwrap();
    let r = submit_join(&room(), &t.room_version, t.event, &strings(&["1"]), None);
    assert_eq!(r, Err(JoinError::SigningFailed));
}

#[test]
fn submit_in_a_version_that_cannot_be_written() {
    let t = build_template(&server(), &room(), &alice(), strings(&["2"]), true, true, 42).unwrap();
    let r = submit_join(&room(), &t.room_version, t.event.clone(), &strings(&["1", "3"]), Some(signed()));
    let expected = Err(JoinError::UnsupportedRoomVersion {
        offered: strings(&["2"]),
        supported: strings(&["1", "3"]),
    });
    assert_eq!(r, expected);
    let r = submit_join(&room(), &t.room_version, t.event, &strings(&["1", "3"]), None);
    assert_eq!(r, expected);
}

#[test]
fn round_trip_is_accepted() {
    let pdu = join_pdu();
    let state = accept_join(&server(), &room(), &pdu, true, true, snapshot(), true).unwrap();
    assert_eq!(state.origin, Some("example.org".to_string()));
    assert_eq!(state.state, snapshot().state);
    assert_eq!(Some(state.auth_chain.clone()), snapshot().auth_chain);
    assert_eq!(state.check_complete(), Ok(()));
}

#[test]
fn accepted_answer_may_omit_the_origin() {
    let state = accept_join(&server(), &room(), &join_pdu(), true, true, snapshot(), false).unwrap();
    assert_eq!(state.origin, None);
    assert_eq!(state.state.len(), 2);
    assert_eq!(state.auth_chain.len(), 1);
}

#[test]
fn pdu_for_another_room_is_a_mismatch() {
    let other = RoomIdentifier::parse("!xyz:example.org").unwrap();
    let r = accept_join(&server(), &other, &join_pdu(), true, true, snapshot(), true);
    assert_eq!(r, Err(JoinError::RoomMismatch));

    let mut broken = join_pdu();
    broken.room_id = "!xyz:example.org".to_string();
    broken.room_version = "77".to_string();
    broken.content = None;
    let gone = RoomSnapshot { state: Vec::new(), auth_chain: None };
    let r = accept_join(&server(), &room(), &broken, false, true, gone, true);
    assert_eq!(r, Err(JoinError::RoomMismatch));
}

#[test]
fn pdu_in_a_version_that_is_not_hosted() {
    let mut pdu = join_pdu();
    pdu.room_version = "3".to_string();
    let r = accept_join(&server(), &room(), &pdu, true, true, snapshot(), true);
    assert_eq!(
        r,
        Err(JoinError::UnsupportedRoomVersion {
            offered: strings(&["3"]),
            supported: strings(&["2", "1"]),
        })
    );
}

#[test]
fn pdu_that_is_no_self_join_is_malformed() {
    let mut pdu = join_pdu();
    pdu.state_key = "@bob:example.org".to_string();
    assert_eq!(accept_join(&server(), &room(), &pdu, true, true, snapshot(), true), Err(JoinError::MalformedPdu));

    let mut pdu = join_pdu();
    pdu.content = Some(MembershipEventContent { membership: "leave".to_string() });
    assert_eq!(accept_join(&server(), &room(), &pdu, true, true, snapshot(), true), Err(JoinError::MalformedPdu));

    let mut pdu = join_pdu();
    pdu.content = None;
    assert_eq!(accept_join(&server(), &room(), &pdu, true, true, snapshot(), true), Err(JoinError::MalformedPdu));

    let mut pdu = join_pdu();
    pdu.event_type = "m.room.message".to_string();
    assert_eq!(accept_join(&server(), &room(), &pdu, false, true, snapshot(), true), Err(JoinError::MalformedPdu));
}

#[test]
fn pdu_whose_signature_does_not_check() {
    let r = accept_join(&server(), &room(), &join_pdu(), false, true, snapshot(), true);
    assert_eq!(r, Err(JoinError::Unauthorized));
}

#[test]
fn pdu_of_a_user_who_may_not_join() {
    let r = accept_join(&server(), &room(), &join_pdu(), true, false, snapshot(), true);
    assert_eq!(r, Err(JoinError::Unauthorized));
    let r = accept_join(&server(), &room(), &join_pdu(), false, false, snapshot(), true);
    assert_eq!(r, Err(JoinError::Unauthorized));
}

#[test]
fn issued_template_passes_the_requesters_check() {
    let offered = strings(&["1", "2"]);
    let t = build_template(&server(), &room(), &alice(), offered.clone(), true, true, 7).unwrap();
    assert_eq!(check_template(&offered, &alice(), &t), Ok(()));

    let t = build_template(&server(), &room(), &alice(), Vec::new(), true, true, 7).unwrap();
    assert_eq!(check_template(&Vec::new(), &alice(), &t), Ok(()));
}

#[test]
fn template_in_a_version_that_was_not_offered_is_refused() {
    let t = build_template(&server(), &room(), &alice(), strings(&["2"]), true, true, 7).unwrap();
    assert_eq!(
        check_template(&strings(&["1", "3"]), &alice(), &t),
        Err(JoinError::UnsupportedRoomVersion {
            offered: strings(&["1", "3"]),
            supported: strings(&["2"]),
        })
    );
    assert_eq!(
        check_template(&Vec::new(), &alice(), &t),
        Err(JoinError::UnsupportedRoomVersion {
            offered: strings(&["1"]),
            supported: strings(&["2"]),
        })
    );
}

#[test]
fn template_that_is_no_self_join_of_the_user_is_refused() {
    let offered = strings(&["1"]);
    let good = build_template(&server(), &room(), &alice(), offered.clone(), true, true, 7).unwrap();
    let bob = UserIdentifier::parse("@bob:example.org").unwrap();
    assert_eq!(check_template(&offered, &bob, &good), Err(JoinError::MalformedPdu));

    let mut t = good.clone();
    t.event.state_key = "@bob:example.org".to_string();
    assert_eq!(check_template(&offered, &alice(), &t), Err(JoinError::MalformedPdu));

    let mut t = good.clone();
    t.event.content.membership = "invite".to_string();
    assert_eq!(check_template(&offered, &alice(), &t), Err(JoinError::MalformedPdu));

    let mut t = good.clone();
    t.event.event_type = "m.room.name".to_string();
    assert_eq!(check_template(&offered, &alice(), &t), Err(JoinError::MalformedPdu));
}

#[test]
fn missing_chain_is_not_passed_on() {
    let snap = RoomSnapshot { state: snapshot().state, auth_chain: None };
    let r = accept_join(&server(), &room(), &join_pdu(), true, true, snap, true);
    assert_eq!(r, Err(JoinError::AuthChainUnavailable));
}

#[test]
fn incomplete_chain_is_not_passed_on() {
    let snap = RoomSnapshot {
        state: vec![event("$power", &["$create"])],
        auth_chain: Some(vec![event("$other", &[])]),
    };
    let r = accept_join(&server(), &room(), &join_pdu(), true, true, snap, true);
    assert_eq!(r, Err(JoinError::AuthChainUnavailable));

    let snap = RoomSnapshot {
        state: vec![event("$power", &["$create"])],
        auth_chain: Some(vec![event("$create", &["$older"])]),
    };
    let r = accept_join(&server(), &room(), &join_pdu(), true, true, snap, true);
    assert_eq!(r, Err(JoinError::AuthChainUnavailable));
}

#[test]
fn empty_state_and_chain_are_complete() {
    let snap = RoomSnapshot { state: Vec::new(), auth_chain: Some(Vec::new()) };
    let state = accept_join(&server(), &room(), &join_pdu(), true, true, snap, false).unwrap();
    assert_eq!(state, RoomState { origin: None, auth_chain: Vec::new(), state: Vec::new() });
}

#[test]
fn received_state_is_checked_for_dangling_references() {
    let good = RoomState {
        origin: None,
        auth_chain: vec![event("$b", &["$a"]), event("$a", &[])],
        state: vec![event("$c", &["$a", "$b"])],
    };
    assert_eq!(good.check_complete(), Ok(()));

    let dangling_in_state = RoomState {
        origin: None,
        auth_chain: vec![event("$a", &[])],
        state: vec![event("$c", &["$a", "$b"])],
    };
    assert_eq!(dangling_in_state.check_complete(), Err(JoinError::AuthChainUnavailable));

    let dangling_in_chain = RoomState {
        origin: Some("example.org".to_string()),
        auth_chain: vec![event("$b", &["$a"])],
        state: vec![event("$c", &["$b"])],
    };
    assert_eq!(dangling_in_chain.check_complete(), Err(JoinError::AuthChainUnavailable));

    let only_in_state = RoomState {
        origin: None,
        auth_chain: Vec::new(),
        state: vec![event("$a", &[]), event("$c", &["$a"])],
    };
    assert_eq!(only_in_state.check_complete(), Err(JoinError::AuthChainUnavailable));
}

#[test]
fn join_response_carries_numbers_up_to_53_bits() {
    let state = RoomState { origin: None, auth_chain: Vec::new(), state: Vec::new() };
    let r = JoinResponse::new(0, state.clone()).unwrap();
    assert_eq!(r.some_number, 0);
    assert_eq!(r.state, state);
    let r = JoinResponse::new(9_007_199_254_740_991, state.clone()).unwrap();
    assert_eq!(r.some_number, 9_007_199_254_740_991);
    assert_eq!(JoinResponse::new(9_007_199_254_740_992, state.clone()), None);
    assert_eq!(JoinResponse::new(u64::MAX, state), None);
}

#[test]
fn a_join_that_goes_through() {
    let mut p = JoinPhase::start();
    assert_eq!(p, JoinPhase::Requested);
    assert!(!p.is_terminal());
    p = p.advance(JoinEvent::TemplateReceived);
    assert_eq!(p, JoinPhase::TemplateIssued);
    p = p.advance(JoinEvent::EventSigned);
    assert_eq!(p, JoinPhase::Signed);
    p = p.advance(JoinEvent::EventSent);
    assert_eq!(p, JoinPhase::Submitted);
    assert!(!p.is_terminal());
    p = p.advance(JoinEvent::StateReceived);
    assert_eq!(p, JoinPhase::Accepted);
    assert!(p.is_terminal());
    assert_eq!(p.advance(JoinEvent::Failed), JoinPhase::Accepted);
}

#[test]
fn a_join_that_fails_or_goes_out_of_order() {
    for p in [JoinPhase::Requested, JoinPhase::TemplateIssued, JoinPhase::Signed, JoinPhase::Submitted] {
        assert_eq!(p.advance(JoinEvent::Failed), JoinPhase::Rejected);
    }
    assert_eq!(JoinPhase::Requested.advance(JoinEvent::EventSigned), JoinPhase::Rejected);
    assert_eq!(JoinPhase::Signed.advance(JoinEvent::StateReceived), JoinPhase::Rejected);
    assert_eq!(JoinPhase::Submitted.advance(JoinEvent::TemplateReceived), JoinPhase::Rejected);
    assert!(JoinPhase::Rejected.is_terminal());
    assert_eq!(JoinPhase::Rejected.advance(JoinEvent::TemplateReceived), JoinPhase::Rejected);
    assert_eq!(JoinPhase::Rejected.advance(JoinEvent::StateReceived), JoinPhase::Rejected);
}

#[test]
fn every_error_has_its_own_code() {
    let errors = vec![
        JoinError::NotFound,
        JoinError::Unauthorized,
        JoinError::UnsupportedRoomVersion { offered: Vec::new(), supported: Vec::new() },
        JoinError::MalformedRequest,
        JoinError::MalformedPdu,
        JoinError::RoomMismatch,
        JoinError::SigningFailed,
        JoinError::AuthChainUnavailable,
    ];
    let codes: Vec<&str> = errors.iter().map(|e| e.code()).collect();
    assert_eq!(
        codes,
        vec![
            "M_NOT_FOUND",
            "M_FORBIDDEN",
            "M_INCOMPATIBLE_ROOM_VERSION",
            "M_INVALID_PARAM",
            "M_BAD_JSON",
            "M_ROOM_MISMATCH",
            "M_SIGNING_FAILED",
            "M_AUTH_CHAIN_UNAVAILABLE",
        ]
    );
}
