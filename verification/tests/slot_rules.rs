use bounce::{
    BounceConfig, Command, Commit, CommitType, Cubesat, Event, Phase, Reaction, SlotInfo,
};

fn key_of(name: &str) -> Vec<u8> {
    let mut key = name.as_bytes().to_vec();
    key.resize(32, b'.');
    key
}

fn public_of(private_key: &[u8]) -> Vec<u8> {
    let mut key = b"public:".to_vec();
    key.extend_from_slice(private_key);
    key
}

fn signature_of(private_key: &[u8], msg: &[u8]) -> Vec<u8> {
    let mut signature = b"signed:".to_vec();
    signature.extend_from_slice(private_key);
    signature.extend_from_slice(msg);
    signature
}

fn joined(parts: &[Vec<u8>]) -> Vec<u8> {
    parts.concat()
}

fn unit(num_cubesats: usize, phase: Phase) -> Cubesat {
    let private_key = key_of("unit");
    let public_key = public_of(&private_key);
    let mut c = Cubesat::new(
        3,
        BounceConfig { num_cubesats, slot_duration: 10, phase1_duration: 4, phase2_duration: 4 },
        private_key,
        public_key,
    )
    .unwrap();
    c.slot_info.i = 1;
    c.enter(phase);
    c
}

fn from_peer(peer: &str, typ: CommitType, i: u32, j: u32, msg: &[u8]) -> Commit {
    let private_key = key_of(peer);
    Commit {
        typ,
        i,
        j,
        msg: msg.to_vec(),
        public_key: public_of(&private_key),
        signature: signature_of(&private_key, msg),
        aggregated: false,
    }
}

fn aggregated_by_peer(typ: CommitType, i: u32, j: u32) -> Commit {
    Commit {
        typ,
        i,
        j,
        msg: b"hello".to_vec(),
        public_key: b"aggregated key".to_vec(),
        signature: b"aggregated signature".to_vec(),
        aggregated: true,
    }
}

fn inbound(c: &mut Cubesat, commit: Commit) -> Reaction {
    let signature = if c.wants_signature(&commit) {
        Some(signature_of(&c.private_key, &commit.msg))
    } else {
        None
    };
    c.handle(Event::Inbound { commit, own_signature: signature })
}

fn deliver(c: &mut Cubesat, commit: Commit) -> Vec<Commit> {
    let reaction = inbound(c, commit);
    let mut sent = reaction.emitted;
    if let Some(quorum) = reaction.quorum {
        let closing = c.handle(Event::Aggregated {
            commit: quorum.commit,
            signature: joined(&quorum.signatures),
            public_key: joined(&quorum.public_keys),
        });
        sent.extend(closing.emitted);
    }
    sent
}

fn individual(sent: &[Commit]) -> usize {
    sent.iter().filter(|c| !c.aggregated).count()
}

fn aggregated(sent: &[Commit]) -> usize {
    sent.iter().filter(|c| c.aggregated).count()
}

#[test]
fn new_slot_info_is_stopped_and_empty() {
    let s = SlotInfo::new();
    assert_eq!(s.i, 0);
    assert_eq!(s.j, 0);
    assert_eq!(s.phase, Phase::Stop);
    assert!(!s.signed);
    assert!(!s.aggregated);
    assert!(s.precommits.is_empty());
    assert!(s.noncommits.is_empty());
}

#[test]
fn next_resets_all_but_the_last_finalized_slot() {
    let mut s = SlotInfo::new();
    s.i = 41;
    s.j = 40;
    s.phase = Phase::Third;
    s.signed = true;
    s.aggregated = true;
    s.precommits.push(from_peer("a", CommitType::Precommit, 41, 40, b"hello"));
    s.noncommits.push(from_peer("b", CommitType::Noncommit, 41, 40, b"hello"));

    s.next();

    assert_eq!(s.i, 42);
    assert_eq!(s.j, 40);
    assert_eq!(s.phase, Phase::First);
    assert!(!s.signed);
    assert!(!s.aggregated);
    assert!(s.precommits.is_empty());
    assert!(s.noncommits.is_empty());
}

#[test]
fn next_reaches_the_last_slot_index() {
    let mut s = SlotInfo::new();
    s.i = u32::MAX - 1;
    s.next();
    assert_eq!(s.i, u32::MAX);
}

#[test]
fn slot_tick_starts_the_next_slot() {
    let mut c = unit(1, Phase::Third);
    deliver(&mut c, from_peer("a", CommitType::Noncommit, 1, 0, b"hello"));
    assert!(c.slot_info.aggregated);
    assert_eq!(c.slot_info.j, 1);

    let reaction = c.handle(Event::SlotTick);

    assert!(reaction.emitted.is_empty());
    assert!(reaction.quorum.is_none());
    assert!(!reaction.stop);
    assert_eq!(c.slot_info.i, 2);
    assert_eq!(c.slot_info.j, 1);
    assert_eq!(c.slot_info.phase, Phase::First);
    assert!(!c.slot_info.signed);
    assert!(!c.slot_info.aggregated);
    assert!(c.slot_info.noncommits.is_empty());
}

#[test]
fn phase_two_tick_only_changes_the_phase() {
    let mut c = unit(3, Phase::First);
    deliver(&mut c, from_peer("a", CommitType::Precommit, 1, 0, b"hello"));

    let reaction = c.handle(Event::Phase2Tick);

    assert!(reaction.emitted.is_empty());
    assert!(!reaction.stop);
    assert_eq!(c.slot_info.phase, Phase::Second);
    assert!(c.slot_info.signed);
    assert_eq!(c.slot_info.precommits.len(), 1);
    assert_eq!(c.slot_info.i, 1);
}

#[test]
fn phase_three_tick_sends_the_boundary_noncommit() {
    let mut c = unit(3, Phase::Second);
    c.slot_info.i = 7;
    c.slot_info.j = 5;
    assert_eq!(c.boundary_message(), b"noncommit(6, 7)".to_vec());
    let signature = signature_of(&c.private_key, b"noncommit(6, 7)");

    let reaction = c.handle(Event::Phase3Tick { signature: signature.clone() });

    assert_eq!(reaction.emitted.len(), 1);
    assert!(reaction.quorum.is_none());
    assert!(!reaction.stop);
    let notice = &reaction.emitted[0];
    assert_eq!(notice.typ(), CommitType::Noncommit);
    assert_eq!(notice.i, 7);
    assert_eq!(notice.j, 5);
    assert_eq!(notice.msg, b"noncommit(6, 7)".to_vec());
    assert_eq!(notice.public_key, c.public_key);
    assert_eq!(notice.signature, signature);
    assert!(!notice.aggregated);
    assert_eq!(c.slot_info.phase, Phase::Third);
    assert!(!c.slot_info.signed);
    assert!(c.slot_info.noncommits.is_empty());
    assert_eq!(c.slot_info.i, 7);
    assert_eq!(c.slot_info.j, 5);
}

#[test]
fn boundary_noncommit_is_sent_even_after_aggregation() {
    let mut c = unit(1, Phase::Second);
    let sent = deliver(&mut c, from_peer("a", CommitType::Precommit, 1, 0, b"hello"));
    assert_eq!(aggregated(&sent), 1);
    assert!(c.slot_info.aggregated);

    let reaction = c.handle(Event::Phase3Tick { signature: b"s".to_vec() });

    assert_eq!(reaction.emitted.len(), 1);
    assert!(!reaction.emitted[0].aggregated);
    assert_eq!(reaction.emitted[0].msg, b"noncommit(2, 1)".to_vec());
    assert!(c.slot_info.aggregated);
}

#[test]
fn echo_of_the_boundary_noncommit_is_signed_and_recorded() {
    let mut c = unit(3, Phase::Second);
    let reaction = c.handle(Event::Phase3Tick { signature: b"s".to_vec() });
    let echo = reaction.emitted[0].clone();

    let sent = deliver(&mut c, echo);

    assert_eq!(sent.len(), 1);
    assert_eq!(sent[0].typ(), CommitType::Noncommit);
    assert_eq!(sent[0].public_key, c.public_key);
    assert!(c.slot_info.signed);
    assert_eq!(c.slot_info.noncommits.len(), 1);
}

#[test]
fn stopped_unit_ignores_every_commit() {
    let mut c = unit(1, Phase::Stop);

    assert!(!c.wants_signature(&from_peer("a", CommitType::Precommit, 1, 0, b"hello")));
    assert!(deliver(&mut c, from_peer("a", CommitType::Precommit, 1, 0, b"hello")).is_empty());
    assert!(deliver(&mut c, from_peer("a", CommitType::Noncommit, 1, 0, b"hello")).is_empty());
    assert!(deliver(&mut c, aggregated_by_peer(CommitType::Precommit, 9, 8)).is_empty());

    assert_eq!(c.slot_info.i, 1);
    assert_eq!(c.slot_info.j, 0);
    assert!(!c.slot_info.signed);
    assert!(!c.slot_info.aggregated);
    assert!(c.slot_info.precommits.is_empty());
    assert!(c.slot_info.noncommits.is_empty());
}

#[test]
fn aggregated_commit_is_adopted_in_every_running_phase() {
    for phase in [Phase::First, Phase::Second, Phase::Third] {
        for typ in [CommitType::Precommit, CommitType::Noncommit] {
            let mut c = unit(3, phase);
            c.slot_info.i = 4;
            c.slot_info.j = 2;

            let sent = deliver(&mut c, aggregated_by_peer(typ, 9, 8));

            assert!(sent.is_empty());
            assert!(c.slot_info.aggregated);
            assert!(!c.slot_info.signed);
            assert_eq!(c.slot_info.i, 9);
            assert_eq!(c.slot_info.j, 8);
            assert_eq!(c.slot_info.phase, phase);
            assert!(c.slot_info.precommits.is_empty());
            assert!(c.slot_info.noncommits.is_empty());
        }
    }
}

#[test]
fn nothing_is_sent_once_aggregated() {
    let mut c = unit(1, Phase::Second);
    deliver(&mut c, aggregated_by_peer(CommitType::Precommit, 1, 0));
    assert!(c.slot_info.aggregated);

    let mut sent = Vec::new();
    sent.extend(deliver(&mut c, from_peer("a", CommitType::Precommit, 1, 0, b"hello")));
    sent.extend(deliver(&mut c, from_peer("b", CommitType::Noncommit, 1, 0, b"hello")));
    sent.extend(deliver(&mut c, aggregated_by_peer(CommitType::Noncommit, 5, 4)));
    let late = c.handle(Event::Aggregated {
        commit: from_peer("a", CommitType::Precommit, 1, 0, b"hello"),
        signature: b"s".to_vec(),
        public_key: b"k".to_vec(),
    });
    sent.extend(late.emitted);
    c.handle(Event::Phase2Tick);
    sent.extend(deliver(&mut c, from_peer("c", CommitType::Precommit, 1, 0, b"hello")));

    assert!(sent.is_empty());
    assert!(c.slot_info.aggregated);
    assert!(!c.slot_info.signed);
    assert_eq!(c.slot_info.i, 1);
    assert_eq!(c.slot_info.j, 0);
    assert!(c.slot_info.precommits.is_empty());
    assert!(c.slot_info.noncommits.is_empty());
}

#[test]
fn one_individual_commit_per_slot() {
    let mut c = unit(7, Phase::First);
    let mut sent = Vec::new();
    sent.extend(deliver(&mut c, from_peer("a", CommitType::Precommit, 1, 0, b"hello")));
    sent.extend(deliver(&mut c, from_peer("b", CommitType::Precommit, 1, 0, b"hello")));
    c.handle(Event::Phase2Tick);
    sent.extend(deliver(&mut c, from_peer("c", CommitType::Noncommit, 1, 0, b"hello")));
    sent.extend(deliver(&mut c, from_peer("d", CommitType::Precommit, 1, 0, b"hello")));

    assert_eq!(individual(&sent), 1);
    assert_eq!(aggregated(&sent), 0);
    assert_eq!(sent[0].public_key, c.public_key);
    assert_eq!(c.slot_info.precommits.len(), 3);
    assert_eq!(c.slot_info.noncommits.len(), 1);

    c.handle(Event::SlotTick);
    let again = deliver(&mut c, from_peer("a", CommitType::Precommit, 2, 0, b"world"));
    assert_eq!(individual(&again), 1);
}

#[test]
fn one_aggregated_commit_per_slot() {
    let mut c = unit(3, Phase::Second);
    let mut sent = Vec::new();
    for peer in ["a", "b", "c", "d", "e"] {
        sent.extend(deliver(&mut c, from_peer(peer, CommitType::Precommit, 1, 0, b"hello")));
    }
    for peer in ["f", "g", "h"] {
        sent.extend(deliver(&mut c, from_peer(peer, CommitType::Noncommit, 1, 0, b"hello")));
    }

    assert_eq!(individual(&sent), 1);
    assert_eq!(aggregated(&sent), 1);
    assert!(sent[1].aggregated);
    assert_eq!(c.slot_info.precommits.len(), 3);
    assert!(c.slot_info.noncommits.is_empty());
    assert_eq!(c.slot_info.j, 1);
}

#[test]
fn supermajority_of_three_precommits_out_of_four_units() {
    let mut c = unit(4, Phase::First);
    c.slot_info.i = 6;
    c.slot_info.j = 5;
    let own_key = c.private_key.clone();

    let first = inbound(&mut c, from_peer("a", CommitType::Precommit, 6, 5, b"hello"));
    assert_eq!(first.emitted.len(), 1);
    assert!(first.quorum.is_none());
    let second = inbound(&mut c, from_peer("b", CommitType::Precommit, 6, 5, b"hello"));
    assert!(second.emitted.is_empty());
    assert!(second.quorum.is_none());
    let third = inbound(&mut c, from_peer("c", CommitType::Precommit, 6, 5, b"hello"));
    assert!(third.emitted.is_empty());
    assert!(!c.slot_info.aggregated);

    let quorum = third.quorum.unwrap();
    assert_eq!(
        quorum.signatures,
        vec![
            signature_of(&own_key, b"hello"),
            signature_of(&key_of("b"), b"hello"),
            signature_of(&key_of("c"), b"hello"),
        ]
    );
    assert_eq!(
        quorum.public_keys,
        vec![public_of(&own_key), public_of(&key_of("b")), public_of(&key_of("c"))]
    );
    assert_eq!(quorum.commit.public_key, public_of(&key_of("c")));

    let closing = c.handle(Event::Aggregated {
        commit: quorum.commit,
        signature: b"all signatures".to_vec(),
        public_key: b"all keys".to_vec(),
    });

    assert_eq!(closing.emitted.len(), 1);
    let sealed = &closing.emitted[0];
    assert!(sealed.aggregated);
    assert_eq!(sealed.typ(), CommitType::Precommit);
    assert_eq!(sealed.i, 6);
    assert_eq!(sealed.j, 5);
    assert_eq!(sealed.msg, b"hello".to_vec());
    assert_eq!(sealed.signature, b"all signatures".to_vec());
    assert_eq!(sealed.public_key, b"all keys".to_vec());
    assert!(c.slot_info.aggregated);
    assert_eq!(c.slot_info.j, 6);
    assert_eq!(c.slot_info.i, 6);
}

#[test]
fn second_phase_counts_the_two_kinds_apart() {
    let mut c = unit(3, Phase::Second);
    let mut sent = Vec::new();
    sent.extend(deliver(&mut c, from_peer("a", CommitType::Precommit, 1, 0, b"hello")));
    sent.extend(deliver(&mut c, from_peer("b", CommitType::Noncommit, 1, 0, b"hello")));
    sent.extend(deliver(&mut c, from_peer("c", CommitType::Precommit, 1, 0, b"hello")));
    sent.extend(deliver(&mut c, from_peer("d", CommitType::Noncommit, 1, 0, b"hello")));
    assert_eq!(aggregated(&sent), 0);
    assert!(!c.slot_info.aggregated);

    sent.extend(deliver(&mut c, from_peer("e", CommitType::Noncommit, 1, 0, b"hello")));

    assert_eq!(aggregated(&sent), 1);
    assert_eq!(sent.last().unwrap().typ(), CommitType::Noncommit);
    assert_eq!(c.slot_info.precommits.len(), 2);
    assert_eq!(c.slot_info.noncommits.len(), 3);
}

#[test]
fn commit_without_the_wanted_signature_is_left_aside() {
    let mut c = unit(1, Phase::First);
    let commit = from_peer("a", CommitType::Precommit, 1, 0, b"hello");
    assert!(c.wants_signature(&commit));

    let reaction = c.process(commit, None);

    assert!(reaction.emitted.is_empty());
    assert!(reaction.quorum.is_none());
    assert!(!c.slot_info.signed);
    assert!(c.slot_info.precommits.is_empty());
}

#[test]
fn signature_is_not_used_where_none_is_wanted() {
    let mut c = unit(3, Phase::Second);
    deliver(&mut c, from_peer("a", CommitType::Precommit, 1, 0, b"hello"));
    let late = from_peer("b", CommitType::Precommit, 1, 0, b"hello");
    assert!(!c.wants_signature(&late));

    let reaction = c.process(late, Some(b"unused".to_vec()));

    assert!(reaction.emitted.is_empty());
    assert_eq!(c.slot_info.precommits.len(), 2);
    assert_eq!(c.slot_info.precommits[1].signature, signature_of(&key_of("b"), b"hello"));
    assert_eq!(c.slot_info.precommits[1].public_key, public_of(&key_of("b")));
}

#[test]
fn aggregate_without_a_quorum_is_refused() {
    let mut c = unit(3, Phase::Second);
    deliver(&mut c, from_peer("a", CommitType::Precommit, 1, 0, b"hello"));

    let sealed = c.conclude(
        from_peer("a", CommitType::Precommit, 1, 0, b"hello"),
        b"s".to_vec(),
        b"k".to_vec(),
    );

    assert!(sealed.is_none());
    assert!(!c.slot_info.aggregated);
    assert_eq!(c.slot_info.j, 0);
}

#[test]
fn aggregate_of_a_kind_that_the_phase_does_not_take_is_refused() {
    let mut c = unit(1, Phase::Second);
    c.slot_info.precommits.push(from_peer("a", CommitType::Precommit, 1, 0, b"hello"));
    c.enter(Phase::Third);

    let sealed = c.conclude(
        from_peer("a", CommitType::Precommit, 1, 0, b"hello"),
        b"s".to_vec(),
        b"k".to_vec(),
    );

    assert!(sealed.is_none());
    assert!(!c.slot_info.aggregated);
}

#[test]
fn terminate_and_a_closed_control_channel_stop_the_unit() {
    let mut c = unit(1, Phase::First);
    let told = c.handle(Event::Control(Command::Terminate));
    assert!(told.stop);
    assert!(told.emitted.is_empty());
    let closed = c.handle(Event::ControlClosed);
    assert!(closed.stop);
    assert!(closed.emitted.is_empty());
    assert_eq!(c.slot_info.phase, Phase::First);
}

#[test]
fn aggregate_inputs_keep_the_order_of_the_commits() {
    let commits = vec![
        from_peer("a", CommitType::Precommit, 1, 0, b"x"),
        from_peer("b", CommitType::Precommit, 1, 0, b"y"),
    ];

    let (signatures, public_keys) = Cubesat::aggregate_inputs(&commits);

    assert_eq!(
        signatures,
        vec![signature_of(&key_of("a"), b"x"), signature_of(&key_of("b"), b"y")]
    );
    assert_eq!(public_keys, vec![public_of(&key_of("a")), public_of(&key_of("b"))]);
    let (none, no_keys) = Cubesat::aggregate_inputs(&Vec::new());
    assert!(none.is_empty());
    assert!(no_keys.is_empty());
}

#[test]
fn signed_unit_holds_its_own_commit() {
    for (phase, typ) in [
        (Phase::First, CommitType::Precommit),
        (Phase::Second, CommitType::Precommit),
        (Phase::Second, CommitType::Noncommit),
        (Phase::Third, CommitType::Noncommit),
    ] {
        let mut c = unit(7, phase);
        assert!(!c.slot_info.signed);
        deliver(&mut c, from_peer("a", typ, 1, 0, b"hello"));
        deliver(&mut c, from_peer("b", typ, 1, 0, b"hello"));

        assert!(c.slot_info.signed);
        let held = c.collected(typ);
        assert_eq!(held.len(), 2);
        assert_eq!(held[0].public_key, c.public_key);
        assert_eq!(held[0].signature, signature_of(&c.private_key, b"hello"));
        assert_eq!(held[1].public_key, public_of(&key_of("b")));
    }
}

#[test]
fn clone_of_a_slot_state_keeps_every_field() {
    let mut c = unit(7, Phase::Second);
    deliver(&mut c, from_peer("a", CommitType::Precommit, 1, 0, b"hello"));
    deliver(&mut c, from_peer("b", CommitType::Noncommit, 1, 0, b"hello"));
    c.slot_info.j = 9;

    let copy = c.slot_info.clone();

    assert_eq!(copy.i, 1);
    assert_eq!(copy.j, 9);
    assert_eq!(copy.phase, Phase::Second);
    assert!(copy.signed);
    assert!(!copy.aggregated);
    assert_eq!(copy.precommits.len(), 1);
    assert_eq!(copy.precommits[0].public_key, c.public_key);
    assert_eq!(copy.noncommits.len(), 1);
    assert_eq!(copy.noncommits[0].public_key, public_of(&key_of("b")));
}

#[test]
fn individual_commit_about_another_slot_is_ignored() {
    for phase in [Phase::First, Phase::Second, Phase::Third] {
        for typ in [CommitType::Precommit, CommitType::Noncommit] {
            for i in [0u32, 4, 6, u32::MAX] {
                let mut c = unit(1, phase);
                c.slot_info.i = 5;
                c.slot_info.j = 3;
                let stray = from_peer("a", typ, i, 3, b"hello");
                assert!(!c.wants_signature(&stray));

                let reaction = c.process(stray, Some(b"own".to_vec()));

                assert!(reaction.emitted.is_empty());
                assert!(reaction.quorum.is_none());
                assert!(!reaction.stop);
                assert_eq!(c.slot_info.i, 5);
                assert_eq!(c.slot_info.j, 3);
                assert_eq!(c.slot_info.phase, phase);
                assert!(!c.slot_info.signed);
                assert!(!c.slot_info.aggregated);
                assert!(c.slot_info.precommits.is_empty());
                assert!(c.slot_info.noncommits.is_empty());
            }
        }
    }
}

#[test]
fn stray_commit_does_not_count_towards_the_supermajority() {
    let mut c = unit(3, Phase::Second);
    let mut sent = Vec::new();
    sent.extend(deliver(&mut c, from_peer("a", CommitType::Precommit, 1, 0, b"hello")));
    sent.extend(deliver(&mut c, from_peer("b", CommitType::Precommit, 1, 0, b"hello")));
    sent.extend(deliver(&mut c, from_peer("c", CommitType::Precommit, 2, 0, b"hello")));
    sent.extend(deliver(&mut c, from_peer("d", CommitType::Precommit, 0, 0, b"hello")));

    assert_eq!(individual(&sent), 1);
    assert_eq!(aggregated(&sent), 0);
    assert_eq!(c.slot_info.precommits.len(), 2);
    assert!(!c.slot_info.aggregated);

    sent.extend(deliver(&mut c, from_peer("e", CommitType::Precommit, 1, 0, b"hello")));

    assert_eq!(aggregated(&sent), 1);
    assert_eq!(c.slot_info.precommits.len(), 3);
    assert!(c.slot_info.precommits.iter().all(|held| held.i == 1));
    assert_eq!(c.slot_info.j, 1);
}

#[test]
fn commit_of_the_slot_before_is_ignored_after_the_slot_tick() {
    let mut c = unit(3, Phase::First);
    c.handle(Event::SlotTick);
    assert_eq!(c.slot_info.i, 2);

    let late = deliver(&mut c, from_peer("a", CommitType::Precommit, 1, 0, b"hello"));
    assert!(late.is_empty());
    assert!(!c.slot_info.signed);
    assert!(c.slot_info.precommits.is_empty());

    let timely = deliver(&mut c, from_peer("a", CommitType::Precommit, 2, 0, b"hello"));
    assert_eq!(timely.len(), 1);
    assert!(c.slot_info.signed);
    assert_eq!(c.slot_info.precommits.len(), 1);
}

#[test]
fn aggregate_for_a_commit_about_another_slot_is_refused() {
    let mut c = unit(1, Phase::Second);
    c.slot_info.precommits.push(from_peer("a", CommitType::Precommit, 1, 0, b"hello"));

    let sealed = c.conclude(
        from_peer("a", CommitType::Precommit, 2, 0, b"hello"),
        b"s".to_vec(),
        b"k".to_vec(),
    );
    assert!(sealed.is_none());
    assert!(!c.slot_info.aggregated);
    assert_eq!(c.slot_info.j, 0);

    let closing = c.handle(Event::Aggregated {
        commit: from_peer("a", CommitType::Precommit, 0, 0, b"hello"),
        signature: b"s".to_vec(),
        public_key: b"k".to_vec(),
    });
    assert!(closing.emitted.is_empty());
    assert!(!c.slot_info.aggregated);

    let sealed = c.conclude(
        from_peer("a", CommitType::Precommit, 1, 0, b"hello"),
        b"s".to_vec(),
        b"k".to_vec(),
    );
    assert!(sealed.is_some());
    assert!(c.slot_info.aggregated);
    assert_eq!(c.slot_info.j, 1);
}

#[test]
fn aggregated_commit_about_another_slot_is_still_adopted() {
    let mut c = unit(3, Phase::Second);
    deliver(&mut c, from_peer("a", CommitType::Precommit, 1, 0, b"hello"));

    let sent = deliver(&mut c, aggregated_by_peer(CommitType::Noncommit, 8, 7));

    assert!(sent.is_empty());
    assert!(c.slot_info.aggregated);
    assert_eq!(c.slot_info.i, 8);
    assert_eq!(c.slot_info.j, 7);
    assert!(c.slot_info.signed);
    assert_eq!(c.slot_info.precommits.len(), 1);
}
