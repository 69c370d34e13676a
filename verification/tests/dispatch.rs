use ledger_age::dispatch::{Dispatcher, Phase};
use ledger_age::error::{
    AgeError, STATUS_MALFORMED_INPUT, STATUS_OK, STATUS_TAG_MISMATCH, STATUS_UNSUPPORTED,
    STATUS_USER_DENIED,
};
use ledger_age::instruction::{DecodeError, Instruction, Policy, Prompt};
use ledger_age::message::{Action, Event, Response};
use ledger_age::path::AGE_PATH;

/// Stands in for the operator and the secure element, and keeps count of
/// what was asked of them.
struct World {
    consent: bool,
    public_key: Result<Vec<u8>, u32>,
    shared_secret: Result<Vec<u8>, u32>,
    asked: Vec<Prompt>,
    exports: usize,
    agreements: Vec<Vec<u8>>,
    paths: Vec<[u32; 3]>,
}

fn sample_key() -> Vec<u8> {
    let mut key = vec![4u8];
    key.extend(0u8..64);
    key
}

fn sample_key_tag() -> Vec<u8> {
    vec![
        0x6b, 0xcd, 0xa9, 0x9d, 0x58, 0xe5, 0x96, 0x2b, 0x91, 0xd7, 0x0f, 0x9c, 0x5d, 0x24, 0x8e,
        0x07, 0x8f, 0x77, 0xdf, 0x6a, 0x8b, 0x3d, 0x8c, 0x84, 0xf8, 0x1f, 0x39, 0x39, 0x11, 0x21,
        0x58, 0x28,
    ]
}

fn sample_peer() -> Vec<u8> {
    let mut peer = vec![2u8];
    peer.extend([0x11u8; 32]);
    peer
}

fn sample_secret() -> Vec<u8> {
    (100u8..132).collect()
}

fn world(consent: bool) -> World {
    World {
        consent,
        public_key: Ok(sample_key()),
        shared_secret: Ok(sample_secret()),
        asked: Vec::new(),
        exports: 0,
        agreements: Vec::new(),
        paths: Vec::new(),
    }
}

fn tagged() -> Policy {
    Policy { confirm_recipient_disclosure: true, tag_confirmation: true }
}

/// Plays one command out against the world and returns the action that
/// ended it.
fn conclude(
    dispatcher: &mut Dispatcher,
    world: &mut World,
    opcode: u8,
    payload: Option<Vec<u8>>,
) -> Action {
    let mut action = dispatcher.step(Event::Command { opcode, payload });
    loop {
        action = match action {
            Action::Complete(outcome) => return Action::Complete(outcome),
            Action::Reject(error) => return Action::Reject(error),
            Action::Ask(prompt) => {
                world.asked.push(prompt);
                dispatcher.step(Event::Consent(world.consent))
            }
            Action::ExportPublicKey { path } => {
                world.exports += 1;
                world.paths.push(path);
                dispatcher.step(Event::PublicKey(world.public_key.clone()))
            }
            Action::Agree { path, peer } => {
                world.agreements.push(peer);
                world.paths.push(path);
                dispatcher.step(Event::SharedSecret(world.shared_secret.clone()))
            }
            Action::Ignore => panic!("a command from idle is never ignored"),
        };
    }
}

/// Plays one command out against the world and returns the response.
fn serve(
    dispatcher: &mut Dispatcher,
    world: &mut World,
    opcode: u8,
    payload: Option<Vec<u8>>,
) -> Response {
    match conclude(dispatcher, world, opcode, payload).into_response() {
        Some(response) => response,
        None => unreachable!("a command ends with a response"),
    }
}

#[test]
fn get_recipient_with_consent_returns_public_key() {
    let mut d = Dispatcher::new(tagged());
    let mut w = world(true);
    let r = serve(&mut d, &mut w, 2, Some(Vec::new()));
    assert_eq!(r.status, STATUS_OK);
    assert_eq!(r.status, 0x9000);
    assert_eq!(r.payload, sample_key());
    assert!(r.signals_activity());
    assert_eq!(w.asked, vec![Prompt::SendRecipient]);
    assert_eq!(w.exports, 1);
    assert!(w.agreements.is_empty());
    assert!(d.is_idle());
}

#[test]
fn get_recipient_ignores_its_payload() {
    let mut d = Dispatcher::new(tagged());
    let mut w = world(true);
    let a = serve(&mut d, &mut w, 2, None);
    let b = serve(&mut d, &mut w, 2, Some(vec![1, 2, 3]));
    let c = serve(&mut d, &mut w, 2, Some(Vec::new()));
    assert_eq!(a, b);
    assert_eq!(b, c);
    assert_eq!(a.payload, sample_key());
}

#[test]
fn get_recipient_without_gate_asks_nobody() {
    let mut d = Dispatcher::new(Policy { confirm_recipient_disclosure: false, tag_confirmation: false });
    let mut w = world(false);
    let r = serve(&mut d, &mut w, 2, Some(Vec::new()));
    assert_eq!(r.status, STATUS_OK);
    assert_eq!(r.payload, sample_key());
    assert!(w.asked.is_empty());
    assert_eq!(w.exports, 1);
}

#[test]
fn get_recipient_denied_derives_nothing() {
    let mut d = Dispatcher::new(tagged());
    let mut w = world(false);
    let r = serve(&mut d, &mut w, 2, Some(Vec::new()));
    assert_eq!(r.status, STATUS_USER_DENIED);
    assert!(r.payload.is_empty());
    assert!(!r.signals_activity());
    assert_eq!(w.exports, 0);
    assert!(w.agreements.is_empty());
    assert!(w.paths.is_empty());
}

#[test]
fn get_recipient_repeats_are_identical() {
    let mut d = Dispatcher::new(tagged());
    let mut w = world(true);
    let first = serve(&mut d, &mut w, 2, Some(Vec::new()));
    for _ in 0..16 {
        let again = serve(&mut d, &mut w, 2, Some(Vec::new()));
        assert_eq!(again, first);
        assert!(d.is_idle());
    }
    assert_eq!(w.exports, 17);
}

#[test]
fn unwrap_denied_returns_user_denied_and_no_payload() {
    let mut d = Dispatcher::new(tagged());
    let mut w = world(false);
    let r = serve(&mut d, &mut w, 3, Some(sample_peer()));
    assert_eq!(r.status, STATUS_USER_DENIED);
    assert_eq!(r.status, 0x69f0);
    assert!(r.payload.is_empty());
    assert_eq!(w.asked, vec![Prompt::SendDecryptionKey]);
    assert_eq!(w.exports, 0);
    assert!(w.agreements.is_empty());
    assert!(d.is_idle());
}

#[test]
fn unwrap_with_consent_agrees_exactly_once() {
    let mut d = Dispatcher::new(tagged());
    let mut w = world(true);
    let r = serve(&mut d, &mut w, 3, Some(sample_peer()));
    assert_eq!(r.status, STATUS_OK);
    assert_eq!(r.payload, sample_secret());
    assert_eq!(w.asked, vec![Prompt::SendDecryptionKey]);
    assert_eq!(w.agreements, vec![sample_peer()]);
    assert_eq!(w.exports, 0);
    assert_eq!(w.paths, vec![AGE_PATH]);
}

#[test]
fn unwrap_fault_is_reported_with_its_low_byte() {
    let mut d = Dispatcher::new(tagged());
    let mut w = world(true);
    w.shared_secret = Err(0xffff_ff21);
    let r = serve(&mut d, &mut w, 3, Some(sample_peer()));
    assert_eq!(r.status, 0x6821);
    assert!(r.payload.is_empty());
    assert_eq!(w.agreements.len(), 1);
}

#[test]
fn public_key_fault_is_reported_with_its_low_byte() {
    let mut d = Dispatcher::new(tagged());
    let mut w = world(true);
    w.public_key = Err(0x0000_5a03);
    let r = serve(&mut d, &mut w, 2, None);
    assert_eq!(r.status, 0x6803);
    assert!(r.payload.is_empty());
    let r = serve(&mut d, &mut w, 1, Some(sample_key_tag()));
    assert_eq!(r.status, 0x6803);
    assert!(r.payload.is_empty());
}

#[test]
fn confirm_recipient_with_wrong_tag_is_a_mismatch() {
    let mut d = Dispatcher::new(tagged());
    let mut w = world(true);
    let r = serve(&mut d, &mut w, 1, Some(vec![0xaa; 32]));
    assert_eq!(r.status, STATUS_TAG_MISMATCH);
    assert_eq!(r.status, 0x6af0);
    assert!(r.payload.is_empty());
    assert!(w.asked.is_empty());
    assert_eq!(w.exports, 1);
}

#[test]
fn confirm_recipient_with_the_digest_returns_the_key() {
    let mut d = Dispatcher::new(tagged());
    let mut w = world(false);
    let r = serve(&mut d, &mut w, 1, Some(sample_key_tag()));
    assert_eq!(r.status, STATUS_OK);
    assert_eq!(r.payload, sample_key());
    assert!(w.asked.is_empty());
    assert_eq!(w.exports, 1);
    assert_eq!(w.paths, vec![AGE_PATH]);
}

#[test]
fn confirm_recipient_with_the_key_itself_is_a_mismatch() {
    let mut d = Dispatcher::new(tagged());
    let mut w = world(true);
    let r = serve(&mut d, &mut w, 1, Some(sample_key()));
    assert_eq!(r.status, STATUS_TAG_MISMATCH);
    assert!(r.payload.is_empty());
}

#[test]
fn confirm_recipient_differing_in_one_byte_is_a_mismatch() {
    for at in [0usize, 15, 31] {
        let mut d = Dispatcher::new(tagged());
        let mut w = world(true);
        let mut tag = sample_key_tag();
        tag[at] ^= 0x01;
        let r = serve(&mut d, &mut w, 1, Some(tag));
        assert_eq!(r.status, STATUS_TAG_MISMATCH);
        assert!(r.payload.is_empty());
    }
}

#[test]
fn confirm_recipient_with_trailing_bytes_is_a_mismatch() {
    let mut d = Dispatcher::new(tagged());
    let mut w = world(true);
    let mut tag = sample_key_tag();
    tag.push(0);
    let r = serve(&mut d, &mut w, 1, Some(tag));
    assert_eq!(r.status, STATUS_TAG_MISMATCH);
    assert_eq!(w.exports, 1);
}

#[test]
fn confirm_recipient_with_short_tag_is_malformed() {
    let mut d = Dispatcher::new(tagged());
    let mut w = world(true);
    let mut tag = sample_key_tag();
    tag.pop();
    let r = serve(&mut d, &mut w, 1, Some(tag));
    assert_eq!(r.status, STATUS_MALFORMED_INPUT);
    assert!(r.payload.is_empty());
    assert_eq!(w.exports, 0);
}

#[test]
fn confirm_recipient_is_unsupported_without_tag_confirmation() {
    let mut d = Dispatcher::new(Policy { confirm_recipient_disclosure: true, tag_confirmation: false });
    let mut w = world(true);
    let r = serve(&mut d, &mut w, 1, Some(sample_key_tag()));
    assert_eq!(r.status, STATUS_UNSUPPORTED);
    assert!(r.payload.is_empty());
    assert_eq!(w.exports, 0);
}

#[test]
fn empty_payload_is_malformed_before_any_key_is_touched() {
    for opcode in [1u8, 3] {
        for payload in [None, Some(Vec::new())] {
            for consent in [false, true] {
                let mut d = Dispatcher::new(tagged());
                let mut w = world(consent);
                let r = serve(&mut d, &mut w, opcode, payload.clone());
                assert_eq!(r.status, STATUS_MALFORMED_INPUT);
                assert_eq!(r.status, 0x6e77);
                assert!(r.payload.is_empty());
                assert!(w.asked.is_empty());
                assert_eq!(w.exports, 0);
                assert!(w.agreements.is_empty());
                assert!(d.is_idle());
            }
        }
    }
}

#[test]
fn refusing_gate_means_no_derivation_at_all() {
    let mut d = Dispatcher::new(tagged());
    let mut w = world(false);
    for _ in 0..4 {
        serve(&mut d, &mut w, 2, None);
        serve(&mut d, &mut w, 3, Some(sample_peer()));
    }
    assert_eq!(w.asked.len(), 8);
    assert_eq!(w.exports, 0);
    assert!(w.agreements.is_empty());
}

#[test]
fn unknown_opcode_is_unsupported_and_the_session_goes_on() {
    let mut d = Dispatcher::new(tagged());
    let mut w = world(true);
    let r = serve(&mut d, &mut w, 0xff, Some(vec![1, 2, 3]));
    assert_eq!(r.status, STATUS_UNSUPPORTED);
    assert_eq!(r.status, 0x6d00);
    assert!(r.payload.is_empty());
    assert!(d.is_idle());
    assert!(w.asked.is_empty());
    assert_eq!(w.exports, 0);
    let r = serve(&mut d, &mut w, 2, Some(Vec::new()));
    assert_eq!(r.status, STATUS_OK);
    assert_eq!(r.payload, sample_key());
}

#[test]
fn every_other_opcode_is_unsupported() {
    for opcode in 0u8..=255 {
        if (1..=3).contains(&opcode) {
            continue;
        }
        let mut d = Dispatcher::new(tagged());
        let action = d.step(Event::Command { opcode, payload: None });
        assert_eq!(action, Action::Reject(DecodeError { opcode }));
        assert_eq!(
            action.into_response(),
            Some(Response { status: 0x6d00, payload: Vec::new() })
        );
        assert!(d.is_idle());
    }
}

#[test]
fn command_in_flight_is_not_displaced() {
    let mut d = Dispatcher::new(tagged());
    let first = d.step(Event::Command { opcode: 3, payload: Some(sample_peer()) });
    assert_eq!(first, Action::Ask(Prompt::SendDecryptionKey));
    assert_eq!(d.in_flight(), Some(Instruction::GetSharedKey));
    let second = d.step(Event::Command { opcode: 2, payload: None });
    assert_eq!(second, Action::Ignore);
    assert_eq!(d.phase, Phase::ConfirmingUnwrap { peer: sample_peer() });
    let next = d.step(Event::Consent(true));
    assert_eq!(next, Action::Agree { path: AGE_PATH, peer: sample_peer() });
    assert_eq!(d.phase, Phase::Unwrapping);
}

#[test]
fn stray_events_are_ignored() {
    let mut d = Dispatcher::new(tagged());
    assert_eq!(d.step(Event::Consent(true)), Action::Ignore);
    assert_eq!(d.step(Event::PublicKey(Ok(sample_key()))), Action::Ignore);
    assert_eq!(d.step(Event::SharedSecret(Ok(sample_secret()))), Action::Ignore);
    assert!(d.is_idle());
    assert_eq!(d.in_flight(), None);
    d.step(Event::Command { opcode: 2, payload: None });
    assert_eq!(d.in_flight(), Some(Instruction::GetRecipient));
    assert_eq!(d.step(Event::PublicKey(Ok(sample_key()))), Action::Ignore);
    assert_eq!(d.step(Event::SharedSecret(Ok(sample_secret()))), Action::Ignore);
    assert_eq!(d.phase, Phase::ConfirmingRecipient);
    assert_eq!(
        d.step(Event::Consent(true)),
        Action::ExportPublicKey { path: AGE_PATH }
    );
    assert_eq!(d.step(Event::Consent(true)), Action::Ignore);
    assert_eq!(d.step(Event::SharedSecret(Ok(sample_secret()))), Action::Ignore);
    assert_eq!(d.phase, Phase::DerivingRecipient);
    assert_eq!(d.step(Event::PublicKey(Ok(sample_key()))), Action::Complete(Ok(sample_key())));
    assert!(d.is_idle());
}

#[test]
fn policy_survives_every_step() {
    let policy = Policy { confirm_recipient_disclosure: false, tag_confirmation: true };
    let mut d = Dispatcher::new(policy);
    let mut w = world(true);
    serve(&mut d, &mut w, 1, Some(sample_key_tag()));
    serve(&mut d, &mut w, 2, None);
    serve(&mut d, &mut w, 3, Some(sample_peer()));
    serve(&mut d, &mut w, 9, None);
    assert_eq!(d.policy, policy);
}

#[test]
fn conclusions_are_typed() {
    let mut d = Dispatcher::new(tagged());
    let mut w = world(false);
    assert_eq!(
        conclude(&mut d, &mut w, 3, Some(sample_peer())),
        Action::Complete(Err(AgeError::UserDenied))
    );
    assert_eq!(
        conclude(&mut d, &mut w, 3, None),
        Action::Complete(Err(AgeError::MalformedInput))
    );
    assert_eq!(
        conclude(&mut d, &mut w, 1, Some(vec![0; 32])),
        Action::Complete(Err(AgeError::TagMismatch))
    );
    assert_eq!(
        conclude(&mut d, &mut w, 1, Some(sample_key_tag())),
        Action::Complete(Ok(sample_key()))
    );
    assert_eq!(conclude(&mut d, &mut w, 0, None), Action::Reject(DecodeError { opcode: 0 }));
    w.consent = true;
    w.shared_secret = Err(0x0001_0203);
    assert_eq!(
        conclude(&mut d, &mut w, 3, Some(sample_peer())),
        Action::Complete(Err(AgeError::CryptoFailure(0x0203)))
    );
    let open = Policy { confirm_recipient_disclosure: false, tag_confirmation: false };
    let mut d = Dispatcher::new(open);
    assert_eq!(
        conclude(&mut d, &mut w, 1, Some(sample_key_tag())),
        Action::Reject(DecodeError { opcode: 1 })
    );
}

#[test]
fn only_final_actions_have_a_response() {
    assert_eq!(Action::Ignore.into_response(), None);
    assert_eq!(Action::Ask(Prompt::SendRecipient).into_response(), None);
    assert_eq!(Action::ExportPublicKey { path: AGE_PATH }.into_response(), None);
    assert_eq!(Action::Agree { path: AGE_PATH, peer: sample_peer() }.into_response(), None);
    assert_eq!(
        Action::Complete(Ok(vec![5, 6])).into_response(),
        Some(Response { status: 0x9000, payload: vec![5, 6] })
    );
    assert_eq!(
        Action::Complete(Err(AgeError::UserDenied)).into_response(),
        Some(Response { status: 0x69f0, payload: Vec::new() })
    );
    assert_eq!(
        Action::Reject(DecodeError { opcode: 9 }).into_response(),
        Some(Response { status: 0x6d00, payload: Vec::new() })
    );
}
