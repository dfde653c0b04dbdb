use llm_vn::buttons::{decode, ButtonSampler, InputSample};
use llm_vn::icd::ButtonAction;

fn sample(fn_1: bool, fn_2: bool, fn_3: bool, end_conversation: bool) -> InputSample {
    InputSample {
        fn_1,
        fn_2,
        fn_3,
        end_conversation,
    }
}

#[test]
fn decode_single_presses() {
    assert_eq!(decode(sample(true, false, false, false)), Some(ButtonAction::Fn1));
    assert_eq!(decode(sample(false, true, false, false)), Some(ButtonAction::Fn2));
    assert_eq!(decode(sample(false, false, true, false)), Some(ButtonAction::Fn3));
    assert_eq!(
        decode(sample(false, false, false, true)),
        Some(ButtonAction::EndConversation)
    );
}

#[test]
fn decode_rejects_no_press_and_multi_press() {
    assert_eq!(decode(sample(false, false, false, false)), None);
    assert_eq!(decode(sample(true, true, false, false)), None);
    assert_eq!(decode(sample(true, false, true, false)), None);
    assert_eq!(decode(sample(true, true, true, true)), None);
    assert_eq!(decode(sample(false, true, false, true)), None);
}

#[test]
fn first_sample_always_attempts_decode() {
    let mut sampler = ButtonSampler::new();
    let ev = sampler.tick(sample(false, true, false, false));
    let ev = ev.expect("first changed sample with a single press must publish");
    assert_eq!(ev.action, ButtonAction::Fn2);
    assert_eq!(ev.seq, 0);
}

#[test]
fn unchanged_sample_never_publishes() {
    let mut sampler = ButtonSampler::new();
    let pressed = sample(true, false, false, false);
    assert!(sampler.tick(pressed).is_some());
    assert!(sampler.tick(pressed).is_none());
    assert!(sampler.tick(pressed).is_none());
}

#[test]
fn ambiguous_change_never_publishes() {
    let mut sampler = ButtonSampler::new();
    assert!(sampler.tick(sample(true, true, false, false)).is_none());
    // A later valid press still publishes, with the sequence number untouched
    // by the anomaly.
    let ev = sampler.tick(sample(true, false, false, false)).unwrap();
    assert_eq!(ev.action, ButtonAction::Fn1);
    assert_eq!(ev.seq, 0);
}

#[test]
fn sequence_numbers_increase_by_one_per_publish() {
    let mut sampler = ButtonSampler::new();
    let idle = sample(false, false, false, false);
    let pressed = sample(false, false, true, false);
    // The idle sample is a change but decodes to nothing; only presses count.
    let mut expected: u8 = 0;
    for _ in 0..5 {
        let ev = sampler.tick(pressed).expect("press after idle publishes");
        assert_eq!(ev.action, ButtonAction::Fn3);
        assert_eq!(ev.seq, expected);
        expected = expected.wrapping_add(1);
        assert!(sampler.tick(idle).is_none());
    }
}

#[test]
fn sequence_number_wraps_at_256() {
    let mut sampler = ButtonSampler::new();
    let a = sample(true, false, false, false);
    let b = sample(false, true, false, false);
    // Alternate two valid presses: every tick is a change that publishes.
    for i in 0..256 {
        let s = if i % 2 == 0 { a } else { b };
        let ev = sampler.tick(s).unwrap();
        assert_eq!(ev.seq, i as u8);
    }
    let ev = sampler.tick(a).unwrap();
    assert_eq!(ev.seq, 0, "the sequence number wraps with no reset");
}
