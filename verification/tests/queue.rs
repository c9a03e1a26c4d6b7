use tts::{Effect, IdAllocator, Level, Moment, Notification, Utterance, UtteranceId, UtteranceQueue};

fn record(ids: &mut IdAllocator, text: &str) -> Utterance {
    let id = ids
        .next_utterance_id(tts::BackendId::WinRt(0))
        .expect("the library numbers the utterances of this backend");
    Utterance {
        id,
        text: text.to_string(),
        rate: Level::from_bits(1.0f32.to_bits()),
        pitch: Level::from_bits(1.0f32.to_bits()),
        volume: Level::from_bits(1.0f32.to_bits()),
        voice: None,
    }
}

fn notes(effects: &[Effect]) -> Vec<Notification> {
    let mut found = Vec::new();
    for effect in effects {
        if let Effect::Notify(n) = effect {
            found.push(*n);
        }
    }
    found
}

#[test]
fn two_utterances_back_to_back() {
    let mut ids = IdAllocator::new();
    let mut queue = UtteranceQueue::new();

    let first = record(&mut ids, "one");
    assert_eq!(first.id, UtteranceId::WinRt(0));
    let effects = queue.speak(first, false);
    assert_eq!(effects.len(), 2);
    assert!(matches!(&effects[0], Effect::Play(u) if u.id == UtteranceId::WinRt(0) && u.text == "one"));
    assert_eq!(
        notes(&effects),
        vec![Notification { moment: Moment::Begin, utterance: UtteranceId::WinRt(0) }]
    );

    let second = record(&mut ids, "two");
    assert_eq!(second.id, UtteranceId::WinRt(1));
    let effects = queue.speak(second, false);
    assert!(effects.is_empty());
    assert_eq!(queue.len(), 2);

    let effects = queue.finish();
    assert_eq!(
        notes(&effects),
        vec![
            Notification { moment: Moment::End, utterance: UtteranceId::WinRt(0) },
            Notification { moment: Moment::Begin, utterance: UtteranceId::WinRt(1) },
        ]
    );
    assert!(matches!(&effects[1], Effect::Play(u) if u.text == "two"));

    let effects = queue.finish();
    assert_eq!(
        notes(&effects),
        vec![Notification { moment: Moment::End, utterance: UtteranceId::WinRt(1) }]
    );
    assert!(!queue.is_speaking());
}

#[test]
fn stop_on_idle_queue_does_nothing() {
    let mut queue = UtteranceQueue::new();
    let effects = queue.stop();
    assert!(effects.is_empty());
    assert!(!queue.is_speaking());
    assert_eq!(queue.len(), 0);
}

#[test]
fn an_effect_announces_its_own_utterance_only() {
    let begin = Effect::Notify(Notification { moment: Moment::Begin, utterance: UtteranceId::WinRt(3) });
    assert!(begin.announces(UtteranceId::WinRt(3)));
    assert!(!begin.announces(UtteranceId::WinRt(4)));
    assert!(!begin.announces(UtteranceId::Web(3)));
    assert!(!Effect::Halt.announces(UtteranceId::WinRt(3)));
    let mut ids = IdAllocator::new();
    let played = Effect::Play(record(&mut ids, "text"));
    assert!(!played.announces(UtteranceId::WinRt(0)));
    assert!(!Effect::Forget(tts::BackendId::WinRt(3)).announces(UtteranceId::WinRt(3)));
}

#[test]
fn what_announces_a_refused_utterance_is_left_out() {
    let note = |moment, n| Effect::Notify(Notification { moment, utterance: UtteranceId::WinRt(n) });
    let mut ids = IdAllocator::new();
    let effects = vec![
        note(Moment::End, 7),
        note(Moment::Begin, 8),
        Effect::Halt,
        Effect::Play(record(&mut ids, "next")),
        note(Moment::Stop, 8),
        note(Moment::Begin, 9),
        Effect::Forget(tts::BackendId::WinRt(8)),
    ];
    let kept = tts::utterance::without_announcements_of(effects, UtteranceId::WinRt(8));
    assert_eq!(kept.len(), 5);
    assert!(matches!(&kept[0], Effect::Notify(n) if n.utterance == UtteranceId::WinRt(7)));
    assert!(matches!(&kept[1], Effect::Halt));
    assert!(matches!(&kept[2], Effect::Play(u) if u.text == "next"));
    assert!(matches!(&kept[3], Effect::Notify(n) if n.utterance == UtteranceId::WinRt(9) && n.moment == Moment::Begin));
    assert!(matches!(&kept[4], Effect::Forget(tts::BackendId::WinRt(8))));

    assert!(tts::utterance::without_announcements_of(Vec::new(), UtteranceId::WinRt(0)).is_empty());
    let only = tts::utterance::without_announcements_of(vec![note(Moment::Begin, 1)], UtteranceId::WinRt(1));
    assert!(only.is_empty());
}

#[test]
fn the_begin_of_a_refused_utterance_is_never_announced() {
    let mut ids = IdAllocator::new();
    let mut queue = UtteranceQueue::new();
    let first = record(&mut ids, "one");
    let refused = first.id;
    let mut effects = queue.speak(first, false);
    // The engine refuses the order to play: what stood behind it is sifted.
    let behind = effects.split_off(1);
    assert!(matches!(&effects[..], [Effect::Play(_)]));
    assert!(tts::utterance::without_announcements_of(behind, refused).is_empty());
    assert!(queue.reject().is_empty());
    assert!(!queue.is_speaking());
}
