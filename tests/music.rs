use pratik::music::{Key, Practice, PracticeType, Rythm, Scale, SpacedRepetition};
use pratik::record::RecordError;
use pratik::schedule::{record_chosen, select_due, top_up};
use pratik::time::Timestamp;

const DAY: i64 = 86_400;

fn item(level: SpacedRepetition, last: Timestamp) -> Practice {
    let mut p = Practice::create(PracticeType::Scale, Scale::Major, Key::Ab, Rythm::Samba, last);
    p.repetition_lvl = level;
    p
}

fn at(secs: i64) -> Timestamp {
    Timestamp { secs, nanos: 0 }
}

fn clock_now() -> Timestamp {
    let t = chrono::Utc::now();
    Timestamp { secs: t.timestamp(), nanos: t.timestamp_subsec_nanos() }
}

#[test]
fn parse_new_file() {
    let line = r#"{"practice_type": "Scale","scale": "Major","key": "Ab","rythm": "Samba","created": "2021-01-02T18:30:09.453+00:00",
        "repetition_lvl": "Seven","last_practiced": "2021-01-26T18:30:09.453+00:00"}"#;
    let mut e: Practice = Practice::from_json(line).unwrap();

    // Updates date_last practice to 8 days ago
    let now = clock_now();
    e.last_practiced = Timestamp { secs: now.secs - 8 * DAY, nanos: now.nanos };
    assert_eq!(e.repetition_lvl, SpacedRepetition::Seven);
    assert_eq!(e.needs_training(), true);
    e.update_practice();
    assert_eq!(e.needs_training(), false);
}

#[test]
fn record_without_rythm_is_missing_a_field() {
    let line = r#"{"practice_type": "Scale","scale": "Major","key": "Ab","created": "2021-01-02T18:30:09.453+00:00",
        "repetition_lvl": "Seven","last_practiced": "2021-01-26T18:30:09.453+00:00"}"#;
    assert_eq!(Practice::from_json(line), Err(RecordError::MissingField));
}

#[test]
fn record_fields_read_back() {
    let line = r#"{"practice_type": "Improv","scale": "Bebop7","key": "Gb","rythm": "PartidoAlto","created": "2021-01-02T18:30:09.453+00:00",
        "repetition_lvl": "ThirtyFive","last_practiced": "2021-01-26T18:30:09.453+00:00","future": 3}"#;
    let e = Practice::from_json(line).unwrap();
    assert_eq!(e.practice_type, PracticeType::Improv);
    assert_eq!(e.scale, Scale::Bebop7);
    assert_eq!(e.key, Key::Gb);
    assert_eq!(e.rythm, Rythm::PartidoAlto);
    assert_eq!(e.repetition_lvl, SpacedRepetition::ThirtyFive);
    assert_eq!(e.created, Timestamp { secs: 1_609_612_209, nanos: 453_000_000 });
    assert_eq!(e.last_practiced, Timestamp { secs: 1_609_612_209 + 24 * DAY, nanos: 453_000_000 });
}

#[test]
fn record_errors() {
    assert_eq!(Practice::from_json("not json"), Err(RecordError::Malformed));
    assert_eq!(Practice::from_json("[1, 2]"), Err(RecordError::Malformed));
    let unknown = r#"{"practice_type": "Dance","scale": "Major","key": "Ab","rythm": "Samba","created": "2021-01-02T18:30:09Z","repetition_lvl": "New","last_practiced": "2021-01-02T18:30:09Z"}"#;
    assert_eq!(Practice::from_json(unknown), Err(RecordError::UnknownName));
    let bad_time = r#"{"practice_type": "Song","scale": "Major","key": "Ab","rythm": "Samba","created": "yesterday","repetition_lvl": "New","last_practiced": "2021-01-02T18:30:09Z"}"#;
    assert_eq!(Practice::from_json(bad_time), Err(RecordError::BadTimestamp));
    let not_string = r#"{"practice_type": 1,"scale": "Major","key": "Ab","rythm": "Samba","created": "2021-01-02T18:30:09Z","repetition_lvl": "New","last_practiced": "2021-01-02T18:30:09Z"}"#;
    assert_eq!(Practice::from_json(not_string), Err(RecordError::MissingField));
    let far = item(SpacedRepetition::New, at(i64::MAX));
    assert_eq!(far.to_json(), Err(RecordError::TimestampOutOfRange));
}

#[test]
fn record_text_is_json_with_rfc3339_dates() {
    let p = Practice::create(
        PracticeType::Song,
        Scale::Dorian,
        Key::Db,
        Rythm::Waltz,
        Timestamp { secs: 1_609_612_209, nanos: 453_000_000 },
    );
    let text = p.to_json().unwrap();
    assert!(text.contains("\"practice_type\":\"Song\""));
    assert!(text.contains("\"rythm\":\"Waltz\""));
    assert!(text.contains("\"repetition_lvl\":\"New\""));
    assert!(text.contains("\"created\":\"2021-01-02T18:30:09.453+00:00\""));
    assert!(!text.contains('\n'));
}

#[test]
fn record_round_trip_every_combination() {
    let created = Timestamp { secs: 1_609_612_209, nanos: 453_000_000 };
    let last = Timestamp { secs: 1_700_000_000, nanos: 7 };
    for t in 0..3u64 {
        for s in 0..16u64 {
            for k in 0..12u64 {
                for r in 0..8u64 {
                    for l in 0..6u64 {
                        let p = Practice {
                            practice_type: PracticeType::from_index(t),
                            scale: Scale::from_index(s),
                            key: Key::from_index(k),
                            rythm: Rythm::from_index(r),
                            created,
                            repetition_lvl: SpacedRepetition::from_index(l),
                            last_practiced: last,
                        };
                        let text = p.to_json().unwrap();
                        assert_eq!(Practice::from_json(&text), Ok(p));
                    }
                }
            }
        }
    }
}

#[test]
fn done_is_never_due() {
    for days in [0i64, 1, 35, 1000, -5] {
        let p = item(SpacedRepetition::Done, at(0));
        assert!(!p.is_due(at(days * DAY)));
    }
}

#[test]
fn new_is_always_due() {
    for days in [0i64, 1, 35, 1000, -5] {
        let p = item(SpacedRepetition::New, at(0));
        assert!(p.is_due(at(days * DAY)));
    }
}

#[test]
fn due_thresholds() {
    let cases = [
        (SpacedRepetition::One, 1i64),
        (SpacedRepetition::Seven, 7),
        (SpacedRepetition::Sixteen, 16),
        (SpacedRepetition::ThirtyFive, 35),
    ];
    for (level, days) in cases {
        let p = item(level, at(1_000_000));
        assert!(p.is_due(at(1_000_000 + days * DAY)));
        assert!(!p.is_due(Timestamp { secs: 1_000_000 + days * DAY - 1, nanos: 999_999_999 }));
        assert!(!p.is_due(at(1_000_000 - days * DAY)));
    }
}

#[test]
fn ladder_advances_one_rung() {
    let order = [
        SpacedRepetition::New,
        SpacedRepetition::One,
        SpacedRepetition::Seven,
        SpacedRepetition::Sixteen,
        SpacedRepetition::ThirtyFive,
        SpacedRepetition::Done,
        SpacedRepetition::Done,
    ];
    for i in 0..6 {
        let mut p = item(order[i], at(5));
        p.record_practice(at(99));
        assert_eq!(p.repetition_lvl, order[i + 1]);
        assert_eq!(p.last_practiced, at(99));
        assert_eq!(p.created, at(5));
        assert_eq!(p.scale, Scale::Major);
    }
}

#[test]
fn seven_due_after_eight_days_then_sixteen() {
    let now = at(1_700_000_000);
    let mut p = item(SpacedRepetition::Seven, at(1_700_000_000 - 8 * DAY));
    assert!(p.is_due(now));
    p.record_practice(now);
    assert_eq!(p.repetition_lvl, SpacedRepetition::Sixteen);
    assert!(!p.is_due(now));
}

#[test]
fn bootstrap_makes_new_items() {
    let d = Practice::init_dataset(7);
    assert_eq!(d.len(), 7);
    assert!(d.iter().all(|p| p.repetition_lvl == SpacedRepetition::New));
    assert!(d.iter().all(|p| p.created == p.last_practiced));
    assert_eq!(Practice::init_dataset(0).len(), 0);
}

#[test]
fn top_up_fills_the_gap() {
    let extra = top_up(2, 5);
    assert_eq!(extra.len(), 3);
    assert!(extra.iter().all(|p| p.repetition_lvl == SpacedRepetition::New));
    assert!(extra.iter().all(|p| p.created == p.last_practiced));
    assert_eq!(top_up(5, 5).len(), 0);
    assert_eq!(top_up(9, 5).len(), 0);
    assert_eq!(top_up(0, 4).len(), 4);
}

#[test]
fn select_due_keeps_dataset_order() {
    let now = at(100 * DAY);
    let data = vec![
        item(SpacedRepetition::Done, at(0)),
        item(SpacedRepetition::New, at(100 * DAY)),
        item(SpacedRepetition::One, at(99 * DAY)),
        item(SpacedRepetition::Seven, at(95 * DAY)),
        item(SpacedRepetition::Sixteen, at(60 * DAY)),
    ];
    assert_eq!(select_due(&data, now), vec![1, 2, 4]);
    assert_eq!(select_due(&Vec::new(), now), Vec::<usize>::new());
}

#[test]
fn summary_shows_marker_and_attributes() {
    let mut p = Practice::create(PracticeType::Scale, Scale::Major, Key::Ab, Rythm::BossaNova, at(0));
    assert_eq!(p.summary(), "[NEW] Scale - Major - Ab - BossaNova");
    p.record_practice(at(1));
    p.record_practice(at(2));
    assert_eq!(p.summary(), "** Scale - Major - Ab - BossaNova");
    for _ in 0..4 {
        p.record_practice(at(3));
    }
    assert_eq!(p.summary(), "[DONE] Scale - Major - Ab - BossaNova");
}

#[test]
fn names_read_back() {
    assert_eq!(Scale::from_name("HalfWholeDim"), Some(Scale::HalfWholeDim));
    assert_eq!(Key::from_name("Bb"), Some(Key::Bb));
    assert_eq!(Key::from_name("H"), None);
    assert_eq!(SpacedRepetition::ThirtyFive.name(), "ThirtyFive");
    assert_eq!(Rythm::from_index(2), Rythm::Baiao);
}

#[test]
fn chosen_items_advance_others_stay() {
    let now = at(100 * DAY);
    let mut data = vec![
        item(SpacedRepetition::New, at(0)),
        item(SpacedRepetition::Done, at(0)),
        item(SpacedRepetition::One, at(50 * DAY)),
        item(SpacedRepetition::New, at(0)),
    ];
    let due = select_due(&data, now);
    assert_eq!(due, vec![0, 2, 3]);
    record_chosen(&mut data, &due, &vec![2, 1], now);
    assert_eq!(data[0].repetition_lvl, SpacedRepetition::New);
    assert_eq!(data[0].last_practiced, at(0));
    assert_eq!(data[1].repetition_lvl, SpacedRepetition::Done);
    assert_eq!(data[2].repetition_lvl, SpacedRepetition::Seven);
    assert_eq!(data[2].last_practiced, now);
    assert_eq!(data[3].repetition_lvl, SpacedRepetition::One);
    assert_eq!(data[3].last_practiced, now);
}

#[test]
fn misspelled_level_is_read() {
    assert_eq!(SpacedRepetition::from_name("ThrityFive"), Some(SpacedRepetition::ThirtyFive));
    let line = r#"{"practice_type": "Song","scale": "Minor","key": "E","rythm": "Blues","created": "2021-01-02T18:30:09Z","repetition_lvl": "ThrityFive","last_practiced": "2021-01-02T18:30:09Z"}"#;
    let p = Practice::from_json(line).unwrap();
    assert_eq!(p.repetition_lvl, SpacedRepetition::ThirtyFive);
    assert!(p.to_json().unwrap().contains("\"repetition_lvl\":\"ThirtyFive\""));
}

#[test]
fn equal_items_encode_equally() {
    let a = Practice::create(PracticeType::Improv, Scale::Altered, Key::Eb, Rythm::Ballad, at(1_650_000_000));
    let b = a;
    assert_eq!(a.to_json(), b.to_json());
    assert!(a.to_json().is_ok());
}
