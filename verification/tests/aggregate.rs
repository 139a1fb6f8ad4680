use rer_status::{
    aggregate, aggregate_with, date_messages, is_relevant, AggregationResult, Evidence, Message,
    RawMessage, Status, Timestamp, Vocabulary,
};

fn stamp(year: i32, month: u32, day: u32, hour: u32) -> Timestamp {
    Timestamp::new(year, month, day, hour, 0, 0).unwrap()
}

fn message(id: &str, text: &str, created_at: Timestamp) -> Message {
    Message { id: id.to_string(), text: text.to_string(), created_at }
}

fn raw(id: &str, text: &str, created_at: &str) -> RawMessage {
    RawMessage {
        id: id.to_string(),
        text: text.to_string(),
        created_at: created_at.to_string(),
        edit_history_ids: vec![id.to_string()],
    }
}

fn undecided() -> AggregationResult {
    AggregationResult { final_status: Status::Unknown, evidence: None }
}

fn decided(status: Status, text: &str, timestamp: Timestamp) -> AggregationResult {
    AggregationResult {
        final_status: status,
        evidence: Some(Evidence { text: text.to_string(), timestamp }),
    }
}

#[test]
fn empty_batch_is_unknown_without_evidence() {
    let now = stamp(2026, 10, 28, 12);
    assert_eq!(aggregate(&Vec::new(), &now), undecided());
}

#[test]
fn batch_of_other_days_is_unknown_without_evidence() {
    let now = stamp(2026, 10, 28, 12);
    let batch = vec![
        message("3", "Le trafic est perturbé", stamp(2026, 10, 27, 23)),
        message("2", "le trafic est rétabli", stamp(2026, 10, 26, 8)),
        message("1", "retard", stamp(2026, 10, 29, 0)),
    ];
    assert_eq!(aggregate(&batch, &now), undecided());
}

#[test]
fn later_resolved_message_wins_over_earlier_disrupted_one() {
    let now = stamp(2026, 10, 28, 12);
    let batch = vec![
        message("2", "Incident terminé : le trafic est rétabli", stamp(2026, 10, 28, 10)),
        message("1", "Le trafic est perturbé", stamp(2026, 10, 28, 8)),
    ];
    assert_eq!(
        aggregate(&batch, &now),
        decided(
            Status::Resolved,
            "Incident terminé : le trafic est rétabli",
            stamp(2026, 10, 28, 10)
        )
    );
}

#[test]
fn later_disrupted_message_wins_over_earlier_resolved_one() {
    let now = stamp(2026, 10, 28, 12);
    let batch = vec![
        message("2", "Nouveau retard sur la ligne", stamp(2026, 10, 28, 11)),
        message("1", "le trafic est rétabli", stamp(2026, 10, 28, 9)),
    ];
    assert_eq!(
        aggregate(&batch, &now),
        decided(Status::Disrupted, "Nouveau retard sur la ligne", stamp(2026, 10, 28, 11))
    );
}

#[test]
fn severity_has_no_say() {
    let now = stamp(2026, 10, 28, 12);
    let batch = vec![
        message("3", "✅", stamp(2026, 10, 28, 11)),
        message("2", "⛔️ acte de malveillance", stamp(2026, 10, 28, 10)),
        message("1", "⚠️ retard", stamp(2026, 10, 28, 9)),
    ];
    assert_eq!(aggregate(&batch, &now), decided(Status::Resolved, "✅", stamp(2026, 10, 28, 11)));
}

#[test]
fn message_that_signals_nothing_leaves_the_result_alone() {
    let now = stamp(2026, 10, 28, 12);
    let batch = vec![
        message("3", "Bonne journée à tous", stamp(2026, 10, 28, 11)),
        message("2", "Le trafic est perturbé", stamp(2026, 10, 28, 10)),
        message("1", "Bonjour", stamp(2026, 10, 28, 6)),
    ];
    assert_eq!(
        aggregate(&batch, &now),
        decided(Status::Disrupted, "Le trafic est perturbé", stamp(2026, 10, 28, 10))
    );
}

#[test]
fn batch_that_signals_nothing_is_unknown() {
    let now = stamp(2026, 10, 28, 12);
    let batch = vec![
        message("2", "Bonne journée à tous", stamp(2026, 10, 28, 11)),
        message("1", "Bonjour", stamp(2026, 10, 28, 6)),
    ];
    assert_eq!(aggregate(&batch, &now), undecided());
}

#[test]
fn message_of_another_day_is_ignored() {
    let now = stamp(2026, 10, 28, 12);
    let disrupted_yesterday = message("9", "Le trafic est perturbé", stamp(2026, 10, 27, 22));
    assert_eq!(aggregate(&vec![disrupted_yesterday.clone()], &now), undecided());

    let today = vec![
        message("2", "le trafic est rétabli", stamp(2026, 10, 28, 10)),
        message("1", "Bonjour", stamp(2026, 10, 28, 6)),
    ];
    let expected = aggregate(&today, &now);
    for at in 0..=today.len() {
        let mut batch = today.clone();
        batch.insert(at, disrupted_yesterday.clone());
        assert_eq!(aggregate(&batch, &now), expected, "inserted at {at}");
    }
    assert_eq!(expected.final_status, Status::Resolved);
}

#[test]
fn day_of_month_alone_decides_relevance() {
    let now = stamp(2026, 10, 28, 12);
    assert!(is_relevant(&message("1", "", stamp(2026, 10, 28, 0)), &now));
    assert!(is_relevant(&message("1", "", stamp(2026, 10, 28, 23)), &now));
    assert!(!is_relevant(&message("1", "", stamp(2026, 10, 27, 12)), &now));
    assert!(!is_relevant(&message("1", "", stamp(2026, 10, 29, 12)), &now));
    // The 28th of any month of any year counts as the 28th.
    assert!(is_relevant(&message("1", "", stamp(2026, 9, 28, 12)), &now));
    assert!(is_relevant(&message("1", "", stamp(1999, 2, 28, 12)), &now));
}

#[test]
fn message_of_the_same_day_of_another_month_counts() {
    let now = stamp(2026, 10, 28, 12);
    let batch = vec![message("1", "Le trafic est perturbé", stamp(2026, 9, 28, 7))];
    assert_eq!(
        aggregate(&batch, &now),
        decided(Status::Disrupted, "Le trafic est perturbé", stamp(2026, 9, 28, 7))
    );
}

#[test]
fn batch_is_read_newest_first() {
    let now = stamp(2026, 10, 28, 12);
    // The order of the batch decides, not the timestamps.
    let batch = vec![
        message("1", "Le trafic est perturbé", stamp(2026, 10, 28, 8)),
        message("2", "le trafic est rétabli", stamp(2026, 10, 28, 10)),
    ];
    assert_eq!(aggregate(&batch, &now).final_status, Status::Disrupted);
}

#[test]
fn aggregate_with_words_of_the_callers_choosing() {
    let now = stamp(2026, 10, 28, 12);
    let vocabulary = Vocabulary::new(vec!["all clear".to_string()], vec!["delay".to_string()]);
    let batch = vec![
        message("2", "retard", stamp(2026, 10, 28, 11)),
        message("1", "delay on line A", stamp(2026, 10, 28, 10)),
    ];
    assert_eq!(
        aggregate_with(&vocabulary, &batch, &now),
        decided(Status::Disrupted, "delay on line A", stamp(2026, 10, 28, 10))
    );
    assert_eq!(
        aggregate(&batch, &now),
        decided(Status::Disrupted, "retard", stamp(2026, 10, 28, 11))
    );
}

#[test]
fn aggregate_agrees_with_a_fold_oldest_first() {
    let now = stamp(2026, 10, 28, 12);
    let texts = ["retard", "Bonjour", "✅", "fermée", "est terminé", "rien", "sécurité"];
    let days = [28u32, 27, 28, 28, 29, 28, 28];
    for keep in 0..(1u32 << texts.len()) {
        let mut batch = Vec::new();
        for index in 0..texts.len() {
            if keep & (1 << index) != 0 {
                batch.push(message("x", texts[index], stamp(2026, 10, days[index], index as u32)));
            }
        }
        let mut expected = undecided();
        for m in batch.iter().rev() {
            if m.created_at.day != now.day {
                continue;
            }
            let status = rer_status::search_indicator(&m.text);
            if status != Status::Unknown {
                expected = decided(status, &m.text, m.created_at);
            }
        }
        assert_eq!(aggregate(&batch, &now), expected);
    }
}

#[test]
fn date_messages_reads_the_creation_times() {
    let batch = date_messages(&vec![
        raw("2", "le trafic est rétabli", "2026-10-28T10:00:00.000Z"),
        raw("1", "retard", "2026-10-28T09:30:00+02:00"),
    ]);
    assert_eq!(
        batch,
        vec![
            message("2", "le trafic est rétabli", stamp(2026, 10, 28, 10)),
            Message {
                id: "1".to_string(),
                text: "retard".to_string(),
                created_at: Timestamp::new(2026, 10, 28, 7, 30, 0).unwrap()
            },
        ]
    );
}

#[test]
fn date_messages_leaves_out_what_has_no_date() {
    let batch = date_messages(&vec![
        raw("4", "retard", "hier soir"),
        raw("3", "le trafic est rétabli", "2026-10-28T10:00:00Z"),
        raw("2", "fermée", ""),
        raw("1", "Bonjour", "2026-10-28T06:00:00Z"),
    ]);
    assert_eq!(
        batch,
        vec![
            message("3", "le trafic est rétabli", stamp(2026, 10, 28, 10)),
            message("1", "Bonjour", stamp(2026, 10, 28, 6)),
        ]
    );
    assert_eq!(date_messages(&Vec::new()), Vec::new());
}

#[test]
fn from_raw_dates_one_message() {
    let dated = Message::from_raw(&raw("7", "retard", "2021-03-01T09:00:00.000Z"));
    assert_eq!(dated, Some(message("7", "retard", Timestamp::new(2021, 3, 1, 9, 0, 0).unwrap())));
    assert_eq!(Message::from_raw(&raw("7", "retard", "2021-03-01")), None);
}

#[test]
fn validity_of_results_and_batches() {
    let good = stamp(2026, 10, 28, 10);
    let mut bad = good;
    bad.day = 31;
    bad.month = 2;
    assert!(undecided().is_valid());
    assert!(decided(Status::Resolved, "✅", good).is_valid());
    assert!(!decided(Status::Resolved, "✅", bad).is_valid());

    assert!(rer_status::all_validly_dated(&Vec::new()));
    assert!(rer_status::all_validly_dated(&vec![message("1", "a", good), message("2", "b", good)]));
    assert!(!rer_status::all_validly_dated(&vec![message("1", "a", good), message("2", "b", bad)]));
    assert!(!rer_status::all_validly_dated(&vec![message("1", "a", bad), message("2", "b", good)]));
}

#[test]
fn result_of_dated_messages_is_valid() {
    let batch = date_messages(&vec![
        raw("2", "retard", "2016-12-31T23:59:60Z"),
        raw("1", "✅", "0000-01-01T00:00:00+23:59"),
    ]);
    assert_eq!(batch.len(), 2);
    assert!(rer_status::all_validly_dated(&batch));
    let now = Timestamp::new(2026, 1, 31, 0, 0, 0).unwrap();
    let result = aggregate(&batch, &now);
    assert!(result.is_valid());
    assert_eq!(result.final_status, Status::Disrupted);
    let result = aggregate(&batch[1..].to_vec(), &now);
    assert!(result.is_valid());
    assert_eq!(
        result.evidence.map(|evidence| evidence.timestamp.display()),
        Some("31/12/-0001 00:01:00".to_string())
    );
}
