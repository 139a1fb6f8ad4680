use rer_status::{search_indicator, Status, Vocabulary};

#[test]
fn every_resolved_word_signals_resolved() {
    let words = [
        "Fin de stationnement",
        "Le train repart",
        "le trafic est rétabli",
        "est terminé",
        "✅",
        "Le trafic est rétabli",
    ];
    for word in words {
        assert_eq!(search_indicator(word), Status::Resolved, "{word}");
        let sentence = format!("RER A : {word} depuis 9h.");
        assert_eq!(search_indicator(&sentence), Status::Resolved, "{sentence}");
    }
}

#[test]
fn every_disrupted_word_signals_disrupted() {
    let words = [
        "est perturbé",
        "stationne en raison",
        "retard",
        "gêne de circulation",
        "incident de signalisation",
        "fermée",
        "sécurité",
        "acte de malveillance",
        "sans voyageur",
        "⚠️",
        "⛔️",
    ];
    for word in words {
        assert_eq!(search_indicator(word), Status::Disrupted, "{word}");
        let sentence = format!("RER B : {word} à Châtelet.");
        assert_eq!(search_indicator(&sentence), Status::Disrupted, "{sentence}");
    }
}

#[test]
fn text_without_a_word_is_unknown() {
    assert_eq!(search_indicator(""), Status::Unknown);
    assert_eq!(search_indicator("Bonjour à tous, bonne journée sur la ligne."), Status::Unknown);
}

#[test]
fn resolved_word_wins_over_disrupted_word() {
    let text = "Le trafic est perturbé ⚠️ ... puis le trafic est rétabli";
    assert_eq!(search_indicator(text), Status::Resolved);
    assert_eq!(search_indicator("retard est terminé"), Status::Resolved);
    assert_eq!(search_indicator("✅ fermée"), Status::Resolved);
}

#[test]
fn matching_is_case_sensitive() {
    assert_eq!(search_indicator("le trafic est rétabli"), Status::Resolved);
    assert_eq!(search_indicator("Le trafic est rétabli"), Status::Resolved);
    assert_eq!(search_indicator("LE TRAFIC EST RÉTABLI"), Status::Unknown);
    assert_eq!(search_indicator("Le Trafic est rétabli"), Status::Unknown);
    assert_eq!(search_indicator("Est terminé"), Status::Unknown);
    assert_eq!(search_indicator("le train repart"), Status::Unknown);
    assert_eq!(search_indicator("RETARD"), Status::Unknown);
}

#[test]
fn matching_ignores_word_boundaries() {
    assert_eq!(search_indicator("un retardataire"), Status::Disrupted);
    assert_eq!(search_indicator("xxfermée"), Status::Disrupted);
}

#[test]
fn part_of_a_word_is_no_match() {
    assert_eq!(search_indicator("retar"), Status::Unknown);
    assert_eq!(search_indicator("est termin"), Status::Unknown);
    assert_eq!(search_indicator("⚠"), Status::Unknown);
}

#[test]
fn classify_is_repeatable() {
    let text = "Le train stationne en raison d'un incident";
    let first = search_indicator(text);
    for _ in 0..5 {
        assert_eq!(search_indicator(text), first);
    }
    assert_eq!(first, Status::Disrupted);
}

#[test]
fn standard_vocabulary_holds_the_built_in_lists() {
    let vocabulary = Vocabulary::standard();
    assert_eq!(vocabulary.resolved.len(), 6);
    assert_eq!(vocabulary.disrupted.len(), 11);
    assert_eq!(vocabulary.resolved[0], "Fin de stationnement");
    assert_eq!(vocabulary.resolved[2], "le trafic est rétabli");
    assert_eq!(vocabulary.resolved[4], "✅");
    assert_eq!(vocabulary.resolved[5], "Le trafic est rétabli");
    assert_eq!(vocabulary.disrupted[0], "est perturbé");
    assert_eq!(vocabulary.disrupted[10], "⛔️");
    for word in &vocabulary.resolved {
        assert!(!vocabulary.disrupted.contains(word));
    }
}

#[test]
fn vocabulary_of_the_callers_choosing() {
    let vocabulary = Vocabulary::new(
        vec!["back to normal".to_string()],
        vec!["delay".to_string(), "closed".to_string()],
    );
    assert_eq!(vocabulary.classify("service is back to normal"), Status::Resolved);
    assert_eq!(vocabulary.classify("a delay of ten minutes"), Status::Disrupted);
    assert_eq!(vocabulary.classify("station closed"), Status::Disrupted);
    assert_eq!(vocabulary.classify("delay over, back to normal"), Status::Resolved);
    assert_eq!(vocabulary.classify("retard"), Status::Unknown);
}

#[test]
fn empty_vocabulary_knows_nothing() {
    let vocabulary = Vocabulary::new(Vec::new(), Vec::new());
    assert_eq!(vocabulary.classify("retard ✅"), Status::Unknown);
}

#[test]
fn empty_word_occurs_in_every_text() {
    let vocabulary = Vocabulary::new(Vec::new(), vec![String::new()]);
    assert_eq!(vocabulary.classify(""), Status::Disrupted);
    assert_eq!(vocabulary.classify("tout"), Status::Disrupted);
}
