use vocab_review::cursor::{get_prounciation, resolve, resolve_word, total_pages, WORDS_PER_PAGE};
use vocab_review::db::{Connection, LookupError, Vocab, VocabDict, VocabSpeech};
use vocab_review::model::{set_panel_rank, setlang, AppModel};
use vocab_review::session::{ReviewPhase, SessionTokens};
use vocab_review::types::ServerAcceptLangauge;

fn vocab(word: &str, created_at: i64) -> Vocab {
    Vocab { vocab: word.to_string(), created_at, updated_at: created_at }
}

/// A deck where "w1" was added first and "w7" last, one second apart.
fn deck() -> Connection {
    let mut c = Connection::new();
    for i in 1..=7i64 {
        c.add_vocab(vocab(&format!("w{}", i), i * 1_000_000));
    }
    c
}

fn word_at(c: &Connection, position: i64) -> String {
    resolve(c, position).unwrap().0.vocab
}

fn empty_tokens() -> SessionTokens {
    SessionTokens {
        user_action_type: None,
        vocab_idx: None,
        state_choosen_lang: None,
        state_choosen_rank: None,
        flash: None,
    }
}

#[test]
fn first_position_is_most_recent() {
    let c = deck();
    let (v, pages) = resolve(&c, 1).unwrap();
    assert_eq!(v.vocab, "w7");
    assert_eq!(pages, 7);
}

#[test]
fn fifth_position_is_fifth_most_recent() {
    let c = deck();
    assert_eq!(word_at(&c, 5), "w3");
    assert_eq!(word_at(&c, 7), "w1");
}

#[test]
fn low_positions_read_first_word() {
    let c = deck();
    for p in [0, -1, -42, i64::MIN] {
        assert_eq!(word_at(&c, p), "w7");
    }
    assert_eq!(resolve_word(&c, 0).unwrap().0.vocab, "w7");
    assert_eq!(resolve_word(&c, 2).unwrap().0.vocab, "w6");
}

#[test]
fn empty_deck_has_no_words() {
    let c = Connection::new();
    for p in [i64::MIN, -1, 0, 1, 2, i64::MAX] {
        assert_eq!(resolve(&c, p).unwrap_err(), LookupError::NotFound);
    }
    for p in [i64::MIN, 0, 1, 5] {
        assert_eq!(Vocab::get_by_idx(p, &c).unwrap_err(), LookupError::NotFound);
    }
    assert_eq!(total_pages(c.vocab_count() as u64, WORDS_PER_PAGE), 0);
}

#[test]
fn past_last_position_is_not_found() {
    let c = deck();
    assert_eq!(resolve(&c, 8).unwrap_err(), LookupError::NotFound);
    assert_eq!(resolve_word(&c, u64::MAX).unwrap_err(), LookupError::NotFound);
    assert_eq!(Vocab::get_by_idx(8, &c).unwrap_err(), LookupError::NotFound);
    assert_eq!(Vocab::get_by_idx(i64::MAX, &c).unwrap_err(), LookupError::NotFound);
    let (entries, pages) = Vocab::get_by_idx(3, &c).unwrap();
    assert_eq!(pages, 7);
    assert_eq!(entries.len(), 1);
    assert_eq!(entries[0].vocab, "w5");
}

#[test]
fn equal_times_are_ordered_by_headword() {
    let mut c = Connection::new();
    c.add_vocab(vocab("old", 5));
    c.add_vocab(vocab("bb", 10));
    c.add_vocab(vocab("b", 10));
    c.add_vocab(vocab("a", 10));
    c.add_vocab(vocab("B", 10));
    c.add_vocab(vocab("older", 1));
    let order: Vec<String> = (1..=6).map(|p| word_at(&c, p)).collect();
    assert_eq!(order, ["B", "a", "b", "bb", "old", "older"]);
    assert_eq!(word_at(&c, 2), "a");
    assert_eq!(c.vocab_count(), 6);
}

#[test]
fn same_time_and_headword_put_latest_addition_first() {
    let mut c = Connection::new();
    c.add_vocab(Vocab { vocab: "w".to_string(), created_at: 3, updated_at: 1 });
    c.add_vocab(Vocab { vocab: "w".to_string(), created_at: 3, updated_at: 2 });
    assert_eq!(resolve(&c, 1).unwrap().0.updated_at, 2);
    assert_eq!(resolve(&c, 2).unwrap().0.updated_at, 1);
}

#[test]
fn page_totals_round_up() {
    assert_eq!(total_pages(0, 1), 0);
    assert_eq!(total_pages(5, WORDS_PER_PAGE), 5);
    assert_eq!(total_pages(6, 3), 2);
    assert_eq!(total_pages(7, 3), 3);
    assert_eq!(total_pages(u64::MAX, 2), 1u64 << 63);
}

fn speech(word: &str, mp3: Vec<u8>) -> VocabSpeech {
    VocabSpeech { id: 1, created_at: 0, updated_at: 0, vocab: word.to_string(), mp3 }
}

#[test]
fn missing_audio_is_not_found() {
    let mut c = deck();
    c.add_speech(speech("apple", vec![1, 2, 3]));
    assert_eq!(get_prounciation(&"pear".to_string(), &c), Err(LookupError::NotFound));
    assert_eq!(get_prounciation(&"Apple".to_string(), &c), Err(LookupError::NotFound));
    assert_eq!(get_prounciation(&"apple".to_string(), &c), Ok(vec![1, 2, 3]));
}

#[test]
fn empty_recording_is_returned_as_stored() {
    let mut c = Connection::new();
    c.add_speech(speech("hush", vec![]));
    c.add_speech(speech("hush", vec![9]));
    assert_eq!(get_prounciation(&"hush".to_string(), &c), Ok(vec![]));
    let s = VocabSpeech::get_by_word(&"hush".to_string(), &c).unwrap();
    assert_eq!(s.vocab, "hush");
}

#[test]
fn model_joins_state_and_word() {
    let mut c = deck();
    c.add_dict(VocabDict {
        id: 3,
        vocab: "w6".to_string(),
        partofspeech: "verb".to_string(),
        meaning: "to cheer".to_string(),
        created_at: 0,
        updated_at: 0,
    });
    let mut t = empty_tokens();
    t.user_action_type = Some("to_check".to_string());
    t.vocab_idx = Some("2".to_string());
    t.flash = Some("info saved".to_string());
    let m = AppModel::new(ServerAcceptLangauge::English, &t, &c).unwrap();
    assert_eq!(m.the_word, "w6");
    assert_eq!(m.the_word_type, "verb");
    assert_eq!(m.the_word_meaning, "to cheer");
    assert_eq!(m.state.phase, ReviewPhase::Checking);
    assert_eq!(m.user_progress_idx, 2);
    assert_eq!(m.lang, ServerAcceptLangauge::English);
    assert_eq!(m.flash_msg.as_deref(), Some("info saved"));
    assert_eq!(m.user_action_type, "to_check");
    assert_eq!(m.user_vocab_book_idx, 0);
}

#[test]
fn model_of_first_visit() {
    let c = deck();
    let mut t = empty_tokens();
    setlang(&mut t, "jp");
    set_panel_rank(&mut t, "Most Recent");
    assert_eq!(t.state_choosen_rank.as_deref(), Some("Most Recent"));
    let m = AppModel::new(ServerAcceptLangauge::SimpliedChinese, &t, &c).unwrap();
    assert_eq!(m.the_word, "w7");
    assert_eq!(m.the_word_type, "");
    assert_eq!(m.the_word_meaning, "");
    assert_eq!(m.user_progress_idx, 1);
    assert_eq!(m.state.phase, ReviewPhase::Answering);
    assert_eq!(m.lang, ServerAcceptLangauge::Japananese);
    assert_eq!(m.flash_msg, None);
    assert_eq!(m.user_action_type, "to_answer");
}

#[test]
fn model_reads_plus_signed_index() {
    let c = deck();
    let mut t = empty_tokens();
    t.vocab_idx = Some("+5".to_string());
    let m = AppModel::new(ServerAcceptLangauge::English, &t, &c).unwrap();
    assert_eq!(m.the_word, "w3");
    assert_eq!(m.user_progress_idx, 5);
    let again = AppModel::new(ServerAcceptLangauge::English, &t, &c).unwrap();
    assert_eq!(again.the_word, m.the_word);
    assert_eq!(again.state, m.state);
    assert_eq!(t.vocab_idx.as_deref(), Some("+5"));
}

#[test]
fn model_of_empty_deck_is_not_found() {
    let c = Connection::new();
    let t = empty_tokens();
    assert_eq!(
        AppModel::new(ServerAcceptLangauge::English, &t, &c).unwrap_err(),
        LookupError::NotFound
    );
}
