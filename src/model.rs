//! The view model of the review page: the session state read from the
//! tokens, joined with the word that the cursor finds at its index.
use vstd::prelude::*;
use crate::cursor::{is_first_dict, page_number, resolve_word};
use crate::db::{Connection, LookupError, VocabDict};
use crate::session::{SessionState, SessionTokens, derive_state, text_of, tokens_state};
use crate::types::{ServerAcceptLangauge, lang_of_id};

verus! {

/// What the review page shows.
#[derive(Debug)]
pub struct AppModel {
    pub lang: ServerAcceptLangauge,
    /// The stored phase label as read, `to_answer` where none is stored.
    pub user_action_type: String,
    pub state: SessionState,
    /// The page of the word shown (the word index, read as at least 1).
    pub user_progress_idx: u64,
    /// The word book being studied; there is one book, numbered 0.
    pub user_vocab_book_idx: u32,
    pub the_word: String,
    pub the_word_type: String,
    pub the_word_meaning: String,
    pub flash_msg: Option<String>,
}

/// The stored phase label, or `to_answer` where none is stored.
pub open spec fn label_or_default(t: SessionTokens) -> Seq<char> {
    match text_of(t.user_action_type) {
        Some(l) => l,
        None => "to_answer"@,
    }
}

/// The language of the page: the chosen one where a choice is stored, else
/// the one that the request asked for.
pub open spec fn chosen_lang(t: SessionTokens, asked: ServerAcceptLangauge) -> ServerAcceptLangauge {
    match text_of(t.state_choosen_lang) {
        Some(l) => lang_of_id(l),
        None => asked,
    }
}

/// `m` is the page for the session that `t` holds over the store `conn`, on a
/// request that asked for `asked`: the state, label, language and notice read
/// from the tokens, and the word at the state's index with its first
/// dictionary entry (empty texts where it has none).
pub open spec fn shows(m: AppModel, asked: ServerAcceptLangauge, t: SessionTokens, conn: Connection) -> bool {
    let page = page_number(tokens_state(t).word_index as int);
    &&& m.lang == chosen_lang(t, asked)
    &&& m.state == tokens_state(t)
    &&& m.user_action_type@ == label_or_default(t)
    &&& m.user_vocab_book_idx == 0
    &&& m.user_progress_idx == page
    &&& m.the_word@ == conn@[page - 1].vocab@
    &&& text_of(m.flash_msg) == text_of(t.flash)
    &&& (exists|i: int| is_first_dict(conn.dicts(), m.the_word@, i)) ==> exists|i: int|
        is_first_dict(conn.dicts(), m.the_word@, i) && m.the_word_type@
            == conn.dicts()[i].partofspeech@ && m.the_word_meaning@ == conn.dicts()[i].meaning@
    &&& !(exists|i: int| is_first_dict(conn.dicts(), m.the_word@, i)) ==> m.the_word_type@.len()
        == 0 && m.the_word_meaning@.len() == 0
}

/// Building the page twice from the same tokens and store gives the same page:
/// reading the session state back from its tokens is idempotent (the tokens
/// are only read).
pub proof fn lemma_model_repeatable(
    asked: ServerAcceptLangauge,
    t: SessionTokens,
    conn: Connection,
    m1: AppModel,
    m2: AppModel,
)
    requires
        shows(m1, asked, t, conn),
        shows(m2, asked, t, conn),
    ensures
        m1.lang == m2.lang,
        m1.state == m2.state,
        m1.user_action_type@ == m2.user_action_type@,
        m1.user_vocab_book_idx == m2.user_vocab_book_idx,
        m1.user_progress_idx == m2.user_progress_idx,
        m1.the_word@ == m2.the_word@,
        text_of(m1.flash_msg) == text_of(m2.flash_msg),
        m1.the_word_type@ == m2.the_word_type@,
        m1.the_word_meaning@ == m2.the_word_meaning@,
{
    let d = conn.dicts();
    let w = m1.the_word@;
    if exists|i: int| is_first_dict(d, w, i) {
        let i = choose|i: int|
            is_first_dict(d, w, i) && m1.the_word_type@ == d[i].partofspeech@ && m1.the_word_meaning@
                == d[i].meaning@;
        let j = choose|j: int|
            is_first_dict(d, w, j) && m2.the_word_type@ == d[j].partofspeech@ && m2.the_word_meaning@
                == d[j].meaning@;
        if i < j {
            assert(d[i].vocab@ != w);
        } else if j < i {
            assert(d[j].vocab@ != w);
        }
    }
}

fn copy_text(o: &Option<String>) -> (r: Option<String>)
    ensures
        text_of(r) == text_of(*o),
{
    match o {
        Some(s) => Some(s.clone()),
        None => None,
    }
}

impl AppModel {
    /// The model of the page for the session that the tokens hold: its state,
    /// language and notice, and the word at its index with the part of speech
    /// and meaning of the headword's first dictionary entry (empty where it
    /// has none). `NotFound` where the deck has no word at the index.
    pub fn new(lang: ServerAcceptLangauge, tokens: &SessionTokens, conn: &Connection) -> (r: Result<
        AppModel,
        LookupError,
    >)
        ensures
            conn.wf(),
            r is Ok <==> page_number(tokens_state(*tokens).word_index as int) <= conn@.len(),
            r matches Err(e) ==> e == LookupError::NotFound,
            r matches Ok(m) ==> shows(m, lang, *tokens, *conn),
    {
        let lang = match &tokens.state_choosen_lang {
            Some(l) => ServerAcceptLangauge::from(l.as_str()),
            None => lang,
        };
        let state = derive_state(tokens);
        let user_action_type = match &tokens.user_action_type {
            Some(l) => l.clone(),
            None => String::from_str("to_answer"),
        };
        let (vocab, _pages) = resolve_word(conn, state.word_index)?;
        let the_word = vocab.vocab;
        let (the_word_type, the_word_meaning) = match VocabDict::get_by_word(&the_word, conn) {
            Ok(d) => (d.partofspeech, d.meaning),
            Err(_) => (String::new(), String::new()),
        };
        let user_progress_idx: u64 = if state.word_index < 1 {
            1
        } else {
            state.word_index
        };
        Ok(AppModel {
            lang,
            user_action_type,
            state,
            user_progress_idx,
            user_vocab_book_idx: 0,
            the_word,
            the_word_type,
            the_word_meaning,
            flash_msg: copy_text(&tokens.flash),
        })
    }
}

/// Stores the chosen interface language (already URL-decoded).
pub fn setlang(tokens: &mut SessionTokens, lang: &str)
    ensures
        text_of(final(tokens).state_choosen_lang) == Some(lang@),
        final(tokens).user_action_type == old(tokens).user_action_type,
        final(tokens).vocab_idx == old(tokens).vocab_idx,
        final(tokens).state_choosen_rank == old(tokens).state_choosen_rank,
        final(tokens).flash == old(tokens).flash,
{
    tokens.state_choosen_lang = Some(String::from_str(lang));
}

/// Stores the chosen ranking of the word panel (already URL-decoded).
pub fn set_panel_rank(tokens: &mut SessionTokens, rankby: &str)
    ensures
        text_of(final(tokens).state_choosen_rank) == Some(rankby@),
        final(tokens).user_action_type == old(tokens).user_action_type,
        final(tokens).vocab_idx == old(tokens).vocab_idx,
        final(tokens).state_choosen_lang == old(tokens).state_choosen_lang,
        final(tokens).flash == old(tokens).flash,
{
    tokens.state_choosen_rank = Some(String::from_str(rankby));
}

} // verus!
