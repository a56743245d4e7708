//! The vocabulary cursor: a 1-based position to one entry of the
//! recency-ordered deck, with the page count; and the exact-headword lookups
//! that go beside it.
use vstd::prelude::*;
use crate::db::{
    Connection, LookupError, Vocab, VocabDict, VocabSpeech, same_dict, same_speech, same_vocab,
};
use crate::text::str_eq;

verus! {

/// A page holds one word: a page and a word position are the same thing.
pub const WORDS_PER_PAGE: u64 = 1;

/// The page that a requested position reads: positions below 1 read page 1.
pub open spec fn page_number(position: int) -> int {
    if position < 1 {
        1
    } else {
        position
    }
}

/// The number of pages of `per_page` entries that `total` entries fill, the
/// last one possibly partly.
pub open spec fn page_count(total: nat, per_page: nat) -> nat
    recommends
        per_page > 0,
{
    total / per_page + if total % per_page > 0 {
        1nat
    } else {
        0nat
    }
}

/// The first index at which `word` is the headword of a recording, if any.
pub open spec fn is_first_speech(s: Seq<VocabSpeech>, word: Seq<char>, i: int) -> bool {
    0 <= i < s.len() && s[i].vocab@ == word && forall|j: int|
        0 <= j < i ==> (#[trigger] s[j]).vocab@ != word
}

pub open spec fn is_first_dict(s: Seq<VocabDict>, word: Seq<char>, i: int) -> bool {
    0 <= i < s.len() && s[i].vocab@ == word && forall|j: int|
        0 <= j < i ==> (#[trigger] s[j]).vocab@ != word
}

/// Every position below 1 reads the same page as position 1.
pub proof fn lemma_low_positions_read_first(position: int)
    requires
        position <= 0,
    ensures
        page_number(position) == page_number(1),
{
}

/// An empty deck has no pages, and no position reads a word of it.
pub proof fn lemma_empty_deck(connection: &Connection, position: int)
    requires
        connection@.len() == 0,
    ensures
        page_count(connection@.len(), WORDS_PER_PAGE as nat) == 0,
        !(page_number(position) <= connection@.len()),
{
}

/// The number of pages that `total` entries fill.
pub fn total_pages(total: u64, per_page: u64) -> (r: u64)
    requires
        per_page > 0,
    ensures
        r == page_count(total as nat, per_page as nat),
{
    let whole = total / per_page;
    if total % per_page > 0 {
        assert(whole < u64::MAX) by (nonlinear_arith)
            requires
                whole == total / per_page,
                total % per_page > 0,
                per_page > 0,
                total <= u64::MAX,
        ;
        whole + 1
    } else {
        whole
    }
}

/// The length of a `Vec` as a page total.
fn count_of(n: usize) -> (r: u64)
    ensures
        r == n,
{
    n as u64
}

/// The word on page `page` (counted from 1) and the number of pages.
fn word_on_page(connection: &Connection, page: u64) -> (r: Result<(Vocab, u64), LookupError>)
    requires
        page >= 1,
    ensures
        connection.wf(),
        r is Ok <==> page <= connection@.len(),
        r matches Ok((v, t)) ==> same_vocab(v, connection@[page - 1]) && t == connection@.len(),
        r matches Err(e) ==> e == LookupError::NotFound,
{
    let n = connection.vocab_count();
    if page <= count_of(n) {
        let v = connection.vocab_at((page - 1) as usize).duplicate();
        Ok((v, total_pages(count_of(n), WORDS_PER_PAGE)))
    } else {
        Err(LookupError::NotFound)
    }
}

/// The word at the session's word index (an index of 0 reads the first word)
/// and the number of pages; `NotFound` where the deck has no word there.
pub fn resolve_word(connection: &Connection, word_index: u64) -> (r: Result<(Vocab, u64), LookupError>)
    ensures
        connection.wf(),
        r is Ok <==> page_number(word_index as int) <= connection@.len(),
        r matches Ok((v, t)) ==> same_vocab(v, connection@[page_number(word_index as int) - 1])
            && t == connection@.len(),
        r matches Err(e) ==> e == LookupError::NotFound,
{
    let page: u64 = if word_index < 1 {
        1
    } else {
        word_index
    };
    word_on_page(connection, page)
}

impl Vocab {
    /// The page of one word at position `idx` (positions below 1 read page 1),
    /// with the number of pages; `NotFound` where no word stands on that page,
    /// which is every page of an empty deck.
    pub fn get_by_idx(idx: i64, connection: &Connection) -> (r: Result<(Vec<Vocab>, u64), LookupError>)
        ensures
            connection.wf(),
            r is Ok <==> page_number(idx as int) <= connection@.len(),
            r matches Ok((page, t)) ==> page@.len() == 1 && same_vocab(
                page@[0],
                connection@[page_number(idx as int) - 1],
            ) && t == page_count(connection@.len(), WORDS_PER_PAGE as nat),
            r matches Err(e) ==> e == LookupError::NotFound,
    {
        let page: u64 = if idx < 1 {
            1
        } else {
            idx as u64
        };
        let (v, pages) = word_on_page(connection, page)?;
        let mut entries: Vec<Vocab> = Vec::new();
        entries.push(v);
        Ok((entries, pages))
    }
}

/// The word at `position` (positions below 1 read the first word) and the
/// number of pages; `NotFound` where the deck has no word there, which is
/// every position of an empty deck.
pub fn resolve(connection: &Connection, position: i64) -> (r: Result<(Vocab, u64), LookupError>)
    ensures
        connection.wf(),
        r is Ok <==> page_number(position as int) <= connection@.len(),
        r matches Ok((v, t)) ==> same_vocab(v, connection@[page_number(position as int) - 1])
            && t == connection@.len(),
        r matches Err(e) ==> e == LookupError::NotFound,
{
    let (mut entries, pages) = Vocab::get_by_idx(position, connection)?;
    match entries.pop() {
        Some(v) => Ok((v, pages)),
        None => Err(LookupError::NotFound),
    }
}

impl VocabSpeech {
    /// The first recording whose headword is exactly `word`.
    pub fn get_by_word(word: &String, connection: &Connection) -> (r: Result<
        VocabSpeech,
        LookupError,
    >)
        ensures
            r is Ok <==> exists|i: int| is_first_speech(connection.speeches(), word@, i),
            r matches Ok(s) ==> exists|i: int|
                is_first_speech(connection.speeches(), word@, i) && same_speech(
                    s,
                    connection.speeches()[i],
                ),
            r matches Err(e) ==> e == LookupError::NotFound,
    {
        let n = connection.speech_count();
        let mut i: usize = 0;
        while i < n
            invariant
                n == connection.speeches().len(),
                0 <= i <= n,
                forall|j: int| 0 <= j < i ==> (#[trigger] connection.speeches()[j]).vocab@ != word@,
            decreases n - i,
        {
            let s = connection.speech_at(i);
            if str_eq(s.vocab.as_str(), word.as_str()) {
                assert(is_first_speech(connection.speeches(), word@, i as int));
                return Ok(s.duplicate());
            }
            i = i + 1;
        }
        Err(LookupError::NotFound)
    }
}

impl VocabDict {
    /// The first dictionary entry whose headword is exactly `word`.
    pub fn get_by_word(word: &String, connection: &Connection) -> (r: Result<
        VocabDict,
        LookupError,
    >)
        ensures
            r is Ok <==> exists|i: int| is_first_dict(connection.dicts(), word@, i),
            r matches Ok(d) ==> exists|i: int|
                is_first_dict(connection.dicts(), word@, i) && same_dict(d, connection.dicts()[i]),
            r matches Err(e) ==> e == LookupError::NotFound,
    {
        let n = connection.dict_count();
        let mut i: usize = 0;
        while i < n
            invariant
                n == connection.dicts().len(),
                0 <= i <= n,
                forall|j: int| 0 <= j < i ==> (#[trigger] connection.dicts()[j]).vocab@ != word@,
            decreases n - i,
        {
            let d = connection.dict_at(i);
            if str_eq(d.vocab.as_str(), word.as_str()) {
                assert(is_first_dict(connection.dicts(), word@, i as int));
                return Ok(d.duplicate());
            }
            i = i + 1;
        }
        Err(LookupError::NotFound)
    }
}

/// The pronunciation recording of exactly the headword `vocab`; `NotFound`
/// where it has none (never an empty recording in its place).
pub fn get_prounciation(vocab: &String, conn: &Connection) -> (r: Result<Vec<u8>, LookupError>)
    ensures
        r is Ok <==> exists|i: int| is_first_speech(conn.speeches(), vocab@, i),
        r matches Ok(b) ==> exists|i: int|
            is_first_speech(conn.speeches(), vocab@, i) && b@ == conn.speeches()[i].mp3@,
        r matches Err(e) ==> e == LookupError::NotFound,
{
    match VocabSpeech::get_by_word(vocab, conn) {
        Ok(s) => Ok(s.mp3),
        Err(e) => Err(e),
    }
}

} // verus!
