//! The stored records and the in-memory backing store that the vocabulary
//! cursor reads. Identifiers are UUIDs held as 128-bit integers; timestamps
//! are microseconds since the Unix epoch, UTC.
use vstd::prelude::*;

verus! {

#[derive(Debug)]
pub struct User {
    pub id: u128,
    pub username: String,
    pub email: String,
    pub created_at: i64,
    pub updated_at: i64,
}

#[derive(Debug)]
pub struct VocabBookContent {
    pub id: u128,
    pub book_id: u128,
    pub vocab: String,
    pub created_at: i64,
    pub updated_at: i64,
}

#[derive(Debug)]
pub struct VocabBook {
    pub id: u128,
    pub name: String,
    pub created_by: u128,
    pub created_at: i64,
    pub updated_at: i64,
}

/// The part of speech and the meaning of a headword.
#[derive(Debug)]
pub struct VocabDict {
    pub id: u128,
    pub vocab: String,
    pub partofspeech: String,
    pub meaning: String,
    pub created_at: i64,
    pub updated_at: i64,
}

/// The pronunciation recording of a headword.
#[derive(Debug)]
pub struct VocabSpeech {
    pub id: u128,
    pub created_at: i64,
    pub updated_at: i64,
    pub vocab: String,
    pub mp3: Vec<u8>,
}

/// A headword of the deck; the headword is its identity.
#[derive(Debug)]
pub struct Vocab {
    pub vocab: String,
    pub created_at: i64,
    pub updated_at: i64,
}

#[derive(Debug, Clone, Copy, PartialEq, Eq, Structural)]
pub enum LookupError {
    /// No record answers the query.
    NotFound,
}

/// Headword order: character by character, a proper prefix first.
pub open spec fn text_le(a: Seq<char>, b: Seq<char>) -> bool
    decreases a.len(),
{
    if a.len() == 0 {
        true
    } else if b.len() == 0 {
        false
    } else if a[0] != b[0] {
        a[0] < b[0]
    } else {
        text_le(a.drop_first(), b.drop_first())
    }
}

/// `a` may stand before `b` in the deck: it was created later, or at the same
/// time with a headword that comes no later.
pub open spec fn precedes(a: Vocab, b: Vocab) -> bool {
    a.created_at > b.created_at || (a.created_at == b.created_at && text_le(a.vocab@, b.vocab@))
}

/// Entries ordered by recency, most recent first, ties ordered by headword.
pub open spec fn recency_ordered(s: Seq<Vocab>) -> bool {
    forall|i: int, j: int| 0 <= i < j < s.len() ==> precedes(#[trigger] s[i], #[trigger] s[j])
}

proof fn lemma_text_le_total(a: Seq<char>, b: Seq<char>)
    ensures
        text_le(a, b) || text_le(b, a),
    decreases a.len(),
{
    if a.len() > 0 && b.len() > 0 && a[0] == b[0] {
        lemma_text_le_total(a.drop_first(), b.drop_first());
    }
}

proof fn lemma_text_le_transitive(a: Seq<char>, b: Seq<char>, c: Seq<char>)
    requires
        text_le(a, b),
        text_le(b, c),
    ensures
        text_le(a, c),
    decreases a.len(),
{
    if a.len() > 0 && b.len() > 0 && c.len() > 0 && a[0] == b[0] && b[0] == c[0] {
        lemma_text_le_transitive(a.drop_first(), b.drop_first(), c.drop_first());
    }
}

proof fn lemma_precedes_total(a: Vocab, b: Vocab)
    ensures
        precedes(a, b) || precedes(b, a),
{
    lemma_text_le_total(a.vocab@, b.vocab@);
}

proof fn lemma_precedes_transitive(a: Vocab, b: Vocab, c: Vocab)
    requires
        precedes(a, b),
        precedes(b, c),
    ensures
        precedes(a, c),
{
    if a.created_at == b.created_at && b.created_at == c.created_at {
        lemma_text_le_transitive(a.vocab@, b.vocab@, c.vocab@);
    }
}

/// Whether headword `a` comes no later than headword `b`.
fn text_le_exec(a: &str, b: &str) -> (r: bool)
    ensures
        r == text_le(a@, b@),
    decreases a@.len(),
{
    let n = a.unicode_len();
    let m = b.unicode_len();
    if n == 0 {
        true
    } else if m == 0 {
        false
    } else {
        let x = a.get_char(0);
        let y = b.get_char(0);
        if x != y {
            x < y
        } else {
            let ra = a.substring_char(1, n);
            let rb = b.substring_char(1, m);
            assert(ra@ =~= a@.drop_first());
            assert(rb@ =~= b@.drop_first());
            text_le_exec(ra, rb)
        }
    }
}

/// Whether `a` may stand before `b` in the deck.
fn precedes_exec(a: &Vocab, b: &Vocab) -> (r: bool)
    ensures
        r == precedes(*a, *b),
{
    a.created_at > b.created_at || (a.created_at == b.created_at && text_le_exec(
        a.vocab.as_str(),
        b.vocab.as_str(),
    ))
}

/// `s` is `t` with the fields of each copied.
pub open spec fn same_speech(s: VocabSpeech, t: VocabSpeech) -> bool {
    s.id == t.id && s.created_at == t.created_at && s.updated_at == t.updated_at && s.vocab@
        == t.vocab@ && s.mp3@ == t.mp3@
}

pub open spec fn same_dict(s: VocabDict, t: VocabDict) -> bool {
    s.id == t.id && s.vocab@ == t.vocab@ && s.partofspeech@ == t.partofspeech@ && s.meaning@
        == t.meaning@ && s.created_at == t.created_at && s.updated_at == t.updated_at
}

pub open spec fn same_vocab(s: Vocab, t: Vocab) -> bool {
    s.vocab@ == t.vocab@ && s.created_at == t.created_at && s.updated_at == t.updated_at
}

impl Vocab {
    pub fn duplicate(&self) -> (r: Vocab)
        ensures
            same_vocab(r, *self),
    {
        Vocab { vocab: self.vocab.clone(), created_at: self.created_at, updated_at: self.updated_at }
    }
}

fn copy_bytes(b: &Vec<u8>) -> (r: Vec<u8>)
    ensures
        r@ == b@,
{
    let mut r: Vec<u8> = Vec::new();
    let mut i: usize = 0;
    while i < b.len()
        invariant
            0 <= i <= b.len(),
            r@ == b@.subrange(0, i as int),
        decreases b.len() - i,
    {
        r.push(b[i]);
        i = i + 1;
    }
    assert(r@ =~= b@);
    r
}

impl VocabSpeech {
    pub fn duplicate(&self) -> (r: VocabSpeech)
        ensures
            same_speech(r, *self),
    {
        VocabSpeech {
            id: self.id,
            created_at: self.created_at,
            updated_at: self.updated_at,
            vocab: self.vocab.clone(),
            mp3: copy_bytes(&self.mp3),
        }
    }
}

impl VocabDict {
    pub fn duplicate(&self) -> (r: VocabDict)
        ensures
            same_dict(r, *self),
    {
        VocabDict {
            id: self.id,
            vocab: self.vocab.clone(),
            partofspeech: self.partofspeech.clone(),
            meaning: self.meaning.clone(),
            created_at: self.created_at,
            updated_at: self.updated_at,
        }
    }
}

/// The backing store: the deck in recency order (ties by headword), with the
/// dictionary entries and the recordings of its headwords. The order is an
/// invariant of the type.
#[derive(Debug)]
pub struct Connection {
    vocabs: Vec<Vocab>,
    dicts: Vec<VocabDict>,
    speeches: Vec<VocabSpeech>,
}

impl View for Connection {
    type V = Seq<Vocab>;

    /// The deck, most recent entry first.
    closed spec fn view(&self) -> Seq<Vocab> {
        self.vocabs@
    }
}

impl Connection {
    pub closed spec fn dicts(&self) -> Seq<VocabDict> {
        self.dicts@
    }

    pub closed spec fn speeches(&self) -> Seq<VocabSpeech> {
        self.speeches@
    }

    #[verifier::type_invariant]
    spec fn inv(&self) -> bool {
        recency_ordered(self.vocabs@)
    }

    pub open spec fn wf(&self) -> bool {
        recency_ordered(self@)
    }

    /// An empty store.
    pub fn new() -> (r: Connection)
        ensures
            r.wf(),
            r@.len() == 0,
            r.dicts().len() == 0,
            r.speeches().len() == 0,
    {
        Connection { vocabs: Vec::new(), dicts: Vec::new(), speeches: Vec::new() }
    }

    /// The number of entries in the deck.
    pub fn vocab_count(&self) -> (r: usize)
        ensures
            r == self@.len(),
            self.wf(),
    {
        proof {
            use_type_invariant(self);
        }
        self.vocabs.len()
    }

    /// The deck entry at `i`, most recent first.
    pub fn vocab_at(&self, i: usize) -> (r: &Vocab)
        requires
            i < self@.len(),
        ensures
            *r == self@[i as int],
    {
        &self.vocabs[i]
    }

    pub fn speech_count(&self) -> (r: usize)
        ensures
            r == self.speeches().len(),
    {
        self.speeches.len()
    }

    pub fn speech_at(&self, i: usize) -> (r: &VocabSpeech)
        requires
            i < self.speeches().len(),
        ensures
            *r == self.speeches()[i as int],
    {
        &self.speeches[i]
    }

    pub fn dict_count(&self) -> (r: usize)
        ensures
            r == self.dicts().len(),
    {
        self.dicts.len()
    }

    pub fn dict_at(&self, i: usize) -> (r: &VocabDict)
        requires
            i < self.dicts().len(),
        ensures
            *r == self.dicts()[i as int],
    {
        &self.dicts[i]
    }

    /// Adds an entry to the deck in its place: before the first entry that it
    /// precedes, so that among entries with the same time and headword the one
    /// added last comes first.
    pub fn add_vocab(&mut self, v: Vocab)
        ensures
            final(self).wf(),
            exists|k: int|
                0 <= k <= old(self)@.len() && final(self)@ == old(self)@.insert(k, v) && (forall|
                    i: int,
                | 0 <= i < k ==> !precedes(v, #[trigger] old(self)@[i])) && (forall|i: int|
                    k <= i < old(self)@.len() ==> precedes(v, #[trigger] old(self)@[i])),
            final(self).dicts() == old(self).dicts(),
            final(self).speeches() == old(self).speeches(),
    {
        proof {
            use_type_invariant(&*self);
        }
        let mut vocabs: Vec<Vocab> = Vec::new();
        std::mem::swap(&mut vocabs, &mut self.vocabs);
        let ghost before = vocabs@;
        let mut k: usize = 0;
        let n = vocabs.len();
        while k < n && !precedes_exec(&v, &vocabs[k])
            invariant
                vocabs@ == before,
                recency_ordered(before),
                n == before.len(),
                0 <= k <= n,
                forall|i: int| 0 <= i < k ==> !precedes(v, #[trigger] before[i]),
            decreases n - k,
        {
            k = k + 1;
        }
        proof {
            assert forall|i: int| k <= i < n implies precedes(v, #[trigger] before[i]) by {
                if i > k {
                    assert(precedes(before[k as int], before[i]));
                    lemma_precedes_transitive(v, before[k as int], before[i]);
                }
            }
        }
        vocabs.insert(k, v);
        proof {
            let after = vocabs@;
            assert forall|i: int, j: int| 0 <= i < j < after.len() implies precedes(
                #[trigger] after[i],
                #[trigger] after[j],
            ) by {
                if j < k {
                    assert(after[i] == before[i] && after[j] == before[j]);
                } else if j == k {
                    assert(after[i] == before[i]);
                    lemma_precedes_total(v, before[i]);
                } else if i < k {
                    assert(after[i] == before[i] && after[j] == before[j - 1]);
                } else if i == k {
                    assert(after[j] == before[j - 1]);
                } else {
                    assert(after[i] == before[i - 1] && after[j] == before[j - 1]);
                }
            }
        }
        self.vocabs = vocabs;
        assert(self@ == before.insert(k as int, v));
        assert(before == old(self)@);
        assert(forall|i: int| 0 <= i < k ==> !precedes(v, #[trigger] old(self)@[i]));
    }

    /// Adds a dictionary entry.
    pub fn add_dict(&mut self, d: VocabDict)
        ensures
            final(self)@ == old(self)@,
            final(self).dicts() == old(self).dicts().push(d),
            final(self).speeches() == old(self).speeches(),
    {
        proof {
            use_type_invariant(&*self);
        }
        let mut dicts: Vec<VocabDict> = Vec::new();
        std::mem::swap(&mut dicts, &mut self.dicts);
        dicts.push(d);
        self.dicts = dicts;
    }

    /// Adds a pronunciation recording.
    pub fn add_speech(&mut self, s: VocabSpeech)
        ensures
            final(self)@ == old(self)@,
            final(self).dicts() == old(self).dicts(),
            final(self).speeches() == old(self).speeches().push(s),
    {
        proof {
            use_type_invariant(&*self);
        }
        let mut speeches: Vec<VocabSpeech> = Vec::new();
        std::mem::swap(&mut speeches, &mut self.speeches);
        speeches.push(s);
        self.speeches = speeches;
    }
}

} // verus!
