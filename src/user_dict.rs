use vstd::prelude::*;
use vstd::set_lib::{lemma_int_range, lemma_len_subset};

use crate::error::VoicevoxError;

verus! {

/// ABI code of `UserDictWordType::ProperNoun`.
pub const WORD_TYPE_PROPER_NOUN: i32 = 0;

/// ABI code of `UserDictWordType::CommonNoun`.
pub const WORD_TYPE_COMMON_NOUN: i32 = 1;

/// ABI code of `UserDictWordType::Verb`.
pub const WORD_TYPE_VERB: i32 = 2;

/// ABI code of `UserDictWordType::Adjective`.
pub const WORD_TYPE_ADJECTIVE: i32 = 3;

/// ABI code of `UserDictWordType::Suffix`.
pub const WORD_TYPE_SUFFIX: i32 = 4;

/// Priority that a word gets unless the caller sets another.
pub const DEFAULT_PRIORITY: u32 = 5;

/// Word class of a user dictionary entry.
#[derive(Debug, Clone, Copy, PartialEq, Eq, Structural)]
pub enum UserDictWordType {
    /// Proper noun.
    ProperNoun,
    /// Common noun.
    CommonNoun,
    /// Verb.
    Verb,
    /// Adjective.
    Adjective,
    /// Suffix.
    Suffix,
}

/// The ABI code of a word class.
pub open spec fn word_type_code(t: UserDictWordType) -> i32 {
    match t {
        UserDictWordType::ProperNoun => WORD_TYPE_PROPER_NOUN,
        UserDictWordType::CommonNoun => WORD_TYPE_COMMON_NOUN,
        UserDictWordType::Verb => WORD_TYPE_VERB,
        UserDictWordType::Adjective => WORD_TYPE_ADJECTIVE,
        UserDictWordType::Suffix => WORD_TYPE_SUFFIX,
    }
}

impl UserDictWordType {
    /// The word class's ABI code.
    pub fn to_raw(self) -> (r: i32)
        ensures
            r == word_type_code(self),
    {
        match self {
            UserDictWordType::ProperNoun => WORD_TYPE_PROPER_NOUN,
            UserDictWordType::CommonNoun => WORD_TYPE_COMMON_NOUN,
            UserDictWordType::Verb => WORD_TYPE_VERB,
            UserDictWordType::Adjective => WORD_TYPE_ADJECTIVE,
            UserDictWordType::Suffix => WORD_TYPE_SUFFIX,
        }
    }

    /// The word class with ABI code `raw`, or `None` for a code that names
    /// none.
    pub fn from_raw(raw: i32) -> (r: Option<UserDictWordType>)
        ensures
            r matches Some(t) ==> word_type_code(t) == raw,
            r is None <==> !(0 <= raw <= 4),
    {
        if raw == WORD_TYPE_PROPER_NOUN {
            Some(UserDictWordType::ProperNoun)
        } else if raw == WORD_TYPE_COMMON_NOUN {
            Some(UserDictWordType::CommonNoun)
        } else if raw == WORD_TYPE_VERB {
            Some(UserDictWordType::Verb)
        } else if raw == WORD_TYPE_ADJECTIVE {
            Some(UserDictWordType::Adjective)
        } else if raw == WORD_TYPE_SUFFIX {
            Some(UserDictWordType::Suffix)
        } else {
            None
        }
    }
}

/// A word of the user dictionary.
#[derive(Debug)]
pub struct UserDictWord {
    /// Written form.
    pub surface: String,
    /// Reading, in katakana.
    pub pronunciation: String,
    /// Position of the accent nucleus, counted in moras (zero: flat).
    pub accent_type: usize,
    /// Word class.
    pub word_type: UserDictWordType,
    /// Priority against the system dictionary.
    pub priority: u32,
}

/// What a `UserDictWord` holds, as plain values.
pub struct UserDictWordView {
    pub surface: Seq<char>,
    pub pronunciation: Seq<char>,
    pub accent_type: usize,
    pub word_type: UserDictWordType,
    pub priority: u32,
}

impl View for UserDictWord {
    type V = UserDictWordView;

    open spec fn view(&self) -> UserDictWordView {
        UserDictWordView {
            surface: self.surface@,
            pronunciation: self.pronunciation@,
            accent_type: self.accent_type,
            word_type: self.word_type,
            priority: self.priority,
        }
    }
}

impl Clone for UserDictWord {
    fn clone(&self) -> (r: Self)
        ensures
            r == *self,
    {
        UserDictWord {
            surface: self.surface.clone(),
            pronunciation: self.pronunciation.clone(),
            accent_type: self.accent_type,
            word_type: self.word_type,
            priority: self.priority,
        }
    }
}

/// Small katakana that merge with the preceding kana into one mora.
pub open spec fn is_small_kana(c: char) -> bool {
    c == '\u{30A1}' || c == '\u{30A3}' || c == '\u{30A5}' || c == '\u{30A7}' || c == '\u{30A9}'
        || c == '\u{30E3}' || c == '\u{30E5}' || c == '\u{30E7}' || c == '\u{30EE}'
}

/// Number of moras of a reading: every character but the small kana.
pub open spec fn mora_count(s: Seq<char>) -> nat
    decreases s.len(),
{
    if s.len() == 0 {
        0
    } else {
        mora_count(s.drop_last()) + if is_small_kana(s.last()) {
            0nat
        } else {
            1nat
        }
    }
}

/// A word that the dictionary accepts: a written form and a reading, and an
/// accent position within the reading's moras.
pub open spec fn is_valid_word(w: UserDictWordView) -> bool {
    &&& w.surface.len() > 0
    &&& w.pronunciation.len() > 0
    &&& w.accent_type <= mora_count(w.pronunciation)
}

fn is_small_kana_char(c: char) -> (r: bool)
    ensures
        r == is_small_kana(c),
{
    c == '\u{30A1}' || c == '\u{30A3}' || c == '\u{30A5}' || c == '\u{30A7}' || c == '\u{30A9}'
        || c == '\u{30E3}' || c == '\u{30E5}' || c == '\u{30E7}' || c == '\u{30EE}'
}

/// Counts the moras of a reading.
pub fn count_moras(s: &str) -> (r: usize)
    ensures
        r == mora_count(s@),
{
    let n = s.unicode_len();
    let mut i: usize = 0;
    let mut count: usize = 0;
    while i < n
        invariant
            i <= n,
            n == s@.len(),
            count == mora_count(s@.subrange(0, i as int)),
            count <= i,
        decreases n - i,
    {
        let c = s.get_char(i);
        proof {
            assert(s@.subrange(0, i + 1).drop_last() =~= s@.subrange(0, i as int));
        }
        if !is_small_kana_char(c) {
            count = count + 1;
        }
        i = i + 1;
    }
    proof {
        assert(s@.subrange(0, n as int) =~= s@);
    }
    count
}

impl UserDictWord {
    /// A word with the given written form and reading, a flat accent, the
    /// common-noun class and the default priority.
    pub fn new(surface: &str, pronunciation: &str) -> (r: UserDictWord)
        ensures
            r@ == (UserDictWordView {
                surface: surface@,
                pronunciation: pronunciation@,
                accent_type: 0,
                word_type: UserDictWordType::CommonNoun,
                priority: DEFAULT_PRIORITY,
            }),
    {
        UserDictWord {
            surface: surface.to_string(),
            pronunciation: pronunciation.to_string(),
            accent_type: 0,
            word_type: UserDictWordType::CommonNoun,
            priority: DEFAULT_PRIORITY,
        }
    }

    /// Whether the dictionary accepts this word.
    pub fn is_valid(&self) -> (r: bool)
        ensures
            r == is_valid_word(self@),
    {
        let surface_len = self.surface.as_str().unicode_len();
        let pronunciation = self.pronunciation.as_str();
        let pronunciation_len = pronunciation.unicode_len();
        surface_len > 0 && pronunciation_len > 0 && self.accent_type <= count_moras(pronunciation)
    }
}

/// An entry of the dictionary: a word and its 128-bit UUID.
pub type WordEntry = (u128, UserDictWordView);

/// Whether some entry of `s` has identifier `k`.
pub open spec fn has_id(s: Seq<WordEntry>, k: u128) -> bool {
    exists|i: int| 0 <= i < s.len() && #[trigger] s[i].0 == k
}

/// The position of the entry with identifier `k` in `s`.
pub open spec fn id_position(s: Seq<WordEntry>, k: u128) -> int {
    choose|i: int| 0 <= i < s.len() && #[trigger] s[i].0 == k
}

/// No two entries share an identifier.
pub open spec fn unique_ids(s: Seq<WordEntry>) -> bool {
    forall|i: int, j: int| 0 <= i < j < s.len() ==> #[trigger] s[i].0 != #[trigger] s[j].0
}

/// The entries of a well-formed dictionary: identifiers unique, every word
/// valid, and few enough to fit in memory.
pub open spec fn valid_entries(s: Seq<WordEntry>) -> bool {
    &&& unique_ids(s)
    &&& forall|i: int| 0 <= i < s.len() ==> is_valid_word(#[trigger] s[i].1)
    &&& s.len() <= usize::MAX
}

/// `s` with the entry for `k` set to `w`: replaced in place where `k` is
/// present, appended otherwise.
pub open spec fn with_entry(s: Seq<WordEntry>, k: u128, w: UserDictWordView) -> Seq<WordEntry> {
    if has_id(s, k) {
        s.update(id_position(s, k), (k, w))
    } else {
        s.push((k, w))
    }
}

/// `s` without the entry for `k`.
pub open spec fn without_id(s: Seq<WordEntry>, k: u128) -> Seq<WordEntry> {
    if has_id(s, k) {
        s.remove(id_position(s, k))
    } else {
        s
    }
}

/// `s` after merging the entries of `t` in order, an entry of `t` replacing
/// the one of `s` with the same identifier.
pub open spec fn imported(s: Seq<WordEntry>, t: Seq<WordEntry>) -> Seq<WordEntry> {
    t.fold_left(s, |acc: Seq<WordEntry>, e: WordEntry| with_entry(acc, e.0, e.1))
}

/// The identifier a new word gets: `candidate` where it is free, else the
/// smallest free value.
pub open spec fn fresh_id(s: Seq<WordEntry>, candidate: u128) -> u128 {
    if !has_id(s, candidate) {
        candidate
    } else {
        choose|k: u128| !has_id(s, k) && forall|j: u128| j < k ==> has_id(s, j)
    }
}

/// Result and entries after adding `w`, which draws `candidate`.
pub open spec fn add_outcome(s: Seq<WordEntry>, w: UserDictWordView, candidate: u128) -> (
    Result<u128, VoicevoxError>,
    Seq<WordEntry>,
) {
    if !is_valid_word(w) {
        (Err(VoicevoxError::InvalidUserDictWord), s)
    } else {
        (Ok(fresh_id(s, candidate)), s.push((fresh_id(s, candidate), w)))
    }
}

/// Result and entries after removing the word with identifier `k`.
pub open spec fn remove_outcome(s: Seq<WordEntry>, k: u128) -> (
    Result<(), VoicevoxError>,
    Seq<WordEntry>,
) {
    if has_id(s, k) {
        (Ok(()), without_id(s, k))
    } else {
        (Err(VoicevoxError::UserDictWordNotFound), s)
    }
}

/// Result and entries after replacing the word with identifier `k` by `w`.
pub open spec fn update_outcome(s: Seq<WordEntry>, k: u128, w: UserDictWordView) -> (
    Result<(), VoicevoxError>,
    Seq<WordEntry>,
) {
    if !has_id(s, k) {
        (Err(VoicevoxError::UserDictWordNotFound), s)
    } else if !is_valid_word(w) {
        (Err(VoicevoxError::InvalidUserDictWord), s)
    } else {
        (Ok(()), with_entry(s, k, w))
    }
}

/// The dictionary as a mapping from identifier to word.
pub open spec fn entries_map(s: Seq<WordEntry>) -> Map<u128, UserDictWordView> {
    Map::new(|k: u128| has_id(s, k), |k: u128| s[id_position(s, k)].1)
}

/// Where identifiers are unique, the entry at `i` is the one `id_position`
/// finds for its identifier.
pub proof fn lemma_id_position(s: Seq<WordEntry>, i: int)
    requires
        unique_ids(s),
        0 <= i < s.len(),
    ensures
        has_id(s, s[i].0),
        id_position(s, s[i].0) == i,
{
    let k = s[i].0;
    assert(s[i].0 == k);
    let j = id_position(s, k);
    if j != i {
        if j < i {
            assert(s[j].0 != s[i].0);
        } else {
            assert(s[i].0 != s[j].0);
        }
    }
}

/// If every value below `k` is an identifier of `s`, then `s` has at least
/// `k` entries.
proof fn lemma_prefix_ids_bound(s: Seq<WordEntry>, k: u128)
    requires
        forall|j: u128| j < k ==> has_id(s, j),
    ensures
        k <= s.len(),
{
    let ids = s.map_values(|e: WordEntry| e.0 as int);
    let range = Set::new(|j: int| 0 <= j < k);
    lemma_int_range(0, k as int);
    assert(range == vstd::set_lib::set_int_range(0, k as int));
    assert forall|j: int| range.contains(j) implies ids.to_set().contains(j) by {
        assert(has_id(s, j as u128));
        let i = choose|i: int| 0 <= i < s.len() && #[trigger] s[i].0 == j as u128;
        assert(ids[i] == j);
    }
    ids.lemma_cardinality_of_set();
    lemma_len_subset(range, ids.to_set());
}

/// A dictionary that fits in memory always has a free identifier, and
/// `fresh_id` picks one.
pub proof fn lemma_fresh_id_is_free(s: Seq<WordEntry>, candidate: u128)
    requires
        s.len() <= usize::MAX,
    ensures
        !has_id(s, fresh_id(s, candidate)),
{
    if has_id(s, candidate) {
        let bound = (s.len() + 1) as u128;
        if forall|k: u128| k < bound ==> has_id(s, k) {
            lemma_prefix_ids_bound(s, bound);
        }
        let k0 = choose|k: u128| k < bound && !has_id(s, k);
        lemma_least_free(s, k0);
    }
}

/// Below a free identifier `k0` lies a least free identifier.
proof fn lemma_least_free(s: Seq<WordEntry>, k0: u128)
    requires
        !has_id(s, k0),
    ensures
        exists|k: u128| !has_id(s, k) && forall|j: u128| j < k ==> has_id(s, j),
    decreases k0,
{
    if forall|j: u128| j < k0 ==> has_id(s, j) {
    } else {
        let k1 = choose|j: u128| j < k0 && !has_id(s, j);
        lemma_least_free(s, k1);
    }
}

/// After a word is added and then removed by the identifier it was given,
/// the dictionary is as before and updating that identifier fails with
/// `UserDictWordNotFound`, whatever the new word.
pub proof fn lemma_removed_word_is_not_found(
    s: Seq<WordEntry>,
    w: UserDictWordView,
    candidate: u128,
    w2: UserDictWordView,
)
    requires
        valid_entries(s),
    ensures
        add_outcome(s, w, candidate).0 matches Ok(k) ==> {
            let s1 = add_outcome(s, w, candidate).1;
            &&& remove_outcome(s1, k).0 is Ok
            &&& remove_outcome(s1, k).1 == s
            &&& update_outcome(remove_outcome(s1, k).1, k, w2).0 == Err::<(), VoicevoxError>(
                VoicevoxError::UserDictWordNotFound,
            )
        },
{
    if is_valid_word(w) {
        let k = fresh_id(s, candidate);
        lemma_fresh_id_is_free(s, candidate);
        let s1 = s.push((k, w));
        assert forall|a: int, b: int| 0 <= a < b < s1.len() implies #[trigger] s1[a].0
            != #[trigger] s1[b].0 by {
            if b == s.len() {
                assert(s[a].0 == s1[a].0);
            } else {
                assert(s[a].0 != s[b].0);
            }
        }
        lemma_id_position(s1, s.len() as int);
        assert(s1.remove(s.len() as int) =~= s);
    }
}

/// Relies on uuid::Uuid::new_v4 (a random version-4 UUID), read back with
/// Uuid::as_u128 as its 128-bit value. Random, so nothing is promised of it.
#[verifier::external_body]
fn random_word_id() -> (r: u128) {
    uuid::Uuid::new_v4().as_u128()
}

/// The plain values of a sequence of entries.
pub open spec fn entry_views(v: Seq<(u128, UserDictWord)>) -> Seq<WordEntry> {
    v.map_values(|e: (u128, UserDictWord)| (e.0, e.1@))
}

/// The user dictionary: words keyed by a 128-bit UUID, in insertion order.
pub struct UserDict {
    entries: Vec<(u128, UserDictWord)>,
}

impl View for UserDict {
    type V = Seq<WordEntry>;

    closed spec fn view(&self) -> Seq<WordEntry> {
        entry_views(self.entries@)
    }
}

impl UserDict {
    /// Identifiers unique, every word valid.
    pub open spec fn wf(&self) -> bool {
        valid_entries(self@)
    }

    /// An empty dictionary.
    pub fn new() -> (r: Result<UserDict, VoicevoxError>)
        ensures
            r matches Ok(d) && d@ == Seq::<WordEntry>::empty() && d.wf(),
    {
        let d = UserDict { entries: Vec::new() };
        proof {
            assert(d@ =~= Seq::<WordEntry>::empty());
        }
        Ok(d)
    }

    /// The position of the entry with identifier `k`, if any.
    fn find(&self, k: u128) -> (r: Option<usize>)
        requires
            self.wf(),
        ensures
            r matches Some(i) ==> i < self@.len() && i == id_position(self@, k) && self@[i as int].0
                == k,
            r is None <==> !has_id(self@, k),
    {
        let mut i: usize = 0;
        while i < self.entries.len()
            invariant
                i <= self.entries@.len(),
                self@.len() == self.entries@.len(),
                valid_entries(self@),
                forall|j: int| 0 <= j < i ==> self@[j].0 != k,
            decreases self.entries@.len() - i,
        {
            if self.entries[i].0 == k {
                proof {
                    lemma_id_position(self@, i as int);
                }
                return Some(i);
            }
            i = i + 1;
        }
        None
    }

    /// The identifier a new word gets when `candidate` is drawn.
    fn pick_id(&self, candidate: u128) -> (r: u128)
        requires
            self.wf(),
        ensures
            r == fresh_id(self@, candidate),
            !has_id(self@, r),
    {
        proof {
            lemma_fresh_id_is_free(self@, candidate);
        }
        if self.find(candidate).is_none() {
            return candidate;
        }
        let mut k: u128 = 0;
        loop
            invariant
                self.wf(),
                k <= self@.len(),
                forall|j: u128| j < k ==> has_id(self@, j),
            ensures
                !has_id(self@, k),
                forall|j: u128| j < k ==> has_id(self@, j),
            decreases self@.len() - k,
        {
            if self.find(k).is_none() {
                break;
            }
            proof {
                assert forall|j: u128| j < k + 1 implies has_id(self@, j) by {
                    if j < k {
                    }
                }
                lemma_prefix_ids_bound(self@, (k + 1) as u128);
            }
            k = k + 1;
        }
        proof {
            let f = fresh_id(self@, candidate);
            assert(!has_id(self@, k) && forall|j: u128| j < k ==> has_id(self@, j));
            if f != k {
                if f < k {
                } else {
                    assert(has_id(self@, k));
                }
            }
        }
        k
    }

    /// Sets the entry for `k` to `word`, in place where `k` is present.
    fn put(&mut self, k: u128, word: UserDictWord)
        requires
            old(self).wf(),
            is_valid_word(word@),
        ensures
            final(self).wf(),
            final(self)@ == with_entry(old(self)@, k, word@),
    {
        let ghost before = self@;
        match self.find(k) {
            Some(i) => {
                self.entries.set(i, (k, word));
                proof {
                    assert(self@ =~= before.update(i as int, (k, word@)));
                }
            },
            None => {
                proof {
                    lemma_fresh_id_is_free(before, k);
                }
                self.entries.push((k, word));
                // A vector's length always fits in `usize`.
                let _ = self.entries.len();
                proof {
                    assert(self@ =~= before.push((k, word@)));
                }
            },
        }
        proof {
            let after = self@;
            assert forall|a: int, b: int| 0 <= a < b < after.len() implies #[trigger] after[a].0
                != #[trigger] after[b].0 by {
                if a < before.len() && b < before.len() {
                    if after[a] != before[a] {
                        assert(before[b].0 != k);
                    }
                    if after[b] != before[b] {
                        assert(before[a].0 != k);
                    }
                }
            }
        }
    }

    /// Adds `word` under the identifier `candidate`, or under the smallest
    /// free identifier where `candidate` is taken, and returns the
    /// identifier. An invalid word is refused and leaves the dictionary as
    /// it was.
    pub fn add_word_with_id(&mut self, word: UserDictWord, candidate: u128) -> (r: Result<
        u128,
        VoicevoxError,
    >)
        requires
            old(self).wf(),
        ensures
            final(self).wf(),
            (r, final(self)@) == add_outcome(old(self)@, word@, candidate),
    {
        if !word.is_valid() {
            return Err(VoicevoxError::InvalidUserDictWord);
        }
        let k = self.pick_id(candidate);
        let ghost before = self@;
        self.put(k, word);
        proof {
            assert(!has_id(before, k));
        }
        Ok(k)
    }

    /// Adds `word` under a new random UUID and returns it. An invalid word
    /// is refused and leaves the dictionary as it was.
    pub fn add_word(&mut self, word: UserDictWord) -> (r: Result<u128, VoicevoxError>)
        requires
            old(self).wf(),
        ensures
            final(self).wf(),
            !is_valid_word(word@) ==> r == Err::<u128, VoicevoxError>(
                VoicevoxError::InvalidUserDictWord,
            ) && final(self)@ == old(self)@,
            is_valid_word(word@) ==> (r matches Ok(k) && !has_id(old(self)@, k) && final(self)@
                == old(self)@.push((k, word@))),
    {
        let candidate = random_word_id();
        let r = self.add_word_with_id(word, candidate);
        proof {
            lemma_fresh_id_is_free(old(self)@, candidate);
        }
        r
    }

    /// Removes the word with identifier `word_uuid`; fails where there is
    /// none.
    pub fn remove_word(&mut self, word_uuid: u128) -> (r: Result<(), VoicevoxError>)
        requires
            old(self).wf(),
        ensures
            final(self).wf(),
            (r, final(self)@) == remove_outcome(old(self)@, word_uuid),
    {
        match self.find(word_uuid) {
            Some(i) => {
                let ghost before = self@;
                let _ = self.entries.remove(i);
                proof {
                    assert(self@ =~= before.remove(i as int));
                    let after = self@;
                    assert forall|a: int, b: int| 0 <= a < b < after.len() implies #[trigger] after[a].0
                        != #[trigger] after[b].0 by {
                        if a >= i {
                            assert(before[a + 1].0 != before[b + 1].0);
                        } else if b >= i {
                            assert(before[a].0 != before[b + 1].0);
                        }
                    }
                    assert forall|a: int| 0 <= a < after.len() implies is_valid_word(
                        #[trigger] after[a].1,
                    ) by {
                        if a >= i {
                            assert(is_valid_word(before[a + 1].1));
                        }
                    }
                }
                Ok(())
            },
            None => Err(VoicevoxError::UserDictWordNotFound),
        }
    }

    /// Replaces the word with identifier `word_uuid` by `word`; fails where
    /// there is none, or where the new word is invalid.
    pub fn update_word(&mut self, word_uuid: u128, word: UserDictWord) -> (r: Result<
        (),
        VoicevoxError,
    >)
        requires
            old(self).wf(),
        ensures
            final(self).wf(),
            (r, final(self)@) == update_outcome(old(self)@, word_uuid, word@),
    {
        if self.find(word_uuid).is_none() {
            return Err(VoicevoxError::UserDictWordNotFound);
        }
        if !word.is_valid() {
            return Err(VoicevoxError::InvalidUserDictWord);
        }
        self.put(word_uuid, word);
        Ok(())
    }

    /// Merges the words of `other` into this dictionary, in order; a word of
    /// `other` replaces the one here with the same identifier.
    pub fn import(&mut self, other: &UserDict) -> (r: Result<(), VoicevoxError>)
        requires
            old(self).wf(),
            other.wf(),
        ensures
            final(self).wf(),
            r is Ok,
            final(self)@ == imported(old(self)@, other@),
    {
        let ghost start = self@;
        let n = other.entries.len();
        let mut j: usize = 0;
        while j < n
            invariant
                n == other.entries@.len(),
                j <= n,
                other@.len() == n,
                valid_entries(other@),
                self.wf(),
                self@ == imported(start, other@.take(j as int)),
            decreases n - j,
        {
            let k = other.entries[j].0;
            let word = other.entries[j].1.clone();
            proof {
                assert(is_valid_word(other@[j as int].1));
                let t = other@.take(j as int + 1);
                assert(t.drop_last() =~= other@.take(j as int));
            }
            self.put(k, word);
            j = j + 1;
        }
        proof {
            assert(other@.take(n as int) =~= other@);
        }
        Ok(())
    }

    /// A snapshot of the words with their identifiers, in insertion order.
    pub fn words(&self) -> (r: Vec<(u128, UserDictWord)>)
        requires
            self.wf(),
        ensures
            entry_views(r@) == self@,
    {
        let mut r: Vec<(u128, UserDictWord)> = Vec::new();
        let mut i: usize = 0;
        while i < self.entries.len()
            invariant
                i <= self.entries@.len(),
                r@.len() == i,
                self@.len() == self.entries@.len(),
                entry_views(r@) == self@.take(i as int),
            decreases self.entries@.len() - i,
        {
            let k = self.entries[i].0;
            let word = self.entries[i].1.clone();
            let ghost prev = r@;
            r.push((k, word));
            proof {
                assert(self@[i as int] == (k, word@));
                assert(r@ == prev.push((k, word)));
                assert(entry_views(r@)[i as int] == (k, word@));
                assert forall|x: int| 0 <= x < i + 1 implies entry_views(r@)[x] == self@.take(
                    i as int + 1,
                )[x] by {
                    if x < i {
                        assert(entry_views(prev)[x] == self@.take(i as int)[x]);
                        assert(entry_views(r@)[x] == entry_views(prev)[x]);
                    }
                }
                assert(entry_views(r@) =~= self@.take(i as int + 1));
            }
            i = i + 1;
        }
        proof {
            assert(self@.take(self@.len() as int) =~= self@);
        }
        r
    }

    /// Number of words.
    pub fn len(&self) -> (r: usize)
        ensures
            r == self@.len(),
    {
        self.entries.len()
    }

    /// The word with identifier `word_uuid`, if any.
    pub fn get(&self, word_uuid: u128) -> (r: Option<&UserDictWord>)
        requires
            self.wf(),
        ensures
            r is None <==> !has_id(self@, word_uuid),
            r matches Some(w) ==> w@ == entries_map(self@)[word_uuid],
    {
        match self.find(word_uuid) {
            Some(i) => Some(&self.entries[i].1),
            None => None,
        }
    }
}

} // verus!
