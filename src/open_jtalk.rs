use vstd::prelude::*;

use crate::error::VoicevoxError;
use crate::user_dict::{entry_views, UserDict, UserDictWord, WordEntry};

verus! {

/// The text analyzer: a system dictionary directory and the user words
/// attached to it.
pub struct OpenJtalkRc {
    dict_dir: String,
    user_words: Vec<(u128, UserDictWord)>,
}

/// What an `OpenJtalkRc` holds, as plain values.
pub struct OpenJtalkView {
    pub dict_dir: Seq<char>,
    pub user_words: Seq<WordEntry>,
}

impl View for OpenJtalkRc {
    type V = OpenJtalkView;

    closed spec fn view(&self) -> OpenJtalkView {
        OpenJtalkView { dict_dir: self.dict_dir@, user_words: entry_views(self.user_words@) }
    }
}

impl OpenJtalkRc {
    /// An analyzer over the system dictionary in `dict_dir`, with no user
    /// words.
    pub fn new(dict_dir: &str) -> (r: Result<OpenJtalkRc, VoicevoxError>)
        ensures
            r matches Ok(a) && a@.dict_dir == dict_dir@ && a@.user_words == Seq::<WordEntry>::empty(),
    {
        let a = OpenJtalkRc { dict_dir: dict_dir.to_string(), user_words: Vec::new() };
        proof {
            assert(entry_views(a.user_words@) =~= Seq::<WordEntry>::empty());
        }
        Ok(a)
    }

    /// Takes the current words of `user_dict` as the analyzer's user
    /// lexicon. This is a copy: later edits of the dictionary take effect
    /// only when it is attached again.
    pub fn use_user_dict(&mut self, user_dict: &UserDict) -> (r: Result<(), VoicevoxError>)
        requires
            user_dict.wf(),
        ensures
            r is Ok,
            final(self)@.dict_dir == old(self)@.dict_dir,
            final(self)@.user_words == user_dict@,
    {
        self.user_words = user_dict.words();
        Ok(())
    }

    /// The system dictionary directory.
    pub fn dict_dir(&self) -> (r: &str)
        ensures
            r@ == self@.dict_dir,
    {
        self.dict_dir.as_str()
    }

    /// The user words attached last, in the dictionary's order.
    pub fn user_words(&self) -> (r: &[(u128, UserDictWord)])
        ensures
            entry_views(r@) == self@.user_words,
    {
        self.user_words.as_slice()
    }
}

} // verus!
