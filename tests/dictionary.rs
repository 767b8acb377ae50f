use voicevox_core_rs::user_dict::count_moras;
use voicevox_core_rs::{OpenJtalkRc, UserDict, UserDictWord, UserDictWordType, VoicevoxError};

fn word(surface: &str, pronunciation: &str) -> UserDictWord {
    UserDictWord::new(surface, pronunciation)
}

#[test]
fn new_word_has_defaults() {
    let w = word("test", "テスト");
    assert_eq!(w.surface, "test");
    assert_eq!(w.pronunciation, "テスト");
    assert_eq!(w.accent_type, 0);
    assert_eq!(w.word_type, UserDictWordType::CommonNoun);
    assert_eq!(w.priority, 5);
}

#[test]
fn moras_skip_small_kana() {
    assert_eq!(count_moras("キャット"), 3);
    assert_eq!(count_moras("アイウエオ"), 5);
    assert_eq!(count_moras(""), 0);
}

#[test]
fn word_validation() {
    assert!(word("a", "ア").is_valid());
    assert!(!word("", "ア").is_valid());
    assert!(!word("a", "").is_valid());
    let mut w = word("cat", "キャット");
    w.accent_type = 3;
    assert!(w.is_valid());
    w.accent_type = 4;
    assert!(!w.is_valid());
}

#[test]
fn word_type_codes() {
    assert_eq!(UserDictWordType::ProperNoun.to_raw(), 0);
    assert_eq!(UserDictWordType::Suffix.to_raw(), 4);
    assert_eq!(UserDictWordType::from_raw(2), Some(UserDictWordType::Verb));
    assert_eq!(UserDictWordType::from_raw(5), None);
    assert_eq!(UserDictWordType::from_raw(-1), None);
}

#[test]
fn add_then_remove_then_update_is_not_found() {
    let mut dict = UserDict::new().unwrap();
    let id = dict.add_word(word("hello", "ハロー")).unwrap();
    assert_eq!(dict.len(), 1);
    dict.remove_word(id).unwrap();
    assert_eq!(dict.len(), 0);
    assert_eq!(
        dict.update_word(id, word("hello", "ハロー")),
        Err(VoicevoxError::UserDictWordNotFound)
    );
}

#[test]
fn remove_missing_word_fails() {
    let mut dict = UserDict::new().unwrap();
    assert_eq!(dict.remove_word(42), Err(VoicevoxError::UserDictWordNotFound));
}

#[test]
fn invalid_word_is_refused() {
    let mut dict = UserDict::new().unwrap();
    assert_eq!(dict.add_word(word("", "ア")), Err(VoicevoxError::InvalidUserDictWord));
    assert_eq!(dict.len(), 0);
    let id = dict.add_word(word("a", "ア")).unwrap();
    assert_eq!(dict.update_word(id, word("a", "")), Err(VoicevoxError::InvalidUserDictWord));
    assert_eq!(dict.get(id).unwrap().pronunciation, "ア");
}

#[test]
fn random_ids_differ() {
    let mut dict = UserDict::new().unwrap();
    let a = dict.add_word(word("a", "ア")).unwrap();
    let b = dict.add_word(word("b", "イ")).unwrap();
    assert_ne!(a, b);
    assert_eq!(dict.len(), 2);
}

#[test]
fn taken_candidate_gets_smallest_free_id() {
    let mut dict = UserDict::new().unwrap();
    assert_eq!(dict.add_word_with_id(word("a", "ア"), 1), Ok(1));
    assert_eq!(dict.add_word_with_id(word("b", "イ"), 1), Ok(0));
    assert_eq!(dict.add_word_with_id(word("c", "ウ"), 0), Ok(2));
    assert_eq!(dict.add_word_with_id(word("d", "エ"), 900), Ok(900));
    let ids: Vec<u128> = dict.words().iter().map(|e| e.0).collect();
    assert_eq!(ids, vec![1, 0, 2, 900]);
}

#[test]
fn update_replaces_in_place() {
    let mut dict = UserDict::new().unwrap();
    dict.add_word_with_id(word("a", "ア"), 7).unwrap();
    dict.add_word_with_id(word("b", "イ"), 8).unwrap();
    dict.update_word(7, word("z", "ゼット")).unwrap();
    let words = dict.words();
    assert_eq!(words[0].0, 7);
    assert_eq!(words[0].1.surface, "z");
    assert_eq!(words[1].1.surface, "b");
}

#[test]
fn import_overwrites_on_collision() {
    let mut a = UserDict::new().unwrap();
    a.add_word_with_id(word("one", "ワン"), 1).unwrap();
    a.add_word_with_id(word("two", "ツー"), 2).unwrap();
    let mut b = UserDict::new().unwrap();
    b.add_word_with_id(word("deux", "ドゥ"), 2).unwrap();
    b.add_word_with_id(word("three", "スリー"), 3).unwrap();
    a.import(&b).unwrap();
    let words = a.words();
    assert_eq!(words.len(), 3);
    assert_eq!(words[0].1.surface, "one");
    assert_eq!((words[1].0, words[1].1.surface.as_str()), (2, "deux"));
    assert_eq!((words[2].0, words[2].1.surface.as_str()), (3, "three"));
    assert_eq!(b.len(), 2);
}

#[test]
fn attaching_copies_the_dictionary() {
    let mut analyzer = OpenJtalkRc::new("/dict").unwrap();
    assert_eq!(analyzer.dict_dir(), "/dict");
    assert!(analyzer.user_words().is_empty());
    let mut dict = UserDict::new().unwrap();
    let id = dict
        .add_word(word("this_is_a_very_long_phrase_that_hopefully_is_not_in_any_dictionary", "アイウエオ"))
        .unwrap();
    analyzer.use_user_dict(&dict).unwrap();
    assert_eq!(analyzer.user_words().len(), 1);
    assert_eq!(analyzer.user_words()[0].0, id);
    assert_eq!(analyzer.user_words()[0].1.pronunciation, "アイウエオ");
    dict.remove_word(id).unwrap();
    assert_eq!(analyzer.user_words().len(), 1);
}
