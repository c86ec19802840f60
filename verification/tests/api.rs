use pinyin::db::DB;
use pinyin::polyphone::Polyphone;
use pinyin::syllable::{py, Finals, Initials, Tones};
use pinyin::{first_letters, pinyin, PinYinQuery, ToneRepresentation};

fn table() -> DB {
    DB::load("# two characters\nU+4F60: nǐ\nU+597D: hǎo,hào\nU+5973: nǚ\nU+4E8C: èr\n").unwrap()
}

#[test]
fn test_pinyin() {
    let db = table();
    assert_eq!(pinyin(&db, "你好", ToneRepresentation::NoTones), "ni hao ");
    assert_eq!(pinyin(&db, "你好", ToneRepresentation::Numbered), "ni3 hao3 ");
    assert_eq!(pinyin(&db, "你好", ToneRepresentation::Unicode), "nǐ hǎo ");
}

#[test]
fn test_first_letters() {
    let db = table();
    assert_eq!(first_letters(&db, "你l好"), "nlh");
}

#[test]
fn unknown_characters_stay() {
    let db = table();
    assert_eq!(pinyin(&db, "你☃x", ToneRepresentation::Unicode), "nǐ ☃ x ");
    assert_eq!(pinyin(&db, "☃", ToneRepresentation::Numbered), "☃ ");
    assert_eq!(pinyin(&db, "A b", ToneRepresentation::NoTones), "A   b ");
    assert_eq!(first_letters(&db, "☃你☃"), "☃n☃");
    assert_eq!(first_letters(&db, "Hello, 好!"), "Hello, h!");
    assert_eq!(pinyin(&DB::new(), "你好", ToneRepresentation::Unicode), "你 好 ");
    assert_eq!(first_letters(&DB::new(), "你好"), "你好");
}

#[test]
fn empty_text() {
    let db = table();
    assert_eq!(pinyin(&db, "", ToneRepresentation::Unicode), "");
    assert_eq!(first_letters(&db, ""), "");
}

#[test]
fn the_default_reading_is_used() {
    let db = table();
    assert_eq!(pinyin(&db, "好", ToneRepresentation::Numbered), "hao3 ");
    assert_eq!(pinyin(&db, "女二", ToneRepresentation::Unicode), "nǚ èr ");
    assert_eq!(pinyin(&db, "女二", ToneRepresentation::Numbered), "nü3 er4 ");
    assert_eq!(pinyin(&db, "女二", ToneRepresentation::NoTones), "nü er ");
    assert_eq!(first_letters(&db, "女二"), "ne");
}

#[test]
fn a_table_filled_by_hand() {
    let mut db = DB::new();
    db.insert('x', Polyphone::from(vec![py(Initials::Zero, Finals::Van, Tones::Two)]));
    assert_eq!(pinyin(&db, "xy", ToneRepresentation::Unicode), "ǘan y ");
    assert_eq!(first_letters(&db, "xy"), "üy");
}

#[test]
fn tones_are_marked_by_default() {
    assert!(ToneRepresentation::default() == ToneRepresentation::Unicode);
    let query = PinYinQuery { tone_repr: ToneRepresentation::default() };
    assert_eq!(pinyin(&table(), "你", query.tone_repr), "nǐ ");
    let p = py(Initials::N, Finals::I, Tones::Three);
    assert_eq!(ToneRepresentation::Numbered.of(p).to_string(), "ni3");
    assert_eq!(ToneRepresentation::NoTones.of(p).to_string(), "ni");
    assert_eq!(ToneRepresentation::Unicode.of(p).to_string(), "nǐ");
}
