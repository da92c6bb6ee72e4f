use rust_bucket::blargy::BlargyStuff;
use rust_bucket::summaries::{NewsArticle, SocialPost, Summary};
use rust_bucket::word_play::{to_pig_latin, PigConverter};

#[test]
fn blargy_starts_at_level_one_and_levels_up() {
    let mut blargy = BlargyStuff::new("Blargy");
    assert_eq!(blargy.name, "Blargy");
    assert_eq!(blargy.description, "n/a");
    blargy.level_up();
    blargy.level_up();
    // The level itself is hidden; reading the fixed table still works.
    assert_eq!(blargy.read_at(0), 1);
    assert_eq!(blargy.read_at(1), 2);
    assert_eq!(blargy.read_at(2), 3);
}

#[test]
fn news_article_summary_names_author_and_location() {
    let article = NewsArticle {
        headline: "Penguins Win the Stanley Cup Championship!".to_string(),
        location: "Pittsburgh, PA, USA".to_string(),
        author: "Iceburgh".to_string(),
        content: "The Pittsburgh Penguins once again are the best team in the NHL.".to_string(),
    };
    assert_eq!(article.summarize_author(), "<Iceburgh>");
    assert_eq!(
        article.summarize(),
        "Penguins Win the Stanley Cup Championship!, by <Iceburgh> (in Pittsburgh, PA, USA)"
    );
}

#[test]
fn social_post_uses_the_default_summary() {
    let post = SocialPost {
        username: "horse_ebooks".to_string(),
        content: "of course, as you probably already know, people".to_string(),
        reply: false,
        repost: false,
    };
    assert_eq!(post.summarize_author(), "@horse_ebooks");
    assert_eq!(post.summarize(), "Open this beauty by @horse_ebooks. Do it now!!!");
}

#[test]
fn pig_converter_holds_a_word() {
    let _converter = PigConverter::new("apple");
}

#[test]
fn pig_latin_moves_consonants_and_greets_vowels() {
    assert_eq!(to_pig_latin("hello world"), "ello-hay orld-way");
    assert_eq!(to_pig_latin("apple"), "apple-hay");
    assert_eq!(to_pig_latin("I am"), "I-hay am-hay");
}

#[test]
fn pig_latin_keeps_one_trailing_punctuation_mark() {
    // A moved consonant is lower-cased only in the punctuated branch.
    assert_eq!(to_pig_latin("Hello, world!"), "ello-hay, orld-way!");
    assert_eq!(to_pig_latin("Hello world"), "ello-Hay orld-way");
    assert_eq!(to_pig_latin("a."), "a-hay.");
}

#[test]
fn pig_latin_collapses_surplus_whitespace() {
    assert_eq!(to_pig_latin("  first   second "), "irst-fay econd-say");
    assert_eq!(to_pig_latin(""), "");
    assert_eq!(to_pig_latin("   "), "");
}
