use tuifeed::feed::{Feed, FeedError};
use tuifeed::kiosk::{FeedState, FlatFeedState, Kiosk};

fn empty_feed(name: &str) -> Feed {
    Feed::new(name, Vec::default())
}

#[test]
fn should_create_kiosk() {
    let kiosk = Kiosk::default();
    assert!(kiosk.sources().is_empty());
}

#[test]
fn should_insert_feed_into_kiosk() {
    let mut kiosk = Kiosk::default();
    kiosk.insert_feed("lefigaro", FeedState::Success(empty_feed("lefigaro")));
    assert_eq!(kiosk.sources().len(), 1);
}

#[test]
fn should_get_feed_from_kiosk() {
    let mut kiosk = Kiosk::default();
    kiosk.insert_feed("lefigaro", FeedState::Success(empty_feed("lefigaro")));
    assert!(kiosk.get_feed("lefigaro").is_some());
    assert!(kiosk.get_feed("foobar").is_none());
}

#[test]
fn should_get_feed_state_from_kiosk() {
    let mut kiosk = Kiosk::default();
    kiosk.insert_feed(
        "lefigaro",
        FeedState::Error(FeedError::Parse(String::from("parse error"))),
    );
    assert_eq!(
        kiosk.get_feed_state("lefigaro").unwrap(),
        &FeedState::Error(FeedError::Parse(String::from("parse error")))
    );
}

#[test]
fn should_get_sources_from_kiosk() {
    let mut kiosk = Kiosk::default();
    kiosk.insert_feed("lefigaro", FeedState::Success(empty_feed("lefigaro")));
    assert_eq!(kiosk.sources(), vec![&String::from("lefigaro")]);
}

#[test]
fn should_return_kiosk_state() {
    let mut kiosk = Kiosk::default();
    kiosk.insert_feed("lefigaro", FeedState::Success(empty_feed("lefigaro")));
    kiosk.insert_feed(
        "nytimes",
        FeedState::Error(FeedError::Parse(String::from("parse error"))),
    );
    let mut state = kiosk.get_state();
    state.sort_by(|a, b| a.0.cmp(&b.0));
    assert_eq!(
        state,
        vec![
            (String::from("lefigaro"), FlatFeedState::Success),
            (String::from("nytimes"), FlatFeedState::Error),
        ]
    );
}

#[test]
fn should_replace_the_state_of_a_source() {
    let mut kiosk = Kiosk::default();
    kiosk.insert_feed("lefigaro", FeedState::Loading);
    kiosk.insert_feed("nytimes", FeedState::Loading);
    assert_eq!(kiosk.get_feed_state("lefigaro"), Some(&FeedState::Loading));
    assert!(kiosk.get_feed("lefigaro").is_none());
    kiosk.insert_feed("lefigaro", FeedState::Success(empty_feed("lefigaro")));
    assert_eq!(kiosk.sources().len(), 2);
    assert_eq!(
        kiosk.get_feed("lefigaro").map(|feed| feed.name().as_str()),
        Some("lefigaro")
    );
    assert_eq!(kiosk.get_feed_state("nytimes"), Some(&FeedState::Loading));
    // back to loading on a second fetch
    kiosk.insert_feed("lefigaro", FeedState::Loading);
    assert_eq!(kiosk.get_feed_state("lefigaro"), Some(&FeedState::Loading));
    assert!(kiosk.get_feed("lefigaro").is_none());
    assert_eq!(kiosk.get_feed_state("foobar"), None);
}

#[test]
fn should_not_give_the_feed_of_a_failed_source() {
    let mut kiosk = Kiosk::default();
    kiosk.insert_feed(
        "B",
        FeedState::Error(FeedError::Http(String::from("unreachable"))),
    );
    assert!(kiosk.get_feed("B").is_none());
    assert!(kiosk.get_feed_state("B").is_some());
}

#[test]
fn should_flatten_feed_states() {
    assert_eq!(
        FlatFeedState::from(&FeedState::Success(empty_feed("a"))),
        FlatFeedState::Success
    );
    assert_eq!(
        FlatFeedState::from(&FeedState::Error(FeedError::Io(String::new()))),
        FlatFeedState::Error
    );
    assert_eq!(
        FlatFeedState::from(&FeedState::Loading),
        FlatFeedState::Loading
    );
}
