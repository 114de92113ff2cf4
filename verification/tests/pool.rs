use tuifeed::client::{FeedClient, Worker};
use tuifeed::feed::{Client, Feed, FeedError, FeedSource};
use tuifeed::kiosk::{FeedState, Kiosk};

fn source(url: &str) -> FeedSource {
    FeedSource::Http(url.to_string())
}

#[test]
fn should_poll_nothing_from_an_idle_pool() {
    let mut client = FeedClient::default();
    assert_eq!(client.running(), false);
    assert_eq!(client.poll(), None);
    assert_eq!(client.running(), false);
}

#[test]
fn should_run_until_the_outcome_is_polled() {
    let mut client = FeedClient::default();
    assert_eq!(client.running(), false);
    let ticket = client.fetch("Le Figaro", &source("https://www.lefigaro.fr/rss"));
    assert_eq!(client.running(), true);
    // the work is not done: nothing to poll
    assert_eq!(client.poll(), None);
    assert_eq!(client.running(), true);
    assert!(client.complete(ticket, Ok(Feed::new("Le Figaro", Vec::new()))));
    assert_eq!(client.running(), true);
    let (name, result) = client.poll().unwrap();
    assert_eq!(name.as_str(), "Le Figaro");
    assert!(result.is_ok());
    assert_eq!(client.running(), false);
    assert_eq!(client.poll(), None);
}

#[test]
fn should_yield_every_fetch_once() {
    let mut client = FeedClient::default();
    let names = ["a", "b", "a", "c", "a"];
    let mut tickets = Vec::new();
    for name in names {
        tickets.push(client.fetch(name, &source("http://example.com")));
    }
    // the work ends in another order than it was dispatched
    for i in [3, 0, 4, 2, 1] {
        let outcome = Err(FeedError::Http(format!("{}", i)));
        assert!(client.complete(tickets[i], outcome));
    }
    let mut polled = Vec::new();
    while client.running() {
        let (name, result) = client.poll().unwrap();
        polled.push((name, result));
    }
    assert_eq!(polled.len(), names.len());
    for (i, (name, result)) in polled.iter().enumerate() {
        // of several fetches whose work is done, the first dispatched leaves first
        assert_eq!(name.as_str(), names[i]);
        assert_eq!(result, &Err(FeedError::Http(format!("{}", i))));
    }
    assert_eq!(client.poll(), None);
}

#[test]
fn should_take_an_outcome_once_and_only_for_a_ticket_in_flight() {
    let mut client = FeedClient::default();
    let first = client.fetch("a", &source("http://a"));
    let second = client.fetch("b", &source("http://b"));
    assert_ne!(first, second);
    assert!(!client.complete(second + 1, Err(FeedError::Io(String::new()))));
    assert!(client.complete(second, Err(FeedError::Io(String::from("x")))));
    assert!(!client.complete(second, Err(FeedError::Io(String::from("y")))));
    assert_eq!(
        client.poll(),
        Some((String::from("b"), Err(FeedError::Io(String::from("x")))))
    );
    // the ticket has left the pool
    assert!(!client.complete(second, Err(FeedError::Io(String::new()))));
    assert_eq!(client.poll(), None);
    assert!(client.running());
    // tickets are never given out twice
    let third = client.fetch("c", &source("http://c"));
    assert!(third != first && third != second);
}

#[test]
fn should_describe_a_worker() {
    let mut worker = Worker::new(7, String::from("a"), source("http://a"));
    assert_eq!(worker.ticket(), 7);
    assert_eq!(worker.name().as_str(), "a");
    assert_eq!(worker.source(), &source("http://a"));
    assert!(!worker.is_joinable());
    worker.stop(Err(FeedError::Http(String::from("first"))));
    assert!(worker.is_joinable());
    worker.stop(Err(FeedError::Http(String::from("second"))));
    assert_eq!(
        worker.join(),
        (
            String::from("a"),
            Err(FeedError::Http(String::from("first")))
        )
    );
}

#[test]
fn should_hold_success_and_error_after_two_polls() {
    let feed = r#"<rss version="2.0"><channel><title>A</title>
<item><title>one</title><guid>1</guid></item></channel></rss>"#;
    let mut client = FeedClient::default();
    let mut kiosk = Kiosk::default();
    let a = client.fetch("A", &source("http://valid.example/feed.xml"));
    kiosk.insert_feed("A", FeedState::Loading);
    let b = client.fetch("B", &source("http://unreachable.example/feed.xml"));
    kiosk.insert_feed("B", FeedState::Loading);
    assert!(client.complete(b, Err(FeedError::Http(String::from("unreachable")))));
    assert!(client.complete(a, Client.feed_of("A", feed_rs::parser::parse(feed.as_bytes()))));
    for _ in 0..2 {
        let (name, result) = client.poll().unwrap();
        let state = match result {
            Ok(feed) => FeedState::Success(feed),
            Err(error) => FeedState::Error(error),
        };
        kiosk.insert_feed(&name, state);
    }
    assert!(!client.running());
    assert!(matches!(
        kiosk.get_feed_state("A"),
        Some(FeedState::Success(_))
    ));
    assert_eq!(
        kiosk.get_feed_state("B"),
        Some(&FeedState::Error(FeedError::Http(String::from(
            "unreachable"
        ))))
    );
    assert!(kiosk.get_feed("B").is_none());
    assert_eq!(kiosk.get_feed("A").unwrap().articles().len(), 1);
}
