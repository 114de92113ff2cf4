use std::path::PathBuf;

use tuifeed::feed::{Article, Timestamp};
use tuifeed::history::{now, seconds_of, ArticleHistory, History, HistoryRecord};

fn article(id: &str, date: Option<Timestamp>) -> Article {
    Article {
        id: id.to_string(),
        title: Some("title".to_string()),
        authors: vec![],
        date,
        summary: String::default(),
        url: "http://example.com".to_string(),
    }
}

fn empty_history() -> History {
    History::new(PathBuf::from("history.json"))
}

#[test]
fn test_should_work_with_history() {
    let mut history = empty_history();
    assert!(history.to_records().is_empty());

    let source = "figaro".to_string();
    let article = Article {
        id: "1".to_string(),
        title: Some("title".to_string()),
        authors: vec![],
        date: None,
        summary: String::default(),
        url: "http://example.com".to_string(),
    };

    // mark read
    history.read(&source, &article);
    assert!(history.is_article_read(&source, &article));

    // unread source
    let unread_source = "nytimes".to_string();
    assert!(!history.is_article_read(&unread_source, &article));

    // unread article
    let unread_article = Article {
        id: "2".to_string(),
        title: Some("title".to_string()),
        authors: vec![],
        date: None,
        summary: String::default(),
        url: "http://example.com".to_string(),
    };
    assert!(!history.is_article_read(&source, &unread_article));

    assert_eq!(history.to_records().len(), 1);
}

#[test]
fn test_should_insert_article() {
    let mut history = empty_history();
    assert!(history.to_records().is_empty());

    let source = "figaro".to_string();
    let article = Article {
        id: "1".to_string(),
        title: Some("title".to_string()),
        authors: vec![],
        date: None,
        summary: String::default(),
        url: "http://example.com".to_string(),
    };

    history.insert(&source, &article);
    assert!(!history.is_article_read(&source, &article));

    assert_eq!(history.to_records().len(), 1);
}

#[test]
fn test_should_filter_articles() {
    let mut history = empty_history();
    assert!(history.to_records().is_empty());

    let source = "figaro".to_string();
    let article = Article {
        id: "1".to_string(),
        title: Some("title".to_string()),
        authors: vec![],
        date: None,
        summary: String::default(),
        url: "http://example.com".to_string(),
    };

    let article2 = Article {
        id: "2".to_string(),
        title: Some("title".to_string()),
        authors: vec![],
        date: None,
        summary: String::default(),
        url: "http://example.com".to_string(),
    };

    history.insert(&source, &article);
    history.insert(&source, &article2);

    // filter articles
    history.filter_articles(&source, &[&article]);
    let records = history.to_records();
    assert!(records.iter().any(|r| r.source == source));
    assert!(records
        .iter()
        .any(|r| r.source == source && r.id == article.id));
    assert!(!records
        .iter()
        .any(|r| r.source == source && r.id == article2.id));
}

#[test]
fn test_should_mark_source_as_read() {
    let mut history = empty_history();
    assert!(history.to_records().is_empty());

    let source = "figaro".to_string();
    let article = Article {
        id: "1".to_string(),
        title: Some("title".to_string()),
        authors: vec![],
        date: None,
        summary: String::default(),
        url: "http://example.com".to_string(),
    };

    history.insert(&source, &article);
    assert!(!history.is_source_read(&source));

    let source2 = "lemonde".to_string();
    let article = Article {
        id: "1".to_string(),
        title: Some("title".to_string()),
        authors: vec![],
        date: None,
        summary: String::default(),
        url: "http://example.com".to_string(),
    };

    history.insert(&source2, &article);
    assert!(!history.is_source_read(&source2));

    history.read_source(&source);
    assert!(history.is_source_read(&source));
    assert!(!history.is_source_read(&source2));
    assert!(history.is_article_read(&source, &article));
}

#[test]
fn test_should_read_all_sources() {
    let mut history = empty_history();
    assert!(history.to_records().is_empty());

    let source = "figaro".to_string();
    let article = Article {
        id: "1".to_string(),
        title: Some("title".to_string()),
        authors: vec![],
        date: None,
        summary: String::default(),
        url: "http://example.com".to_string(),
    };

    history.insert(&source, &article);
    assert!(!history.is_source_read(&source));

    let source2 = "lemonde".to_string();
    let article = Article {
        id: "1".to_string(),
        title: Some("title".to_string()),
        authors: vec![],
        date: None,
        summary: String::default(),
        url: "http://example.com".to_string(),
    };

    history.insert(&source2, &article);
    assert!(!history.is_source_read(&source2));

    history.read_all();
    assert!(history.is_source_read(&source));
    assert!(history.is_source_read(&source2));
    assert!(history.is_article_read(&source, &article));
}

#[test]
fn should_keep_the_path_of_the_history() {
    let path = PathBuf::from("/tmp/somewhere/history.json");
    let mut history = History::new(path.clone());
    assert_eq!(history.path(), &path);
    history.insert_at("figaro", &article("1", None), 5);
    history.read_all_at(6);
    history.filter_articles("figaro", &[]);
    assert_eq!(history.path(), &path);
}

#[test]
fn should_record_the_date_of_the_article_or_else_the_time_it_was_seen() {
    let mut history = empty_history();
    history.insert_at("a", &article("dated", Some(Timestamp::new(1000, 900))), 5000);
    history.insert_at("a", &article("undated", None), 5000);
    let records = history.to_records();
    assert_eq!(
        records,
        vec![
            HistoryRecord {
                source: "a".to_string(),
                id: "dated".to_string(),
                state: ArticleHistory {
                    timestamp: 1000,
                    last_viewed: None
                },
            },
            HistoryRecord {
                source: "a".to_string(),
                id: "undated".to_string(),
                state: ArticleHistory {
                    timestamp: 5000,
                    last_viewed: None
                },
            },
        ]
    );
}

#[test]
fn should_not_insert_twice() {
    let mut history = empty_history();
    let one = article("1", None);
    history.read_at("a", &one, 100);
    assert!(history.is_article_read("a", &one));
    // a second insert, later, does not reset the record
    history.insert_at("a", &one, 200);
    assert!(history.is_article_read("a", &one));
    assert_eq!(
        history.to_records()[0].state,
        ArticleHistory {
            timestamp: 100,
            last_viewed: Some(100)
        }
    );
}

#[test]
fn should_be_unread_after_insert_and_read_after_read() {
    let mut history = empty_history();
    let one = article("1", Some(Timestamp::new(50, 0)));
    history.insert_at("a", &one, 100);
    assert!(!history.is_article_read("a", &one));
    history.read_at("a", &one, 100);
    assert!(history.is_article_read("a", &one));
}

#[test]
fn should_be_read_only_if_viewed_after_it_appeared() {
    let mut history = empty_history();
    // the article is dated after the time of the viewing
    let future = article("1", Some(Timestamp::new(500, 0)));
    history.read_at("a", &future, 100);
    assert!(!history.is_article_read("a", &future));
    assert!(!history.is_source_read("a"));
    history.read_at("a", &future, 500);
    assert!(history.is_article_read("a", &future));
    assert!(ArticleHistory {
        timestamp: 7,
        last_viewed: Some(7)
    }
    .is_read());
    assert!(!ArticleHistory {
        timestamp: 7,
        last_viewed: Some(6)
    }
    .is_read());
    assert!(!ArticleHistory {
        timestamp: 0,
        last_viewed: None
    }
    .is_read());
}

#[test]
fn should_count_a_source_without_records_as_read() {
    let mut history = empty_history();
    assert!(history.is_source_read("never seen"));
    history.insert_at("other", &article("1", None), 1);
    assert!(history.is_source_read("never seen"));
    assert!(!history.is_source_read("other"));
    // a source whose records were all filtered away
    history.filter_articles("other", &[]);
    assert!(history.is_source_read("other"));
    assert!(history.to_records().is_empty());
}

#[test]
fn should_filter_one_source_only() {
    let mut history = empty_history();
    let one = article("1", None);
    let two = article("2", None);
    let three = article("3", None);
    for source in ["a", "b"] {
        history.insert_at(source, &one, 10);
        history.read_at(source, &two, 20);
        history.insert_at(source, &three, 30);
    }
    let other = article("9", None);
    history.filter_articles("a", &[&two, &other, &two]);
    assert!(!history.is_article_read("a", &one));
    assert!(history.is_article_read("a", &two));
    let records = history.to_records();
    let of = |source: &str| -> Vec<String> {
        records
            .iter()
            .filter(|r| r.source == source)
            .map(|r| r.id.clone())
            .collect()
    };
    assert_eq!(of("a"), vec!["2"]);
    assert_eq!(of("b"), vec!["1", "2", "3"]);
    // the articles that are given and not recorded are not added
    assert_eq!(records.len(), 4);
    // the record that stays keeps its times
    assert_eq!(
        records.iter().find(|r| r.source == "a").unwrap().state,
        ArticleHistory {
            timestamp: 20,
            last_viewed: Some(20)
        }
    );
}

#[test]
fn should_mark_only_the_recorded_articles_of_the_source() {
    let mut history = empty_history();
    let one = article("1", None);
    let two = article("2", None);
    history.insert_at("figaro", &one, 10);
    history.insert_at("lemonde", &one, 10);
    history.read_source_at("figaro", 11);
    assert!(history.is_article_read("figaro", &one));
    assert!(history.is_source_read("figaro"));
    // no record is made for an article that was never inserted
    assert!(!history.is_article_read("figaro", &two));
    assert!(!history.is_article_read("lemonde", &one));
    assert!(!history.is_source_read("lemonde"));
    assert_eq!(history.to_records().len(), 2);
    // marking an unknown source changes nothing
    history.read_source_at("nytimes", 12);
    assert_eq!(history.to_records().len(), 2);
}

#[test]
fn should_mark_every_source() {
    let mut history = empty_history();
    let one = article("1", None);
    history.insert_at("figaro", &one, 10);
    history.insert_at("lemonde", &one, 10);
    history.read_all_at(10);
    assert!(history.is_source_read("figaro"));
    assert!(history.is_source_read("lemonde"));
    for record in history.to_records() {
        assert_eq!(record.state.last_viewed, Some(10));
    }
}

#[test]
fn should_give_the_same_answers_after_export_and_import() {
    let mut history = empty_history();
    let one = article("1", Some(Timestamp::new(100, 0)));
    let two = article("2", None);
    history.read_at("a", &one, 150);
    history.insert_at("a", &two, 150);
    history.read_at("b", &two, 90);
    let again = History::from_records(PathBuf::from("elsewhere.json"), history.to_records());
    for source in ["a", "b", "c"] {
        assert_eq!(again.is_source_read(source), history.is_source_read(source));
        for article in [&one, &two] {
            assert_eq!(
                again.is_article_read(source, article),
                history.is_article_read(source, article)
            );
        }
    }
    assert_eq!(again.to_records(), history.to_records());
    assert_eq!(again.path(), &PathBuf::from("elsewhere.json"));
}

#[test]
fn should_let_the_later_record_count_on_import() {
    let record = |viewed: Option<u64>| HistoryRecord {
        source: "a".to_string(),
        id: "1".to_string(),
        state: ArticleHistory {
            timestamp: 5,
            last_viewed: viewed,
        },
    };
    let history = History::from_records(
        PathBuf::from("history.json"),
        vec![record(None), record(Some(9))],
    );
    assert_eq!(history.to_records(), vec![record(Some(9))]);
    assert!(history.is_article_read("a", &article("1", None)));
}

#[test]
fn should_read_a_clock_set_before_1970_as_zero() {
    assert_eq!(seconds_of(None), 0);
    assert_eq!(seconds_of(Some(0)), 0);
    assert_eq!(seconds_of(Some(1_700_000_000)), 1_700_000_000);
    assert_eq!(seconds_of(Some(u64::MAX)), u64::MAX);
}

#[test]
fn should_read_the_clock() {
    // well after 2020, and not going backwards
    let first = now();
    let second = now();
    assert!(first > 1_577_836_800);
    assert!(second >= first);
}

#[test]
fn should_mark_read_in_one_source_and_not_in_the_other() {
    let mut history = empty_history();
    let article = article("1", None);
    history.insert("figaro", &article);
    history.insert("lemonde", &article);
    history.read_source("figaro");
    assert!(history.is_article_read("figaro", &article));
    assert!(history.is_source_read("figaro"));
    assert!(!history.is_source_read("lemonde"));
}
