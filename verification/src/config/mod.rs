//! Configuration of the feed reader.

pub mod serializer;

use vstd::prelude::*;

use crate::feed::{FeedSource, FeedSourceView};

verus! {

/// Article title configuration: what stands before a title in the list of
/// articles.
#[derive(Debug, Clone, Copy, PartialEq, Eq, Structural)]
pub struct ArticleTitleConfig {
    /// Whether the date of the article is shown.
    pub show_timestamp: bool,
    /// Whether the first author of the article is shown.
    pub show_author: bool,
}

impl Default for ArticleTitleConfig {
    fn default() -> (config: ArticleTitleConfig)
        ensures
            !config.show_timestamp,
            !config.show_author,
    {
        ArticleTitleConfig { show_timestamp: false, show_author: false }
    }
}

/// One configured source: its name and where its feed comes from.
#[derive(Debug, PartialEq, Eq)]
pub struct SourceConfig {
    pub name: String,
    pub source: FeedSource,
}

impl Clone for SourceConfig {
    fn clone(&self) -> (copy: SourceConfig)
        ensures
            copy.name@ == self.name@,
            copy.source@ == self.source@,
    {
        SourceConfig { name: self.name.clone(), source: self.source.clone() }
    }
}

/// The configuration of the feed reader.
#[derive(Debug)]
pub struct Config {
    /// Article title configuration.
    pub article_title: Option<ArticleTitleConfig>,
    /// The sources, each with its name. Where a name occurs twice, the
    /// first source of that name counts.
    pub sources: Vec<SourceConfig>,
}

/// The first of `sources` that is named `name`, from index `from` on.
pub open spec fn source_from(sources: Seq<SourceConfig>, name: Seq<char>, from: int) -> Option<
    FeedSourceView,
>
    decreases sources.len() - from,
{
    if from < 0 || from >= sources.len() {
        None
    } else if sources[from].name@ == name {
        Some(sources[from].source@)
    } else {
        source_from(sources, name, from + 1)
    }
}

impl Default for Config {
    fn default() -> (config: Config)
        ensures
            config.article_title is None,
            config.sources@.len() == 0,
    {
        Config { article_title: None, sources: Vec::new() }
    }
}

impl Config {
    /// The source that is configured under `name`, if there is one.
    pub open spec fn source_named(&self, name: Seq<char>) -> Option<FeedSourceView> {
        source_from(self.sources@, name, 0)
    }

    /// What stands before the titles: as configured, or nothing where no
    /// article title configuration is given.
    pub open spec fn title_config(&self) -> ArticleTitleConfig {
        match self.article_title {
            Some(config) => config,
            None => ArticleTitleConfig { show_timestamp: false, show_author: false },
        }
    }

    /// Returns the source that is configured under `name`.
    pub fn source(&self, name: &str) -> (found: Option<&FeedSource>)
        ensures
            match found {
                Some(source) => self.source_named(name@) == Some(source@),
                None => self.source_named(name@) is None,
            },
    {
        let mut i: usize = 0;
        while i < self.sources.len()
            invariant
                i <= self.sources.len(),
                source_from(self.sources@, name@, i as int) == self.source_named(name@),
            decreases self.sources.len() - i,
        {
            if *self.sources[i].name.as_str() == *name {
                return Some(&self.sources[i].source);
            }
            i += 1;
        }
        None
    }

    /// Returns the article title configuration, or the default one where
    /// none is given.
    pub fn article_title(&self) -> (config: ArticleTitleConfig)
        ensures
            config == self.title_config(),
    {
        match self.article_title {
            Some(config) => config,
            None => ArticleTitleConfig::default(),
        }
    }
}

} // verus!
