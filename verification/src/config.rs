//! Settings of the HTML renderer and of the book it renders.

use vstd::prelude::*;
use crate::text::{text_view, texts_view};

verus! {

/// How the renderer handles the playpen.
#[derive(Debug, Clone, PartialEq, Eq)]
pub struct Playpen {
    /// The path to the editor to use. Defaults to "ace".
    pub editor: String,
    /// Should playpen snippets be editable? Defaults to `false`.
    pub editable: bool,
}

/// Settings of the HTML renderer.
#[derive(Debug, Clone, PartialEq, Eq)]
pub struct HtmlConfig {
    /// The theme directory, if specified.
    pub theme: Option<String>,
    /// Use "smart quotes" instead of the usual `"` character.
    pub curly_quotes: bool,
    /// Should mathjax be enabled?
    pub mathjax_support: bool,
    /// An optional analytics code.
    pub google_analytics: Option<String>,
    /// Additional stylesheets to include in the page's head.
    pub additional_css: Vec<String>,
    /// Additional scripts to include at the bottom of the page's body.
    pub additional_js: Vec<String>,
    /// Playpen settings.
    pub playpen: Playpen,
    /// Where a served page looks for reloads. The serving command sets this;
    /// it is not meant to be written by the book's author.
    pub livereload_url: Option<String>,
    /// Should section labels be left out of the table of contents?
    pub no_section_label: bool,
}

/// What the book says of itself.
#[derive(Debug, Clone, PartialEq, Eq)]
pub struct BookConfig {
    /// The book's title.
    pub title: Option<String>,
    /// A description of the book.
    pub description: Option<String>,
    /// The book's authors.
    pub authors: Vec<String>,
}

/// The configuration of a build.
#[derive(Debug, Clone, PartialEq, Eq)]
pub struct Config {
    /// Metadata of the book.
    pub book: BookConfig,
}

pub struct PlaypenView {
    pub editor: Seq<char>,
    pub editable: bool,
}

pub struct HtmlConfigView {
    pub theme: Option<Seq<char>>,
    pub curly_quotes: bool,
    pub mathjax_support: bool,
    pub google_analytics: Option<Seq<char>>,
    pub additional_css: Seq<Seq<char>>,
    pub additional_js: Seq<Seq<char>>,
    pub playpen: PlaypenView,
    pub livereload_url: Option<Seq<char>>,
    pub no_section_label: bool,
}

pub struct BookConfigView {
    pub title: Option<Seq<char>>,
    pub description: Option<Seq<char>>,
    pub authors: Seq<Seq<char>>,
}

pub struct ConfigView {
    pub book: BookConfigView,
}

impl View for Playpen {
    type V = PlaypenView;

    open spec fn view(&self) -> PlaypenView {
        PlaypenView { editor: self.editor@, editable: self.editable }
    }
}

impl View for HtmlConfig {
    type V = HtmlConfigView;

    open spec fn view(&self) -> HtmlConfigView {
        HtmlConfigView {
            theme: text_view(self.theme),
            curly_quotes: self.curly_quotes,
            mathjax_support: self.mathjax_support,
            google_analytics: text_view(self.google_analytics),
            additional_css: texts_view(self.additional_css@),
            additional_js: texts_view(self.additional_js@),
            playpen: self.playpen@,
            livereload_url: text_view(self.livereload_url),
            no_section_label: self.no_section_label,
        }
    }
}

impl View for BookConfig {
    type V = BookConfigView;

    open spec fn view(&self) -> BookConfigView {
        BookConfigView {
            title: text_view(self.title),
            description: text_view(self.description),
            authors: texts_view(self.authors@),
        }
    }
}

impl View for Config {
    type V = ConfigView;

    open spec fn view(&self) -> ConfigView {
        ConfigView { book: self.book@ }
    }
}

/// The playpen settings of a book that says nothing about the playpen: the
/// editor "ace", snippets not editable.
pub open spec fn default_playpen() -> PlaypenView {
    PlaypenView { editor: "ace"@, editable: false }
}

/// The settings of a book that says nothing about the HTML renderer: every
/// flag off, nothing optional present, no additional assets, the default
/// playpen.
pub open spec fn default_html_config() -> HtmlConfigView {
    HtmlConfigView {
        theme: None,
        curly_quotes: false,
        mathjax_support: false,
        google_analytics: None,
        additional_css: Seq::empty(),
        additional_js: Seq::empty(),
        playpen: default_playpen(),
        livereload_url: None,
        no_section_label: false,
    }
}

impl Default for Playpen {
    fn default() -> (playpen: Playpen)
        ensures
            playpen@ == default_playpen(),
    {
        Playpen { editor: String::from_str("ace"), editable: false }
    }
}

impl Default for HtmlConfig {
    fn default() -> (config: HtmlConfig)
        ensures
            config@ == default_html_config(),
    {
        let config = HtmlConfig {
            theme: None,
            curly_quotes: false,
            mathjax_support: false,
            google_analytics: None,
            additional_css: Vec::new(),
            additional_js: Vec::new(),
            playpen: Playpen::default(),
            livereload_url: None,
            no_section_label: false,
        };
        assert(config@.additional_css =~= Seq::<Seq<char>>::empty());
        assert(config@.additional_js =~= Seq::<Seq<char>>::empty());
        config
    }
}

impl Default for BookConfig {
    fn default() -> (config: BookConfig)
        ensures
            config@.title.is_none(),
            config@.description.is_none(),
            config@.authors.len() == 0,
    {
        BookConfig { title: None, description: None, authors: Vec::new() }
    }
}

impl Default for Config {
    fn default() -> (config: Config)
        ensures
            config@.book.title.is_none(),
            config@.book.description.is_none(),
            config@.book.authors.len() == 0,
    {
        Config { book: BookConfig::default() }
    }
}

} // verus!
