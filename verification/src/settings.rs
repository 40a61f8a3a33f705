//! The renderer's settings as the book's configuration file gives them: a
//! list of keys and values, of which the renderer picks what it knows.

use vstd::prelude::*;
use crate::config::{
    HtmlConfig, HtmlConfigView, Playpen, PlaypenView, default_html_config, default_playpen,
};
use crate::error::ConfigError;
use crate::text::{text_view, texts_view};

verus! {

/// The value of a setting.
#[derive(Debug, PartialEq, Eq)]
pub enum Setting {
    /// `true` or `false`.
    Boolean(bool),
    /// A text.
    Text(String),
    /// A list of values.
    List(Vec<Setting>),
    /// Nested settings.
    Table(Vec<Entry>),
    /// A value of a kind that no setting of the renderer takes: a number, a
    /// date.
    Other,
}

/// A setting with its key.
#[derive(Debug, PartialEq, Eq)]
pub struct Entry {
    pub key: String,
    pub value: Setting,
}

/// What a value is, as plain mathematical data. Nested settings are pairs of
/// a key and what its value is.
pub enum SettingView {
    Boolean(bool),
    Text(Seq<char>),
    List(Seq<SettingView>),
    Table(Seq<(Seq<char>, SettingView)>),
    Other,
}

/// What a value is.
pub open spec fn setting_view(setting: Setting) -> SettingView
    decreases setting,
{
    match setting {
        Setting::Boolean(b) => SettingView::Boolean(b),
        Setting::Text(t) => SettingView::Text(t@),
        Setting::List(items) => SettingView::List(
            Seq::new(
                items@.len(),
                |i: int|
                    if 0 <= i < items@.len() {
                        setting_view(items@[i])
                    } else {
                        SettingView::Other
                    },
            ),
        ),
        Setting::Table(entries) => SettingView::Table(
            Seq::new(
                entries@.len(),
                |i: int|
                    if 0 <= i < entries@.len() {
                        (entries@[i].key@, setting_view(entries@[i].value))
                    } else {
                        (Seq::empty(), SettingView::Other)
                    },
            ),
        ),
        Setting::Other => SettingView::Other,
    }
}

impl View for Setting {
    type V = SettingView;

    open spec fn view(&self) -> SettingView {
        setting_view(*self)
    }
}

impl View for Entry {
    type V = (Seq<char>, SettingView);

    open spec fn view(&self) -> (Seq<char>, SettingView) {
        (self.key@, self.value@)
    }
}

/// What some values are, in order.
pub open spec fn settings_view(items: Seq<Setting>) -> Seq<SettingView> {
    items.map_values(|item: Setting| item@)
}

/// What some settings are, in order.
pub open spec fn entries_view(entries: Seq<Entry>) -> Seq<(Seq<char>, SettingView)> {
    entries.map_values(|entry: Entry| entry@)
}

/// What an optional value is.
pub open spec fn found_view(found: Option<&Setting>) -> Option<SettingView> {
    match found {
        Some(setting) => Some(setting@),
        None => None,
    }
}

/// The view of a list lists the views of its values, and the view of a table
/// those of its settings.
pub proof fn lemma_setting_view(setting: Setting)
    ensures
        setting matches Setting::List(items) ==> setting@ == SettingView::List(
            settings_view(items@),
        ),
        setting matches Setting::Table(entries) ==> setting@ == SettingView::Table(
            entries_view(entries@),
        ),
{
    match setting {
        Setting::List(items) => {
            assert(setting@->List_0 =~= settings_view(items@));
        },
        Setting::Table(entries) => {
            assert(setting@->Table_0 =~= entries_view(entries@));
        },
        _ => {},
    }
}

/// The value that the settings give to a key: that of the first setting with
/// the key.
pub open spec fn lookup(entries: Seq<(Seq<char>, SettingView)>, key: Seq<char>) -> Option<
    SettingView,
>
    decreases entries.len(),
{
    if entries.len() == 0 {
        None
    } else if entries[0].0 == key {
        Some(entries[0].1)
    } else {
        lookup(entries.drop_first(), key)
    }
}

/// What a setting gives to a field that takes a value of type `T`.
pub enum Given<T> {
    /// The setting is absent: the field keeps its default.
    Nothing,
    /// The setting is present and of the right kind.
    Value(T),
    /// The setting is present and of another kind.
    Mismatch,
}

/// A setting read as a flag.
pub open spec fn as_flag(setting: Option<SettingView>) -> Given<bool> {
    match setting {
        None => Given::Nothing,
        Some(SettingView::Boolean(b)) => Given::Value(b),
        Some(_) => Given::Mismatch,
    }
}

/// A setting read as a text.
pub open spec fn as_text(setting: Option<SettingView>) -> Given<Seq<char>> {
    match setting {
        None => Given::Nothing,
        Some(SettingView::Text(t)) => Given::Value(t),
        Some(_) => Given::Mismatch,
    }
}

/// Whether every value of a list is a text.
pub open spec fn all_texts(items: Seq<SettingView>) -> bool {
    forall|i: int| 0 <= i < items.len() ==> #[trigger] items[i] is Text
}

/// The texts of a list of text values, in order.
pub open spec fn texts_of(items: Seq<SettingView>) -> Seq<Seq<char>> {
    Seq::new(items.len(), |i: int| items[i]->Text_0)
}

/// A setting read as a list of texts.
pub open spec fn as_text_list(setting: Option<SettingView>) -> Given<Seq<Seq<char>>> {
    match setting {
        None => Given::Nothing,
        Some(SettingView::List(items)) => if all_texts(items) {
            Given::Value(texts_of(items))
        } else {
            Given::Mismatch
        },
        Some(_) => Given::Mismatch,
    }
}

/// A setting read as nested settings.
pub open spec fn as_table(setting: Option<SettingView>) -> Given<Seq<(Seq<char>, SettingView)>> {
    match setting {
        None => Given::Nothing,
        Some(SettingView::Table(entries)) => Given::Value(entries),
        Some(_) => Given::Mismatch,
    }
}

/// The value of a field: what the setting gives, or the default.
pub open spec fn or_default<T>(given: Given<T>, default: T) -> T {
    match given {
        Given::Value(v) => v,
        _ => default,
    }
}

/// The value of an optional field: what the setting gives, or nothing.
pub open spec fn or_absent<T>(given: Given<T>) -> Option<T> {
    match given {
        Given::Value(v) => Some(v),
        _ => None,
    }
}

/// The playpen settings that nested settings describe, or the key of the
/// first setting of the wrong kind, in the order editor, editable.
pub open spec fn playpen_of(entries: Seq<(Seq<char>, SettingView)>) -> Result<
    PlaypenView,
    Seq<char>,
> {
    let editor = as_text(lookup(entries, "editor"@));
    let editable = as_flag(lookup(entries, "editable"@));
    if editor is Mismatch {
        Err("playpen.editor"@)
    } else if editable is Mismatch {
        Err("playpen.editable"@)
    } else {
        Ok(
            PlaypenView {
                editor: or_default(editor, default_playpen().editor),
                editable: or_default(editable, default_playpen().editable),
            },
        )
    }
}

/// The playpen settings that the renderer's settings describe.
pub open spec fn playpen_setting(entries: Seq<(Seq<char>, SettingView)>) -> Result<
    PlaypenView,
    Seq<char>,
> {
    match as_table(lookup(entries, "playpen"@)) {
        Given::Nothing => Ok(default_playpen()),
        Given::Value(nested) => playpen_of(nested),
        Given::Mismatch => Err("playpen"@),
    }
}

/// The configuration that settings describe: each field has the value of the
/// setting with its key, or its default where the settings have no such key;
/// keys that the renderer does not know count for nothing. Where a known key
/// has a value of the wrong kind, the result is that key: the first such, in
/// the order theme, curly-quotes, mathjax-support, google-analytics,
/// additional-css, additional-js, playpen, livereload-url, no-section-label.
pub open spec fn html_config_of(entries: Seq<(Seq<char>, SettingView)>) -> Result<
    HtmlConfigView,
    Seq<char>,
> {
    let theme = as_text(lookup(entries, "theme"@));
    let curly_quotes = as_flag(lookup(entries, "curly-quotes"@));
    let mathjax_support = as_flag(lookup(entries, "mathjax-support"@));
    let google_analytics = as_text(lookup(entries, "google-analytics"@));
    let additional_css = as_text_list(lookup(entries, "additional-css"@));
    let additional_js = as_text_list(lookup(entries, "additional-js"@));
    let playpen = playpen_setting(entries);
    let livereload_url = as_text(lookup(entries, "livereload-url"@));
    let no_section_label = as_flag(lookup(entries, "no-section-label"@));
    if theme is Mismatch {
        Err("theme"@)
    } else if curly_quotes is Mismatch {
        Err("curly-quotes"@)
    } else if mathjax_support is Mismatch {
        Err("mathjax-support"@)
    } else if google_analytics is Mismatch {
        Err("google-analytics"@)
    } else if additional_css is Mismatch {
        Err("additional-css"@)
    } else if additional_js is Mismatch {
        Err("additional-js"@)
    } else if playpen is Err {
        Err(playpen->Err_0)
    } else if livereload_url is Mismatch {
        Err("livereload-url"@)
    } else if no_section_label is Mismatch {
        Err("no-section-label"@)
    } else {
        Ok(
            HtmlConfigView {
                theme: or_absent(theme),
                curly_quotes: or_default(curly_quotes, false),
                mathjax_support: or_default(mathjax_support, false),
                google_analytics: or_absent(google_analytics),
                additional_css: or_default(additional_css, Seq::empty()),
                additional_js: or_default(additional_js, Seq::empty()),
                playpen: playpen->Ok_0,
                livereload_url: or_absent(livereload_url),
                no_section_label: or_default(no_section_label, false),
            },
        )
    }
}

/// Looking a key up skips the entries that have another key.
proof fn lemma_lookup_skip(entries: Seq<(Seq<char>, SettingView)>, key: Seq<char>, n: int)
    requires
        0 <= n <= entries.len(),
        forall|j: int| 0 <= j < n ==> (#[trigger] entries[j]).0 != key,
    ensures
        lookup(entries, key) == lookup(entries.skip(n), key),
    decreases n,
{
    if n == 0 {
        assert(entries.skip(0) =~= entries);
    } else {
        lemma_lookup_skip(entries.drop_first(), key, n - 1);
        assert(entries.drop_first().skip(n - 1) =~= entries.skip(n));
    }
}

/// Finds the value that the settings give to a key.
pub fn find<'a>(entries: &'a Vec<Entry>, key: &str) -> (found: Option<&'a Setting>)
    ensures
        found_view(found) == lookup(entries_view(entries@), key@),
{
    let ghost views = entries_view(entries@);
    let wanted = String::from_str(key);
    let mut i: usize = 0;
    while i < entries.len()
        invariant
            i <= entries.len(),
            wanted@ == key@,
            views == entries_view(entries@),
            forall|j: int| 0 <= j < i ==> (#[trigger] views[j]).0 != key@,
        decreases entries.len() - i,
    {
        assert(views[i as int] == entries[i as int]@);
        if entries[i].key == wanted {
            proof {
                lemma_lookup_skip(views, key@, i as int);
                assert(views.skip(i as int)[0] == views[i as int]);
            }
            return Some(&entries[i].value);
        }
        i += 1;
    }
    proof {
        lemma_lookup_skip(views, key@, entries.len() as int);
    }
    None
}

fn mismatch<T>(key: &str) -> (outcome: Result<T, ConfigError>)
    ensures
        outcome matches Err(e) && e.key@ == key@,
{
    Err(ConfigError { key: String::from_str(key) })
}

fn flag_setting(entries: &Vec<Entry>, key: &str, default: bool) -> (outcome: Result<bool, ()>)
    ensures
        match outcome {
            Ok(flag) => !(as_flag(lookup(entries_view(entries@), key@)) is Mismatch) && flag == or_default(
                as_flag(lookup(entries_view(entries@), key@)),
                default,
            ),
            Err(_) => as_flag(lookup(entries_view(entries@), key@)) is Mismatch,
        },
{
    match find(entries, key) {
        None => Ok(default),
        Some(Setting::Boolean(b)) => Ok(*b),
        Some(_) => Err(()),
    }
}

fn text_setting(entries: &Vec<Entry>, key: &str) -> (outcome: Result<Option<String>, ()>)
    ensures
        match outcome {
            Ok(text) => !(as_text(lookup(entries_view(entries@), key@)) is Mismatch) && text_view(text)
                == or_absent(as_text(lookup(entries_view(entries@), key@))),
            Err(_) => as_text(lookup(entries_view(entries@), key@)) is Mismatch,
        },
{
    match find(entries, key) {
        None => Ok(None),
        Some(Setting::Text(t)) => Ok(Some(t.clone())),
        Some(_) => Err(()),
    }
}

fn text_list_setting(entries: &Vec<Entry>, key: &str) -> (outcome: Result<Vec<String>, ()>)
    ensures
        match outcome {
            Ok(texts) => !(as_text_list(lookup(entries_view(entries@), key@)) is Mismatch) && texts_view(texts@)
                == or_default(as_text_list(lookup(entries_view(entries@), key@)), Seq::empty()),
            Err(_) => as_text_list(lookup(entries_view(entries@), key@)) is Mismatch,
        },
{
    let mut texts: Vec<String> = Vec::new();
    match find(entries, key) {
        None => {
            assert(texts_view(texts@) =~= Seq::<Seq<char>>::empty());
            Ok(texts)
        },
        Some(Setting::List(items)) => {
            let ghost views = settings_view(items@);
            proof {
                lemma_setting_view(Setting::List(*items));
            }
            let mut i: usize = 0;
            while i < items.len()
                invariant
                    i <= items.len(),
                    texts.len() == i,
                    views == settings_view(items@),
                    lookup(entries_view(entries@), key@) == Some(SettingView::List(views)),
                    forall|j: int| 0 <= j < i ==> (#[trigger] views[j]) is Text,
                    forall|j: int| 0 <= j < i ==> (#[trigger] texts[j])@ == views[j]->Text_0,
                decreases items.len() - i,
            {
                assert(views[i as int] == items[i as int]@);
                match &items[i] {
                    Setting::Text(t) => {
                        texts.push(t.clone());
                    },
                    _ => {
                        assert(!(views[i as int] is Text));
                        return Err(());
                    },
                }
                i += 1;
            }
            assert(all_texts(views));
            assert(texts_view(texts@) =~= texts_of(views));
            Ok(texts)
        },
        Some(_) => Err(()),
    }
}

fn playpen_from(entries: &Vec<Entry>) -> (outcome: Result<Playpen, ConfigError>)
    ensures
        match outcome {
            Ok(playpen) => playpen_setting(entries_view(entries@)) == Ok::<PlaypenView, Seq<char>>(playpen@),
            Err(e) => playpen_setting(entries_view(entries@)) == Err::<PlaypenView, Seq<char>>(e.key@),
        },
{
    let defaults = Playpen::default();
    match find(entries, "playpen") {
        None => Ok(defaults),
        Some(Setting::Table(nested)) => {
            proof {
                lemma_setting_view(Setting::Table(*nested));
            }
            let editor = match text_setting(nested, "editor") {
                Ok(Some(text)) => text,
                Ok(None) => defaults.editor,
                Err(_) => {
                    return mismatch("playpen.editor");
                },
            };
            let editable = match flag_setting(nested, "editable", defaults.editable) {
                Ok(flag) => flag,
                Err(_) => {
                    return mismatch("playpen.editable");
                },
            };
            Ok(Playpen { editor, editable })
        },
        Some(_) => mismatch("playpen"),
    }
}

impl HtmlConfig {
    /// Reads the renderer's configuration from its settings.
    ///
    /// A setting that is absent leaves its field at the default, and a key
    /// that the renderer does not know is passed over. The only failure is a
    /// known key whose value is of the wrong kind.
    pub fn from_settings(entries: &Vec<Entry>) -> (outcome: Result<HtmlConfig, ConfigError>)
        ensures
            match outcome {
                Ok(config) => html_config_of(entries_view(entries@)) == Ok::<HtmlConfigView, Seq<char>>(config@),
                Err(e) => html_config_of(entries_view(entries@)) == Err::<HtmlConfigView, Seq<char>>(e.key@),
            },
    {
        let theme = match text_setting(entries, "theme") {
            Ok(text) => text,
            Err(_) => {
                return mismatch("theme");
            },
        };
        let curly_quotes = match flag_setting(entries, "curly-quotes", false) {
            Ok(flag) => flag,
            Err(_) => {
                return mismatch("curly-quotes");
            },
        };
        let mathjax_support = match flag_setting(entries, "mathjax-support", false) {
            Ok(flag) => flag,
            Err(_) => {
                return mismatch("mathjax-support");
            },
        };
        let google_analytics = match text_setting(entries, "google-analytics") {
            Ok(text) => text,
            Err(_) => {
                return mismatch("google-analytics");
            },
        };
        let additional_css = match text_list_setting(entries, "additional-css") {
            Ok(texts) => texts,
            Err(_) => {
                return mismatch("additional-css");
            },
        };
        let additional_js = match text_list_setting(entries, "additional-js") {
            Ok(texts) => texts,
            Err(_) => {
                return mismatch("additional-js");
            },
        };
        let playpen = match playpen_from(entries) {
            Ok(playpen) => playpen,
            Err(e) => {
                return Err(e);
            },
        };
        let livereload_url = match text_setting(entries, "livereload-url") {
            Ok(text) => text,
            Err(_) => {
                return mismatch("livereload-url");
            },
        };
        let no_section_label = match flag_setting(entries, "no-section-label", false) {
            Ok(flag) => flag,
            Err(_) => {
                return mismatch("no-section-label");
            },
        };
        Ok(
            HtmlConfig {
                theme,
                curly_quotes,
                mathjax_support,
                google_analytics,
                additional_css,
                additional_js,
                playpen,
                livereload_url,
                no_section_label,
            },
        )
    }
}

/// Settings that have none of the renderer's keys describe the default
/// configuration, whatever else they hold.
pub proof fn lemma_unknown_keys_give_default(entries: Seq<(Seq<char>, SettingView)>)
    requires
        lookup(entries, "theme"@).is_none(),
        lookup(entries, "curly-quotes"@).is_none(),
        lookup(entries, "mathjax-support"@).is_none(),
        lookup(entries, "google-analytics"@).is_none(),
        lookup(entries, "additional-css"@).is_none(),
        lookup(entries, "additional-js"@).is_none(),
        lookup(entries, "playpen"@).is_none(),
        lookup(entries, "livereload-url"@).is_none(),
        lookup(entries, "no-section-label"@).is_none(),
    ensures
        html_config_of(entries) == Ok::<HtmlConfigView, Seq<char>>(default_html_config()),
{
}

/// No settings at all describe the default configuration.
pub proof fn lemma_empty_settings_give_default()
    ensures
        html_config_of(Seq::empty()) == Ok::<HtmlConfigView, Seq<char>>(default_html_config()),
{
    lemma_unknown_keys_give_default(Seq::empty());
}

} // verus!
