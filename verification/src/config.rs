//! The configuration model: search providers, their browser settings, and the
//! lookup of a provider by name or alias.

use crate::text::{contains_text, str_eq, texts};
use vstd::prelude::*;
use vstd::string::StrSliceExecFns;
use vstd::string::StringExecFns;

verus! {

/// Which browser opens the URL of a provider.
#[derive(Debug, PartialEq, Eq, Hash, Clone)]
pub enum BrowserSetting {
    /// Hand the URL to the opener of the operating system.
    OsDefault,
    /// Defer to the browser named at the root of the configuration.
    ConfigDefault,
    /// Start this program.
    Path(String),
}

/// Settings at the root of the configuration that providers may defer to.
#[derive(Debug, PartialEq, Eq, Hash, Clone)]
pub struct DefaultConfig {
    /// The browser of providers that name none themselves.
    pub browser: Option<String>,
}

/// A named search engine: a URL template with optional aliases.
#[derive(Debug, PartialEq, Eq, Hash, Clone)]
pub struct Provider {
    /// The name of the provider.
    pub name: String,
    /// Alternate short names.
    pub aliases: Option<Vec<String>>,
    /// The URL template, holding the placeholder for the search word.
    pub url: String,
    /// The browser that opens the URL.
    pub browser: BrowserSetting,
}

/// The whole configuration, in the order in which it declares its providers.
#[derive(Debug, PartialEq, Eq, Hash, Clone)]
pub struct Config {
    pub version: String,
    pub providers: Vec<Provider>,
    pub default: Option<DefaultConfig>,
}

/// How a URL is opened, once the settings of the provider and of the
/// configuration have been weighed.
#[derive(Debug, PartialEq, Eq, Hash, Clone)]
pub enum BrowserChoice {
    /// With the opener of the operating system.
    OsDefault,
    /// With this program.
    Path(String),
}

/// Mathematical model of a [`BrowserChoice`].
pub enum BrowserChoiceView {
    OsDefault,
    Path(Seq<char>),
}

/// Mathematical model of a [`BrowserSetting`].
pub enum BrowserSettingView {
    OsDefault,
    ConfigDefault,
    Path(Seq<char>),
}

/// Mathematical model of a [`DefaultConfig`].
pub struct DefaultConfigView {
    pub browser: Option<Seq<char>>,
}

/// Mathematical model of a [`Provider`].
pub struct ProviderView {
    pub name: Seq<char>,
    pub aliases: Option<Seq<Seq<char>>>,
    pub url: Seq<char>,
    pub browser: BrowserSettingView,
}

/// Mathematical model of a [`Config`].
pub struct ConfigView {
    pub version: Seq<char>,
    pub providers: Seq<ProviderView>,
    pub default: Option<DefaultConfigView>,
}

/// The models of a list of providers, in order.
pub open spec fn provider_views(list: Seq<Provider>) -> Seq<ProviderView> {
    list.map_values(|p: Provider| p@)
}

impl View for BrowserSetting {
    type V = BrowserSettingView;

    open spec fn view(&self) -> BrowserSettingView {
        match *self {
            BrowserSetting::OsDefault => BrowserSettingView::OsDefault,
            BrowserSetting::ConfigDefault => BrowserSettingView::ConfigDefault,
            BrowserSetting::Path(p) => BrowserSettingView::Path(p@),
        }
    }
}

impl View for BrowserChoice {
    type V = BrowserChoiceView;

    open spec fn view(&self) -> BrowserChoiceView {
        match *self {
            BrowserChoice::OsDefault => BrowserChoiceView::OsDefault,
            BrowserChoice::Path(p) => BrowserChoiceView::Path(p@),
        }
    }
}

impl View for DefaultConfig {
    type V = DefaultConfigView;

    open spec fn view(&self) -> DefaultConfigView {
        DefaultConfigView {
            browser: match self.browser {
                Some(b) => Some(b@),
                None => None,
            },
        }
    }
}

impl View for Provider {
    type V = ProviderView;

    open spec fn view(&self) -> ProviderView {
        ProviderView {
            name: self.name@,
            aliases: match self.aliases {
                Some(a) => Some(texts(a@)),
                None => None,
            },
            url: self.url@,
            browser: self.browser@,
        }
    }
}

impl View for Config {
    type V = ConfigView;

    open spec fn view(&self) -> ConfigView {
        ConfigView {
            version: self.version@,
            providers: provider_views(self.providers@),
            default: default_view(self.default),
        }
    }
}

/// A provider answers to its own name and to each of its aliases.
pub open spec fn answers_to(p: ProviderView, name: Seq<char>) -> bool {
    p.name == name || match p.aliases {
        Some(a) => a.contains(name),
        None => false,
    }
}

/// `i` is the position of the first provider of `list` that answers to `name`.
pub open spec fn is_first_match(list: Seq<ProviderView>, name: Seq<char>, i: int) -> bool {
    &&& 0 <= i < list.len()
    &&& answers_to(list[i], name)
    &&& forall|j: int| 0 <= j < i ==> !answers_to(#[trigger] list[j], name)
}

/// The position of the first provider of `list` that answers to `name`, if
/// there is one.
pub open spec fn first_match(list: Seq<ProviderView>, name: Seq<char>) -> Option<int> {
    if exists|i: int| is_first_match(list, name, i) {
        Some(choose|i: int| is_first_match(list, name, i))
    } else {
        None
    }
}

/// A first match is the only one.
pub proof fn lemma_first_match_is(list: Seq<ProviderView>, name: Seq<char>, i: int)
    requires
        is_first_match(list, name, i),
    ensures
        first_match(list, name) == Some(i),
{
    let c = choose|c: int| is_first_match(list, name, c);
    assert(is_first_match(list, name, c));
    if c < i {
        assert(!answers_to(list[c], name));
    } else if i < c {
        assert(!answers_to(list[i], name));
    }
}

/// Where no provider answers, there is no first match.
pub proof fn lemma_first_match_none(list: Seq<ProviderView>, name: Seq<char>)
    requires
        forall|j: int| 0 <= j < list.len() ==> !answers_to(#[trigger] list[j], name),
    ensures
        first_match(list, name) is None,
{
    assert forall|i: int| !is_first_match(list, name, i) by {
        if 0 <= i < list.len() {
            assert(!answers_to(list[i], name));
        }
    }
}

/// No name or alias is shared by two providers of `list`.
pub open spec fn unambiguous(list: Seq<ProviderView>) -> bool {
    forall|i: int, j: int, name: Seq<char>|
        0 <= i < list.len() && 0 <= j < list.len() && #[trigger] answers_to(list[i], name)
            && #[trigger] answers_to(list[j], name) ==> i == j
}

/// Among providers that share no name or alias, each one is found by its
/// name and by each of its aliases.
pub proof fn law_find_unambiguous(list: Seq<ProviderView>, i: int, name: Seq<char>)
    requires
        unambiguous(list),
        0 <= i < list.len(),
        answers_to(list[i], name),
    ensures
        first_match(list, name) == Some(i),
{
    assert forall|j: int| 0 <= j < i implies !answers_to(#[trigger] list[j], name) by {
        if answers_to(list[j], name) {
            assert(i == j);
        }
    }
    lemma_first_match_is(list, name, i);
}

/// Nothing is found among no providers.
pub proof fn law_find_in_none(name: Seq<char>)
    ensures
        first_match(Seq::<ProviderView>::empty(), name) is None,
{
    lemma_first_match_none(Seq::<ProviderView>::empty(), name);
}

/// A provider is found by its own name if no provider declared before it
/// answers to that name; in particular if the name identifies it uniquely.
pub proof fn law_find_by_name(list: Seq<ProviderView>, i: int)
    requires
        0 <= i < list.len(),
        forall|j: int| 0 <= j < i ==> !answers_to(#[trigger] list[j], list[i].name),
    ensures
        first_match(list, list[i].name) == Some(i),
{
    lemma_first_match_is(list, list[i].name, i);
}

/// A provider is found by each of its aliases if no provider declared before
/// it answers to that alias.
pub proof fn law_find_by_alias(list: Seq<ProviderView>, i: int, alias: Seq<char>)
    requires
        0 <= i < list.len(),
        list[i].aliases matches Some(aliases) && aliases.contains(alias),
        forall|j: int| 0 <= j < i ==> !answers_to(#[trigger] list[j], alias),
    ensures
        first_match(list, alias) == Some(i),
{
    lemma_first_match_is(list, alias, i);
}

impl Provider {
    /// Whether this provider is addressed by `name`.
    pub fn answers_to(&self, name: &str) -> (yes: bool)
        ensures
            yes == answers_to(self@, name@),
    {
        if str_eq(self.name.as_str(), name) {
            return true;
        }
        match &self.aliases {
            Some(aliases) => contains_text(aliases, name),
            None => false,
        }
    }
}

/// Looks `name` up among `providers`, in the order of declaration: the result
/// is the first provider that has it as its name or among its aliases.
pub fn find_provider<'a>(providers: &'a [Provider], name: &str) -> (found: Option<&'a Provider>)
    ensures
        match first_match(provider_views(providers@), name@) {
            Some(i) => found == Some(&providers@[i]),
            None => found is None,
        },
        providers@.len() == 0 ==> found is None,
{
    let ghost list = provider_views(providers@);
    let mut i: usize = 0;
    while i < providers.len()
        invariant
            i <= providers.len(),
            list == provider_views(providers@),
            forall|j: int| 0 <= j < i ==> !answers_to(#[trigger] list[j], name@),
        decreases providers.len() - i,
    {
        let provider = &providers[i];
        if provider.answers_to(name) {
            proof {
                lemma_first_match_is(list, name@, i as int);
            }
            return Some(provider);
        }
        i += 1;
    }
    proof {
        lemma_first_match_none(list, name@);
    }
    None
}

/// The browser that the root of the configuration names, if it names one.
pub open spec fn default_browser(default: Option<DefaultConfigView>) -> Option<Seq<char>> {
    match default {
        Some(d) => d.browser,
        None => None,
    }
}

/// The choice that the layered settings come to: an explicit path is used as
/// it is, the operating system's opener where the provider asks for it, and
/// where the provider defers to the configuration, the browser named there,
/// or the operating system's opener if none is.
pub open spec fn selected(
    setting: BrowserSettingView,
    default: Option<DefaultConfigView>,
) -> BrowserChoiceView {
    match setting {
        BrowserSettingView::Path(path) => BrowserChoiceView::Path(path),
        BrowserSettingView::OsDefault => BrowserChoiceView::OsDefault,
        BrowserSettingView::ConfigDefault => match default_browser(default) {
            Some(path) => BrowserChoiceView::Path(path),
            None => BrowserChoiceView::OsDefault,
        },
    }
}

/// Without an explicit browser on the provider and without one at the root of
/// the configuration, the URL goes to the opener of the operating system.
pub proof fn law_no_browser_named(setting: BrowserSettingView, default: Option<DefaultConfigView>)
    requires
        !(setting is Path),
        default_browser(default) is None,
    ensures
        selected(setting, default) == BrowserChoiceView::OsDefault,
{
}

/// A provider that defers to the configuration gets the browser named at its
/// root.
pub proof fn law_config_default_used(default: Option<DefaultConfigView>, path: Seq<char>)
    requires
        default_browser(default) == Some(path),
    ensures
        selected(BrowserSettingView::ConfigDefault, default) == BrowserChoiceView::Path(path),
{
}

/// The model of the optional settings at the root of a configuration.
pub open spec fn default_view(default: Option<DefaultConfig>) -> Option<DefaultConfigView> {
    match default {
        Some(d) => Some(d@),
        None => None,
    }
}

/// Decides how the URL of a provider with browser setting `setting` is
/// opened, under a configuration whose root settings are `default`.
pub fn select_browser(setting: &BrowserSetting, default: &Option<DefaultConfig>) -> (choice:
    BrowserChoice)
    ensures
        choice@ == selected(setting@, default_view(*default)),
{
    match setting {
        BrowserSetting::Path(path) => BrowserChoice::Path(path.clone()),
        BrowserSetting::OsDefault => BrowserChoice::OsDefault,
        BrowserSetting::ConfigDefault => match default {
            Some(DefaultConfig { browser: Some(path) }) => BrowserChoice::Path(path.clone()),
            _ => BrowserChoice::OsDefault,
        },
    }
}

impl Default for BrowserSetting {
    /// A provider that says nothing of its browser defers to the
    /// configuration.
    fn default() -> (setting: Self)
        ensures
            setting == BrowserSetting::ConfigDefault,
    {
        BrowserSetting::ConfigDefault
    }
}

impl Default for Provider {
    /// A provider without a name, aliases or URL, that defers to the
    /// configuration for its browser.
    fn default() -> (provider: Self)
        ensures
            provider@ == (ProviderView {
                name: Seq::empty(),
                aliases: None,
                url: Seq::empty(),
                browser: BrowserSettingView::ConfigDefault,
            }),
    {
        Provider {
            name: String::new(),
            aliases: None,
            url: String::new(),
            browser: BrowserSetting::ConfigDefault,
        }
    }
}

/// A built-in provider: it defers to the configuration for its browser, and
/// has at most one alias.
pub open spec fn builtin(name: Seq<char>, alias: Option<Seq<char>>, url: Seq<char>) -> ProviderView {
    ProviderView {
        name,
        aliases: match alias {
            Some(a) => Some(seq![a]),
            None => None,
        },
        url,
        browser: BrowserSettingView::ConfigDefault,
    }
}

/// The configuration that a user starts with: google (alias `g`), bing and
/// duckduckgo (alias `d`), and no browser named at the root.
pub open spec fn default_config() -> ConfigView {
    ConfigView {
        version: "v1.0"@,
        providers: seq![
            builtin("google"@, Some("g"@), "https://google.com/search?q={{ word | urlencode }}"@),
            builtin("bing"@, None, "https://www.bing.com/search?q={{ word | urlencode }}"@),
            builtin("duckduckgo"@, Some("d"@), "https://duckduckgo.com/?q={{ word | urlencode }}"@),
        ],
        default: None,
    }
}

/// The built-in providers share no name or alias.
pub proof fn lemma_default_config_unambiguous()
    ensures
        unambiguous(default_config().providers),
{
    reveal_strlit("google");
    reveal_strlit("g");
    reveal_strlit("bing");
    reveal_strlit("duckduckgo");
    reveal_strlit("d");
    let list = default_config().providers;
    assert("g"@[0] == 'g' && "d"@[0] == 'd');
    assert("google"@.len() == 6 && "g"@.len() == 1 && "bing"@.len() == 4);
    assert("duckduckgo"@.len() == 10 && "d"@.len() == 1);
    // Each built-in answers to its name and its one alias, and to nothing else.
    assert forall|name: Seq<char>| answers_to(list[0], name) implies name == "google"@ || name
        == "g"@ by {
        assert(list[0].aliases == Some(seq!["g"@]));
    }
    assert forall|name: Seq<char>| answers_to(list[1], name) implies name == "bing"@ by {
        assert(list[1].aliases is None);
    }
    assert forall|name: Seq<char>| answers_to(list[2], name) implies name == "duckduckgo"@ || name
        == "d"@ by {
        assert(list[2].aliases == Some(seq!["d"@]));
    }
    assert forall|i: int, j: int, name: Seq<char>|
        0 <= i < list.len() && 0 <= j < list.len() && #[trigger] answers_to(list[i], name)
            && #[trigger] answers_to(list[j], name) implies i == j by {
        if i != j {
            assert(answers_to(list[0], name) || answers_to(list[1], name));
            assert(answers_to(list[1], name) || answers_to(list[2], name));
        }
    }
}

/// Makes a built-in provider.
fn make_builtin(name: &str, alias: Option<&str>, url: &str) -> (provider: Provider)
    ensures
        provider@ == builtin(
            name@,
            match alias {
                Some(a) => Some(a@),
                None => None,
            },
            url@,
        ),
{
    let aliases = match alias {
        Some(a) => {
            let list = vec![a.to_owned()];
            assert(texts(list@) =~= seq![a@]);
            Some(list)
        },
        None => None,
    };
    Provider { name: name.to_owned(), aliases, url: url.to_owned(), browser: BrowserSetting::ConfigDefault }
}

/// The configuration that is written out where the user has none yet.
pub fn default_config_file() -> (config: Config)
    ensures
        config@ == default_config(),
{
    let providers = vec![
        make_builtin("google", Some("g"), "https://google.com/search?q={{ word | urlencode }}"),
        make_builtin("bing", None, "https://www.bing.com/search?q={{ word | urlencode }}"),
        make_builtin("duckduckgo", Some("d"), "https://duckduckgo.com/?q={{ word | urlencode }}"),
    ];
    assert(provider_views(providers@) =~= default_config().providers);
    Config { version: "v1.0".to_owned(), providers, default: None }
}

/// The name of the configuration file.
pub const CONFIG_FILE: &'static str = "config.yaml";

/// The path of the entry `name` of the directory `dir`: the two with one `/`
/// between them, which an empty `dir` or one that ends in `/` does not need.
pub open spec fn path_below(dir: Seq<char>, name: Seq<char>) -> Seq<char> {
    if dir.len() == 0 || dir.last() == '/' {
        dir + name
    } else {
        dir + seq!['/'] + name
    }
}

/// The directory of the configuration of a user whose home directory is
/// `home`: `.config/search` below it.
pub open spec fn config_dir_under(home: Seq<char>) -> Seq<char> {
    path_below(path_below(home, ".config"@), "search"@)
}

/// The configuration file of a user whose home directory is `home`.
pub open spec fn config_path_under(home: Seq<char>) -> Seq<char> {
    path_below(config_dir_under(home), CONFIG_FILE@)
}

/// The path of the entry `name` of the directory `dir`.
pub fn join_path(dir: &str, name: &str) -> (path: String)
    ensures
        path@ == path_below(dir@, name@),
{
    let n = dir.unicode_len();
    let mut path = dir.to_owned();
    if n > 0 && dir.get_char(n - 1) != '/' {
        proof {
            reveal_strlit("/");
            assert("/"@ =~= seq!['/']);
        }
        path.append("/");
    }
    path.append(name);
    path
}

/// The directory of the configuration below the home directory `home`.
pub fn config_dir_in(home: &str) -> (dir: String)
    ensures
        dir@ == config_dir_under(home@),
{
    let base = join_path(home, ".config");
    join_path(base.as_str(), "search")
}

/// The configuration file below the home directory `home`.
pub fn config_path_in(home: &str) -> (path: String)
    ensures
        path@ == config_path_under(home@),
{
    let dir = config_dir_in(home);
    join_path(dir.as_str(), CONFIG_FILE)
}

/// `dirs::home_dir`: the home directory of the user, read from the
/// environment of the process, as text. Nothing is claimed of it: there may
/// be none, and one that is no Unicode text counts as none.
#[verifier::external_body]
fn home_dir() -> Option<String> {
    match dirs::home_dir() {
        Some(path) => path.into_os_string().into_string().ok(),
        None => None,
    }
}

/// The directory of the configuration of a user whose home directory is
/// `home`; a user without a home directory has none.
pub fn config_dir_for(home: &Option<String>) -> (dir: Option<String>)
    ensures
        match *home {
            Some(h) => dir matches Some(d) && d@ == config_dir_under(h@),
            None => dir is None,
        },
{
    match home {
        Some(h) => Some(config_dir_in(h.as_str())),
        None => None,
    }
}

/// The configuration file of a user whose home directory is `home`; a user
/// without a home directory has none.
pub fn config_path_for(home: &Option<String>) -> (path: Option<String>)
    ensures
        match *home {
            Some(h) => path matches Some(p) && p@ == config_path_under(h@),
            None => path is None,
        },
{
    match home {
        Some(h) => Some(config_path_in(h.as_str())),
        None => None,
    }
}

/// The directory of the configuration of the current user, if the user has a
/// home directory. Which home that is, the environment decides; the rest is
/// [`config_dir_for`].
pub fn config_dir() -> (dir: Option<String>)
    ensures
        dir matches Some(d) ==> exists|home: Seq<char>| d@ == config_dir_under(home),
{
    let home = home_dir();
    config_dir_for(&home)
}

/// The configuration file of the current user, if the user has a home
/// directory. Which home that is, the environment decides; the rest is
/// [`config_path_for`].
pub fn config_path() -> (path: Option<String>)
    ensures
        path matches Some(p) ==> exists|home: Seq<char>| p@ == config_path_under(home),
{
    let home = home_dir();
    config_path_for(&home)
}

} // verus!
