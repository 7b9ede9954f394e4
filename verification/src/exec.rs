//! The operations of the program. Each one decides what is to be done and
//! hands it back as a value; printing, reading standard input and starting
//! the browser are left to the caller.

use crate::cli::{CommandConfig, CommandList, CommandOpen, CommandOpenView};
use crate::config::{
    config_path, config_path_under, find_provider, first_match, select_browser, selected,
    BrowserChoice, Config, ConfigView, DefaultConfigView, Provider, ProviderView,
};
use crate::escape::percent_encoded;
use crate::template::{fault, filled, render, renders, TemplateError};
use crate::text::{join, joined, pad, padded, str_eq, texts, trim, trimmed};
use vstd::prelude::*;
use vstd::string::StringExecFns;

verus! {

/// Why an operation ended without a result.
#[derive(Debug)]
pub enum ExecError {
    /// The configuration declares no provider.
    NoProviders,
    /// No provider answers to the name that was given.
    UnknownProvider(String),
    /// The shorthand form was used with no word or with too many.
    Usage,
    /// The URL template of the provider could not be filled in.
    Template(TemplateError),
    /// The user has no home directory to keep the configuration in.
    NoHomeDirectory,
}

/// How the program ends on an error.
#[derive(Debug, PartialEq, Eq, Clone, Copy)]
pub enum Ending {
    /// The message goes to standard error and the process exits with this
    /// code.
    Exit(i32),
    /// The program stops at once with the message: the configuration is not
    /// one that it can work with.
    Abort,
    /// The failure is handed on together with its cause.
    Propagate,
}

impl ExecError {
    /// How the program ends on this error: what the user typed wrong is
    /// answered with the message and exit code 1, a configuration without
    /// providers or without a place to live stops the program, and a URL
    /// template that cannot be filled in is handed on.
    pub fn ending(&self) -> (ending: Ending)
        ensures
            ending == match *self {
                ExecError::UnknownProvider(_) | ExecError::Usage => Ending::Exit(1),
                ExecError::NoProviders | ExecError::NoHomeDirectory => Ending::Abort,
                ExecError::Template(_) => Ending::Propagate,
            },
    {
        match self {
            ExecError::UnknownProvider(_) | ExecError::Usage => Ending::Exit(1),
            ExecError::NoProviders | ExecError::NoHomeDirectory => Ending::Abort,
            ExecError::Template(_) => Ending::Propagate,
        }
    }

    /// The text that tells the user what went wrong. For a failure of the
    /// template engine it is the engine's own text, of which nothing is
    /// promised.
    pub fn message(&self) -> (text: String)
        ensures
            match *self {
                ExecError::NoProviders => text@ == "Providers is not found."@,
                ExecError::UnknownProvider(name) => text@ == "The Provider does not exists: '"@
                    + name@ + "'"@,
                ExecError::Usage => text@ == "Usage: search [PROVIDER] WORD"@,
                ExecError::Template(_) => true,
                ExecError::NoHomeDirectory => text@ == "The home directory is not found."@,
            },
    {
        match self {
            ExecError::NoProviders => "Providers is not found.".to_owned(),
            ExecError::UnknownProvider(name) => {
                let mut text = "The Provider does not exists: '".to_owned();
                text.append(name.as_str());
                text.append("'");
                text
            },
            ExecError::Usage => "Usage: search [PROVIDER] WORD".to_owned(),
            ExecError::Template(error) => error.message(),
            ExecError::NoHomeDirectory => "The home directory is not found.".to_owned(),
        }
    }
}

/// An operation of the program, over the command that selects it and the
/// configuration.
pub trait Executable {
    /// The command that the operation carries out.
    type Command;

    /// What the caller is handed to act on.
    type Outcome;

    fn exec(&self, cmd: &Self::Command, config: &Config) -> Result<Self::Outcome, ExecError>;
}

/// A URL together with the way to open it.
#[derive(Debug, PartialEq, Eq, Clone)]
pub struct Launch {
    pub url: String,
    pub browser: BrowserChoice,
}

/// Where `open` stands after its first step.
#[derive(Debug, PartialEq, Eq, Clone)]
pub enum Opening {
    /// The word is to be read from standard input and handed to
    /// [`OpenExec::exec_with_input`].
    NeedsInput,
    /// Everything is decided.
    Launch(Launch),
}

/// The provider that `open` searches with.
pub enum Resolution {
    /// The provider at this position of the configuration.
    Provider(int),
    /// The configuration declares no provider.
    NoProviders,
    /// No provider answers to this name.
    UnknownProvider(Seq<char>),
}

/// Resolves the optional name of a provider: without a name the first
/// provider is taken, with a name the first one that answers to it.
pub open spec fn resolution(providers: Seq<ProviderView>, name: Option<Seq<char>>) -> Resolution {
    if providers.len() == 0 {
        Resolution::NoProviders
    } else {
        match name {
            Some(n) => match first_match(providers, n) {
                Some(i) => Resolution::Provider(i),
                None => Resolution::UnknownProvider(n),
            },
            None => Resolution::Provider(0),
        }
    }
}

/// The word that stands for "read the word from standard input".
pub open spec fn stdin_mark() -> Seq<char> {
    seq!['-']
}

/// The word that is searched for: the one of the command, or, where that is
/// the mark for standard input, what standard input held, without the
/// whitespace around it.
pub open spec fn search_word(word: Seq<char>, input: Seq<char>) -> Seq<char> {
    if word == stdin_mark() {
        trimmed(input)
    } else {
        word
    }
}

/// Whether `outcome` is what the search for `word` with `provider` comes to,
/// under a configuration whose root settings are `default`: a URL template at
/// fault is reported with the position of the fault, and any other is filled
/// in with the percent-encoded word and paired with the browser that the
/// settings select.
pub open spec fn launches(
    provider: ProviderView,
    default: Option<DefaultConfigView>,
    word: Seq<char>,
    outcome: Result<Launch, ExecError>,
) -> bool {
    match fault(provider.url) {
        Some(p) => outcome matches Err(ExecError::Template(TemplateError::Syntax(q))) && q == p,
        None => outcome matches Ok(launch) && launch.url@ == filled(
            provider.url,
            percent_encoded(word),
        ) && launch.browser@ == selected(provider.browser, default),
    }
}

/// Whether `outcome` is what `open` comes to under `config` for the word
/// `word`, with the provider named as in `provider`: a provider that cannot
/// be resolved is reported as such, and for the one that is, [`launches`]
/// says the rest.
pub open spec fn open_ends(
    config: ConfigView,
    provider: Option<Seq<char>>,
    word: Seq<char>,
    outcome: Result<Launch, ExecError>,
) -> bool {
    match resolution(config.providers, provider) {
        Resolution::Provider(i) => launches(config.providers[i], config.default, word, outcome),
        Resolution::NoProviders => outcome matches Err(ExecError::NoProviders),
        Resolution::UnknownProvider(n) => outcome matches Err(ExecError::UnknownProvider(m)) && m@
            == n,
    }
}

/// Whether `outcome` is what the first step of `open` comes to: once the
/// provider is resolved, a command that takes its word from standard input
/// asks for it, and any other command ends as [`open_ends`] says for its
/// word.
pub open spec fn open_begins(
    config: ConfigView,
    cmd: CommandOpenView,
    outcome: Result<Opening, ExecError>,
) -> bool {
    if resolution(config.providers, cmd.provider) is Provider && cmd.word == stdin_mark() {
        outcome matches Ok(Opening::NeedsInput)
    } else {
        match outcome {
            Ok(Opening::Launch(launch)) => open_ends(config, cmd.provider, cmd.word, Ok(launch)),
            Ok(Opening::NeedsInput) => false,
            Err(error) => open_ends(config, cmd.provider, cmd.word, Err(error)),
        }
    }
}

/// Opens the search for a word in a browser.
pub struct OpenExec;

impl OpenExec {
    /// The provider that `cmd` searches with.
    pub fn provider<'a>(cmd: &CommandOpen, config: &'a Config) -> (found: Result<
        &'a Provider,
        ExecError,
    >)
        ensures
            match resolution(config@.providers, cmd@.provider) {
                Resolution::Provider(i) => found matches Ok(p) && p == &config.providers@[i],
                Resolution::NoProviders => found matches Err(ExecError::NoProviders),
                Resolution::UnknownProvider(n) => found matches Err(ExecError::UnknownProvider(m))
                    && m@ == n,
            },
    {
        if config.providers.len() == 0 {
            return Err(ExecError::NoProviders);
        }
        match &cmd.provider {
            Some(name) => match find_provider(config.providers.as_slice(), name.as_str()) {
                Some(provider) => Ok(provider),
                None => Err(ExecError::UnknownProvider(name.clone())),
            },
            None => Ok(&config.providers[0]),
        }
    }

    /// Whether `cmd` takes its word from standard input.
    pub fn reads_stdin(cmd: &CommandOpen) -> (yes: bool)
        ensures
            yes == (cmd@.word == stdin_mark()),
    {
        proof {
            reveal_strlit("-");
            assert("-"@ =~= stdin_mark());
        }
        str_eq(cmd.word.as_str(), "-")
    }

    /// The word that `cmd` searches for when standard input holds `input`.
    pub fn word<'a>(cmd: &'a CommandOpen, input: &'a str) -> (word: &'a str)
        ensures
            word@ == search_word(cmd@.word, input@),
    {
        if Self::reads_stdin(cmd) {
            trim(input)
        } else {
            cmd.word.as_str()
        }
    }

    /// Fills `word` into the URL template `url`, percent-encoded; see
    /// [`render`].
    pub fn replace_url(url: &str, word: &str) -> (out: Result<String, TemplateError>)
        ensures
            renders(url@, word@, out),
    {
        render(url, word)
    }

    /// What `open` comes to for `provider`, once its URL template has been
    /// filled in with the result `rendered`: the URL with the browser that
    /// the settings select, or the failure.
    pub fn launch(
        provider: &Provider,
        config: &Config,
        rendered: Result<String, TemplateError>,
    ) -> (outcome: Result<Launch, ExecError>)
        ensures
            match rendered {
                Ok(url) => outcome matches Ok(launch) && launch.url == url && launch.browser@
                    == selected(provider@.browser, config@.default),
                Err(error) => outcome matches Err(ExecError::Template(e)) && e == error,
            },
    {
        match rendered {
            Ok(url) => Ok(Launch { url, browser: select_browser(&provider.browser, &config.default) }),
            Err(error) => Err(ExecError::Template(error)),
        }
    }

    /// Carries `cmd` out when standard input holds `input`, which is looked
    /// at only if the word of `cmd` asks for it.
    pub fn exec_with_input(&self, cmd: &CommandOpen, config: &Config, input: &str) -> (outcome:
        Result<Launch, ExecError>)
        ensures
            open_ends(config@, cmd@.provider, search_word(cmd@.word, input@), outcome),
    {
        let provider = Self::provider(cmd, config)?;
        let word = Self::word(cmd, input);
        let rendered = Self::replace_url(provider.url.as_str(), word);
        Self::launch(provider, config, rendered)
    }
}

impl Executable for OpenExec {
    type Command = CommandOpen;

    type Outcome = Opening;

    /// Resolves the provider first. Then, where the word is to come from
    /// standard input, says so; otherwise fills the word into the URL and
    /// selects the browser.
    fn exec(&self, cmd: &CommandOpen, config: &Config) -> (outcome: Result<Opening, ExecError>)
        ensures
            open_begins(config@, cmd@, outcome),
    {
        let provider = Self::provider(cmd, config)?;
        if Self::reads_stdin(cmd) {
            return Ok(Opening::NeedsInput);
        }
        let rendered = Self::replace_url(provider.url.as_str(), cmd.word.as_str());
        match Self::launch(provider, config, rendered) {
            Ok(launch) => Ok(Opening::Launch(launch)),
            Err(error) => Err(error),
        }
    }
}

/// The command that the shorthand form `[PROVIDER] WORD` stands for: one
/// word is searched with the first provider, two name the provider first;
/// anything else is no command.
pub open spec fn shorthand(args: Seq<Seq<char>>) -> Option<CommandOpenView> {
    if args.len() == 1 {
        Some(CommandOpenView { provider: None, word: args[0] })
    } else if args.len() == 2 {
        Some(CommandOpenView { provider: Some(args[0]), word: args[1] })
    } else {
        None
    }
}

/// The shorthand stands for a command exactly when it has one word or two.
pub proof fn law_shorthand_arity(args: Seq<Seq<char>>)
    ensures
        shorthand(args) is Some <==> args.len() == 1 || args.len() == 2,
{
}

/// Carries out what was typed in place of a subcommand, as shorthand for
/// `open`.
pub struct ExternalExec;

impl ExternalExec {
    /// The `open` command that `args` stands for.
    pub fn open_command(args: &Vec<String>) -> (cmd: Result<CommandOpen, ExecError>)
        ensures
            match shorthand(texts(args@)) {
                Some(open) => cmd matches Ok(c) && c@ == open,
                None => cmd matches Err(ExecError::Usage),
            },
    {
        if args.len() == 1 {
            Ok(CommandOpen { provider: None, word: args[0].clone() })
        } else if args.len() == 2 {
            Ok(CommandOpen { provider: Some(args[0].clone()), word: args[1].clone() })
        } else {
            Err(ExecError::Usage)
        }
    }

    /// Carries `args` out when standard input holds `input`; see
    /// [`OpenExec::exec_with_input`].
    pub fn exec_with_input(&self, args: &Vec<String>, config: &Config, input: &str) -> (outcome:
        Result<Launch, ExecError>)
        ensures
            match shorthand(texts(args@)) {
                Some(open) => open_ends(
                    config@,
                    open.provider,
                    search_word(open.word, input@),
                    outcome,
                ),
                None => outcome matches Err(ExecError::Usage),
            },
    {
        let cmd = Self::open_command(args)?;
        OpenExec.exec_with_input(&cmd, config, input)
    }
}

impl Executable for ExternalExec {
    type Command = Vec<String>;

    type Outcome = Opening;

    /// Reads `args` as `[PROVIDER] WORD` and carries the `open` command out
    /// that they stand for.
    fn exec(&self, args: &Vec<String>, config: &Config) -> (outcome: Result<Opening, ExecError>)
        ensures
            match shorthand(texts(args@)) {
                Some(open) => open_begins(config@, open, outcome),
                None => outcome matches Err(ExecError::Usage),
            },
    {
        let cmd = Self::open_command(args)?;
        OpenExec.exec(&cmd, config)
    }
}

/// The width to which `list` pads the names in its verbose form.
pub const NAME_WIDTH: usize = 20;

/// The aliases of a provider as `list` shows them: separated by a comma and
/// a space, and empty where the provider has none.
pub open spec fn aliases_shown(aliases: Option<Seq<Seq<char>>>) -> Seq<char> {
    match aliases {
        Some(list) => joined(list, ", "@),
        None => Seq::empty(),
    }
}

/// The line of `list` for one provider: its name, and in the verbose form the
/// name padded to [`NAME_WIDTH`] characters and followed by its aliases.
pub open spec fn line(provider: ProviderView, verbose: bool) -> Seq<char> {
    if verbose {
        padded(provider.name, NAME_WIDTH as nat) + " alias: ["@ + aliases_shown(provider.aliases)
            + "]\n"@
    } else {
        provider.name + "\n"@
    }
}

/// The output of `list`: one line for each provider, in the order of
/// declaration.
pub open spec fn listing(providers: Seq<ProviderView>, verbose: bool) -> Seq<char>
    decreases providers.len(),
{
    if providers.len() == 0 {
        Seq::empty()
    } else {
        listing(providers.drop_last(), verbose) + line(providers.last(), verbose)
    }
}

/// Lists the providers of the configuration.
pub struct ListExec;

impl ListExec {
    pub fn new() -> Self {
        ListExec
    }

    /// The line for one provider.
    pub fn line(provider: &Provider, verbose: bool) -> (out: String)
        ensures
            out@ == line(provider@, verbose),
    {
        if verbose {
            let mut out = pad(provider.name.as_str(), NAME_WIDTH);
            out.append(" alias: [");
            match &provider.aliases {
                Some(aliases) => {
                    let shown = join(aliases, ", ");
                    out.append(shown.as_str());
                },
                None => {
                    assert(out@ + aliases_shown(provider@.aliases) =~= out@);
                },
            }
            out.append("]\n");
            out
        } else {
            let mut out = provider.name.clone();
            out.append("\n");
            out
        }
    }
}

impl Default for ListExec {
    fn default() -> Self {
        Self::new()
    }
}

impl Executable for ListExec {
    type Command = CommandList;

    type Outcome = String;

    /// The text to print: the names of the providers, or in the verbose form
    /// the names with their aliases.
    fn exec(&self, cmd: &CommandList, config: &Config) -> (outcome: Result<String, ExecError>)
        ensures
            outcome matches Ok(text) && text@ == listing(config@.providers, cmd.verbose),
    {
        let ghost all = config@.providers;
        let mut text = String::new();
        let mut i: usize = 0;
        while i < config.providers.len()
            invariant
                i <= config.providers.len(),
                all == config@.providers,
                text@ == listing(all.take(i as int), cmd.verbose),
            decreases config.providers.len() - i,
        {
            let shown = Self::line(&config.providers[i], cmd.verbose);
            text.append(shown.as_str());
            proof {
                let next = all.take(i + 1);
                assert(next.drop_last() =~= all.take(i as int));
                assert(next.last() == config.providers@[i as int]@);
            }
            i += 1;
        }
        assert(all.take(config.providers.len() as int) =~= all);
        Ok(text)
    }
}

/// Shows where the configuration lives.
pub struct ConfigExec;

impl ConfigExec {
    pub fn new() -> Self {
        ConfigExec
    }

    /// The text to print for `cmd` when the configuration file is at `path`:
    /// the path if the command asks for it, else nothing.
    pub fn output(cmd: &CommandConfig, path: Option<String>) -> (outcome: Result<String, ExecError>)
        ensures
            match (cmd.path, path) {
                (false, _) => outcome matches Ok(text) && text@ == Seq::<char>::empty(),
                (true, Some(p)) => outcome == Ok::<String, ExecError>(p),
                (true, None) => outcome matches Err(ExecError::NoHomeDirectory),
            },
    {
        if !cmd.path {
            Ok(String::new())
        } else {
            match path {
                Some(p) => Ok(p),
                None => Err(ExecError::NoHomeDirectory),
            }
        }
    }
}

impl Default for ConfigExec {
    fn default() -> Self {
        Self::new()
    }
}

impl Executable for ConfigExec {
    type Command = CommandConfig;

    type Outcome = String;

    /// The text to print: the path of the configuration file of the current
    /// user if the command asks for it, else nothing.
    fn exec(&self, cmd: &CommandConfig, config: &Config) -> (outcome: Result<String, ExecError>)
        ensures
            !cmd.path ==> (outcome matches Ok(text) && text@ == Seq::<char>::empty()),
            cmd.path ==> match outcome {
                Ok(text) => exists|home: Seq<char>| text@ == config_path_under(home),
                Err(error) => error is NoHomeDirectory,
            },
    {
        if cmd.path {
            Self::output(cmd, config_path())
        } else {
            Self::output(cmd, None)
        }
    }
}

} // verus!
