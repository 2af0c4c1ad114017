//! The command line: its options and their defaults.
use clap::builder::{NonEmptyStringValueParser, ValueParserFactory};
use clap::{Arg, ArgAction, Command};
use std::str::FromStr;
use vstd::prelude::*;
use vstd::string::*;

verus! {

use crate::reply::text_view;
use crate::text::{all_digits, decimal, decimal_reads_back, digits_value, is_digit};

/// The number that `text` denotes where it is decimal digits behind an optional plus sign.
pub open spec fn number_in(text: Seq<char>) -> Option<nat> {
    let digits = if text.len() > 0 && text[0] == '+' {
        text.skip(1)
    } else {
        text
    };
    if digits.len() > 0 && all_digits(digits) {
        Some(digits_value(digits))
    } else {
        None
    }
}

/// The TCP port that `text` denotes, if it does.
pub open spec fn port_in(text: Seq<char>) -> Option<u16> {
    match number_in(text) {
        Some(n) if n <= u16::MAX => Some(n as u16),
        _ => None,
    }
}

/// The count that `text` denotes, if it does.
pub open spec fn count_in(text: Seq<char>) -> Option<u64> {
    match number_in(text) {
        Some(n) if n <= u64::MAX => Some(n as u64),
        _ => None,
    }
}

/// An option of the command line, as it is declared and explained. `id` stands for its value.
pub struct OptionText {
    pub id: &'static str,
    pub long: &'static str,
    pub help: &'static str,
}

/// What was given on the command line, before defaults.
pub struct Given {
    pub port: Option<u16>,
    pub bind: Option<String>,
    pub cpu: bool,
    pub config: Option<String>,
    pub max_queued: Option<u64>,
}

/// The contents of a [`Given`].
#[verifier::ext_equal]
pub struct GivenView {
    pub port: Option<u16>,
    pub bind: Option<Seq<char>>,
    pub cpu: bool,
    pub config: Option<Seq<char>>,
    pub max_queued: Option<u64>,
}

impl View for Given {
    type V = GivenView;

    open spec fn view(&self) -> GivenView {
        GivenView {
            port: self.port,
            bind: text_view(self.bind),
            cpu: self.cpu,
            config: text_view(self.config),
            max_queued: self.max_queued,
        }
    }
}

/// One setting on a command line, with the text of its value.
pub enum Setting {
    Port(Seq<char>),
    Bind(Seq<char>),
    Cpu,
    Config(Seq<char>),
    MaxQueued(Seq<char>),
}

/// The place of a setting's option in the list of options.
pub open spec fn option_of(setting: Setting) -> int {
    match setting {
        Setting::Port(_) => 0,
        Setting::Bind(_) => 1,
        Setting::Cpu => 2,
        Setting::Config(_) => 3,
        Setting::MaxQueued(_) => 4,
    }
}

/// The text of a setting's value. A switch has none.
pub open spec fn text_of(setting: Setting) -> Option<Seq<char>> {
    match setting {
        Setting::Port(text) => Some(text),
        Setting::Bind(text) => Some(text),
        Setting::Cpu => None,
        Setting::Config(text) => Some(text),
        Setting::MaxQueued(text) => Some(text),
    }
}

/// Whether the text of a setting's value is allowed: a port, a count, a path that is not empty,
/// or any text.
pub open spec fn is_allowed(setting: Setting) -> bool {
    match setting {
        Setting::Port(text) => port_in(text) is Some,
        Setting::Config(text) => text.len() > 0,
        Setting::MaxQueued(text) => count_in(text) is Some,
        _ => true,
    }
}

/// A setting as words: `--name value`, or `--name` alone.
pub open spec fn setting_words(names: Seq<Seq<char>>, setting: Setting) -> Seq<Seq<char>> {
    let name = "--"@ + names[option_of(setting)];
    match text_of(setting) {
        Some(text) => seq![name, text],
        None => seq![name],
    }
}

/// The words of settings in their order, behind the word that calls the program.
pub open spec fn command_words(
    names: Seq<Seq<char>>,
    program: Seq<char>,
    settings: Seq<Setting>,
) -> Seq<Seq<char>>
    decreases settings.len(),
{
    if settings.len() == 0 {
        seq![program]
    } else {
        command_words(names, program, settings.drop_last()) + setting_words(names, settings.last())
    }
}

/// Whether the settings can be told apart: no option is set twice, and no value looks like an
/// option.
pub open spec fn are_separate(settings: Seq<Setting>) -> bool {
    &&& forall|k: int|
        0 <= k < settings.len() ==> (text_of(#[trigger] settings[k]) matches Some(text)
            ==> text.len() == 0 || text[0] != '-')
    &&& forall|j: int, k: int|
        0 <= j < k < settings.len() ==> option_of(#[trigger] settings[j]) != option_of(
            #[trigger] settings[k],
        )
}

/// Whether the value of every setting is allowed.
pub open spec fn are_allowed(settings: Seq<Setting>) -> bool {
    forall|k: int| 0 <= k < settings.len() ==> is_allowed(#[trigger] settings[k])
}

/// The setting of the option at place `i`, if there is one.
pub open spec fn setting_of(settings: Seq<Setting>, i: int) -> Option<Setting>
    decreases settings.len(),
{
    if settings.len() == 0 {
        None
    } else if option_of(settings.last()) == i {
        Some(settings.last())
    } else {
        setting_of(settings.drop_last(), i)
    }
}

/// The text that the settings give to the option at place `i`.
pub open spec fn text_set(settings: Seq<Setting>, i: int) -> Option<Seq<char>> {
    match setting_of(settings, i) {
        Some(setting) => text_of(setting),
        None => None,
    }
}

/// What settings say.
pub open spec fn given_in(settings: Seq<Setting>) -> GivenView {
    GivenView {
        port: match text_set(settings, 0) {
            Some(text) => port_in(text),
            None => None,
        },
        bind: text_set(settings, 1),
        cpu: setting_of(settings, 2) is Some,
        config: text_set(settings, 3),
        max_queued: match text_set(settings, 4) {
            Some(text) => count_in(text),
            None => None,
        },
    }
}

/// Whether `name` can name an option beside `--help` and `--version`.
pub open spec fn is_option_name(name: Seq<char>) -> bool {
    &&& name.len() > 0
    &&& name[0] != '-'
    &&& !name.contains('=')
    &&& name != "help"@
    &&& name != "version"@
}

/// Whether options can stand beside each other under these names or identifiers.
pub open spec fn are_distinct(names: Seq<Seq<char>>) -> bool {
    &&& forall|i: int| 0 <= i < names.len() ==> is_option_name(#[trigger] names[i])
    &&& forall|i: int, j: int|
        0 <= i < j < names.len() ==> #[trigger] names[i] != #[trigger] names[j]
}

/// The names of five options.
pub open spec fn names_of(
    port: OptionText,
    bind: OptionText,
    cpu: OptionText,
    config: OptionText,
    max_queued: OptionText,
) -> Seq<Seq<char>> {
    seq![port.long@, bind.long@, cpu.long@, config.long@, max_queued.long@]
}

/// The identifiers of five options.
pub open spec fn ids_of(
    port: OptionText,
    bind: OptionText,
    cpu: OptionText,
    config: OptionText,
    max_queued: OptionText,
) -> Seq<Seq<char>> {
    seq![port.id@, bind.id@, cpu.id@, config.id@, max_queued.id@]
}

/// What `clap` makes of a command line, where `names` are the names of a port, a text, a switch, a
/// path and a count: what was given, or whether what is to be shown instead is an error.
pub uninterp spec fn command_line(names: Seq<Seq<char>>, words: Seq<Seq<char>>) -> Result<
    GivenView,
    bool,
>;

/// The contents of words.
pub open spec fn words(list: Seq<String>) -> Seq<Seq<char>> {
    list.map_values(|word: String| word@)
}

/// What was read off a command line.
pub type Matched = (Option<u16>, Option<String>, bool, Option<String>, Option<u64>);

/// What was made of a command line, without the text that is to be shown instead.
pub open spec fn outcome(r: Result<Matched, (String, bool)>) -> Result<GivenView, bool> {
    match r {
        Ok((port, bind, cpu, config, max_queued)) => Ok(
            GivenView { port, bind: text_view(bind), cpu, config: text_view(config), max_queued },
        ),
        Err((_, is_error)) => Err(is_error),
    }
}

/// Whether settings, in whatever order they are written, are read as they are, or refused as an
/// error where the value of one is not allowed.
pub open spec fn reads_settings(
    names: Seq<Seq<char>>,
    words: Seq<Seq<char>>,
    r: Result<GivenView, bool>,
) -> bool {
    forall|program: Seq<char>, settings: Seq<Setting>|
        words == #[trigger] command_words(names, program, settings) && are_separate(settings)
            ==> r == (if are_allowed(settings) {
            Ok::<GivenView, bool>(given_in(settings))
        } else {
            Err::<GivenView, bool>(true)
        })
}

/// `clap::Command::try_get_matches_from`, on a command with five options, `--help` and `--version`
/// aside. The port goes through `clap`'s parser of `u16`, the path through its parser of texts
/// that are not empty, and the count through `u64`'s `from_str`. Settings that can be told apart
/// are read as they are written; one whose value its parser refuses makes the line an error: a
/// port and a count are decimal digits behind an optional plus sign, within the range of `u16` and
/// of `u64`. What is to be shown instead is the help, the version, or an error. Nothing is said of
/// its text, which holds the file name of the program's path, nor of other command lines.
#[verifier::external_body]
fn match_words(
    program: &'static str,
    about: &'static str,
    version: &'static str,
    port: &OptionText,
    bind: &OptionText,
    cpu: &OptionText,
    config: &OptionText,
    max_queued: &OptionText,
    arguments: Vec<String>,
) -> (r: Result<Matched, (String, bool)>)
    requires
        are_distinct(names_of(*port, *bind, *cpu, *config, *max_queued)),
        are_distinct(ids_of(*port, *bind, *cpu, *config, *max_queued)),
    ensures
        outcome(r) == command_line(
            names_of(*port, *bind, *cpu, *config, *max_queued),
            words(arguments@),
        ),
        reads_settings(
            names_of(*port, *bind, *cpu, *config, *max_queued),
            words(arguments@),
            outcome(r),
        ),
{
    let arg = |o: &OptionText| Arg::new(o.id).long(o.long).help(o.help);
    let mut found = Command::new(program).about(about).version(version)
        .arg(arg(port).value_parser(u16::value_parser()))
        .arg(arg(bind))
        .arg(arg(cpu).action(ArgAction::SetTrue))
        .arg(arg(config).value_parser(NonEmptyStringValueParser::new()))
        .arg(arg(max_queued).value_parser(u64::from_str))
        .try_get_matches_from(arguments)
        .map_err(|error| (error.to_string(), error.use_stderr()))?;
    Ok((found.remove_one(port.id), found.remove_one(bind.id), found.get_flag(cpu.id),
        found.remove_one(config.id), found.remove_one(max_queued.id)))
}

/// The settings of the service.
#[derive(Debug)]
pub struct Arguments {
    /// TCP port to listen on.
    pub port: u16,
    /// Bind address.
    pub bind: String,
    /// Force the CPU device.
    pub cpu: bool,
    /// Path to a TOML pipeline config.
    pub config: Option<String>,
    /// Max requests waiting and in flight before rejecting with 503.
    pub max_queued: usize,
}

/// The contents of [`Arguments`].
pub struct ArgumentsView {
    pub port: u16,
    pub bind: Seq<char>,
    pub cpu: bool,
    pub config: Option<Seq<char>>,
    pub max_queued: usize,
}

impl View for Arguments {
    type V = ArgumentsView;

    open spec fn view(&self) -> ArgumentsView {
        ArgumentsView {
            port: self.port,
            bind: self.bind@,
            cpu: self.cpu,
            config: text_view(self.config),
            max_queued: self.max_queued,
        }
    }
}

/// What is to be shown instead of running the service.
#[derive(Debug)]
pub struct Refusal {
    pub text: String,
    /// Whether it is an error, and not the help or the version.
    pub is_error: bool,
}

impl Refusal {
    /// The exit code that goes with it.
    pub fn exit_code(&self) -> (r: i32)
        ensures
            r == (if self.is_error {
                2int
            } else {
                0int
            }),
    {
        if self.is_error {
            2
        } else {
            0
        }
    }
}

/// The limit of the queue, 16 by default, if the machine can count to it.
pub open spec fn limit_or_default(given: Option<u64>) -> Option<usize> {
    match given {
        Some(n) => if n <= usize::MAX {
            Some(n as usize)
        } else {
            None
        },
        None => Some(16),
    }
}

/// The settings for what was given, with defaults for the rest.
pub open spec fn settled(given: GivenView) -> Option<ArgumentsView> {
    match limit_or_default(given.max_queued) {
        None => None,
        Some(max_queued) => Some(
            ArgumentsView {
                port: match given.port {
                    Some(port) => port,
                    None => 8383,
                },
                bind: match given.bind {
                    Some(text) => text,
                    None => "127.0.0.1"@,
                },
                cpu: given.cpu,
                config: given.config,
                max_queued,
            },
        ),
    }
}

/// How a limit that the machine cannot count to is refused.
pub open spec fn limit_refusal() -> Seq<char> {
    "error: invalid value for '--max-queued <MAX_QUEUED>': number too large to fit in target type\n"@
}

/// Whether `r` is what the given comes to: settings, or the refusal of its limit.
pub open spec fn settles(given: GivenView, r: Result<Arguments, Refusal>) -> bool {
    match settled(given) {
        Some(arguments) => r matches Ok(settings) && settings@ == arguments,
        None => r matches Err(refusal) && refusal.is_error && refusal.text@ == limit_refusal(),
    }
}

/// Whether `r` is what the outcome of a command line comes to.
pub open spec fn comes_to(line: Result<GivenView, bool>, r: Result<Arguments, Refusal>) -> bool {
    match line {
        Err(is_error) => r matches Err(refusal) && refusal.is_error == is_error,
        Ok(given) => settles(given, r),
    }
}

/// Whether `r` is what was made of a command line: what was given comes to settings, and what is to
/// be shown instead is shown as it is.
pub open spec fn resolves(
    matched: Result<Matched, (String, bool)>,
    r: Result<Arguments, Refusal>,
) -> bool {
    match matched {
        Ok(_) => outcome(matched) matches Ok(given) && settles(given, r),
        Err((text, is_error)) => r matches Err(refusal) && refusal.text@ == text@
            && refusal.is_error == is_error,
    }
}

/// Whether an option is declared with this identifier, name and explanation.
pub open spec fn is_declared(
    option: OptionText,
    id: Seq<char>,
    long: Seq<char>,
    help: Seq<char>,
) -> bool {
    option.id@ == id && option.long@ == long && option.help@ == help
}

/// Whether `matched` is what `clap` gave for `arguments`, asked with the options of the service.
pub closed spec fn was_matched(
    arguments: Vec<String>,
    matched: Result<Matched, (String, bool)>,
) -> bool {
    exists|
        program: &'static str,
        about: &'static str,
        version: &'static str,
        port: &OptionText,
        bind: &OptionText,
        cpu: &OptionText,
        config: &OptionText,
        max_queued: &OptionText,
    |
        #[trigger] call_ensures(
            match_words,
            (program, about, version, port, bind, cpu, config, max_queued, arguments),
            matched,
        ) && program@ == "koharu-server"@ && about@
            == "Standalone HTTP service for Koharu page translation"@ && version@ == "0.1.0"@
            && is_declared(*port, "PORT"@, "port"@, "TCP port to listen on [default: 8383]"@)
            && is_declared(*bind, "BIND"@, "bind"@, "Bind address [default: 127.0.0.1]"@)
            && is_declared(*cpu, "CPU"@, "cpu"@, "Force the CPU device"@) && is_declared(
            *config,
            "PATH"@,
            "config"@,
            "Path to a TOML pipeline config"@,
        ) && is_declared(
            *max_queued,
            "MAX_QUEUED"@,
            "max-queued"@,
            "Max requests waiting + in flight before rejecting with 503 [default: 16]"@,
        )
}

/// The names of the options, in the order in which they are listed.
pub open spec fn option_names() -> Seq<Seq<char>> {
    seq!["port"@, "bind"@, "cpu"@, "config"@, "max-queued"@]
}

/// Whether settings, in whatever order they are written, are what `r` was settled from, and one
/// that is not allowed is refused.
pub open spec fn follows_settings(words: Seq<Seq<char>>, r: Result<Arguments, Refusal>) -> bool {
    forall|program: Seq<char>, settings: Seq<Setting>|
        words == #[trigger] command_words(option_names(), program, settings) && are_separate(
            settings,
        ) ==> if are_allowed(settings) {
            settles(given_in(settings), r)
        } else {
            r matches Err(refusal) && refusal.is_error
        }
}

proof fn lemma_options_are_distinct()
    ensures
        are_distinct(option_names()),
        are_distinct(seq!["PORT"@, "BIND"@, "CPU"@, "PATH"@, "MAX_QUEUED"@]),
{
    reveal_strlit("port");
    reveal_strlit("bind");
    reveal_strlit("cpu");
    reveal_strlit("config");
    reveal_strlit("max-queued");
    reveal_strlit("PORT");
    reveal_strlit("BIND");
    reveal_strlit("CPU");
    reveal_strlit("PATH");
    reveal_strlit("MAX_QUEUED");
    reveal_strlit("help");
    reveal_strlit("version");
    assert("port"@[0] == 'p' && "bind"@[0] == 'b' && "config"@[0] == 'c' && "cpu"@[0] == 'c');
    assert("max-queued"@[0] == 'm' && "config"@.len() == 6 && "cpu"@.len() == 3);
    assert("help"@[0] == 'h' && "version"@[0] == 'v');
    assert("PORT"@[0] == 'P' && "PORT"@[1] == 'O' && "PATH"@[0] == 'P' && "PATH"@[1] == 'A');
    assert("BIND"@[0] == 'B' && "CPU"@[0] == 'C' && "MAX_QUEUED"@[0] == 'M');
}

impl Arguments {
    /// Fills in the defaults of what was not given.
    pub fn settle(given: Given) -> (r: Result<Arguments, Refusal>)
        ensures
            settles(given@, r),
            r is Err <==> (given.max_queued matches Some(n) && n > usize::MAX),
            r matches Ok(arguments) ==> arguments.cpu == given.cpu,
            r matches Ok(arguments) ==> text_view(arguments.config) == text_view(given.config),
            r matches Ok(arguments) ==> (given.port matches Some(port) ==> arguments.port == port),
            r matches Ok(arguments) ==> (given.port is None ==> arguments.port == 8383),
            r matches Ok(arguments) ==> (given.bind matches Some(text) ==> arguments.bind@
                == text@),
            r matches Ok(arguments) ==> (given.bind is None ==> arguments.bind@ == "127.0.0.1"@),
            r matches Ok(arguments) ==> (given.max_queued matches Some(n) ==> arguments.max_queued
                == n),
            r matches Ok(arguments) ==> (given.max_queued is None ==> arguments.max_queued == 16),
    {
        let max_queued: usize = match given.max_queued {
            Some(n) => if n <= usize::MAX as u64 {
                n as usize
            } else {
                let text =
                    "error: invalid value for '--max-queued <MAX_QUEUED>': number too large to fit in target type\n";
                return Err(Refusal { text: text.to_owned(), is_error: true });
            },
            None => 16,
        };
        let port: u16 = match given.port {
            Some(port) => port,
            None => 8383,
        };
        let bind = match given.bind {
            Some(text) => text,
            None => "127.0.0.1".to_owned(),
        };
        Ok(Arguments { port, bind, cpu: given.cpu, config: given.config, max_queued })
    }

    /// Takes what was made of a command line.
    pub fn resolve(matched: Result<Matched, (String, bool)>) -> (r: Result<Arguments, Refusal>)
        ensures
            resolves(matched, r),
    {
        match matched {
            Err((text, is_error)) => Err(Refusal { text, is_error }),
            Ok((port, bind, cpu, config, max_queued)) => {
                Arguments::settle(Given { port, bind, cpu, config, max_queued })
            },
        }
    }

    /// Reads the command line `arguments`, the first of which calls the program. The text of a help
    /// page, a version, or an error in the line is the one that `clap` gave; nothing is said of what
    /// it reads.
    pub fn try_parse_from(arguments: Vec<String>) -> (r: Result<Arguments, Refusal>)
        ensures
            exists|matched: Result<Matched, (String, bool)>| #[trigger]
                was_matched(arguments, matched) && resolves(matched, r),
            comes_to(command_line(option_names(), words(arguments@)), r),
            follows_settings(words(arguments@), r),
    {
        let port = OptionText {
            id: "PORT",
            long: "port",
            help: "TCP port to listen on [default: 8383]",
        };
        let bind = OptionText {
            id: "BIND",
            long: "bind",
            help: "Bind address [default: 127.0.0.1]",
        };
        let cpu = OptionText { id: "CPU", long: "cpu", help: "Force the CPU device" };
        let config = OptionText {
            id: "PATH",
            long: "config",
            help: "Path to a TOML pipeline config",
        };
        let max_queued = OptionText {
            id: "MAX_QUEUED",
            long: "max-queued",
            help: "Max requests waiting + in flight before rejecting with 503 [default: 16]",
        };
        proof {
            lemma_options_are_distinct();
        }
        let matched = match_words(
            "koharu-server",
            "Standalone HTTP service for Koharu page translation",
            "0.1.0",
            &port,
            &bind,
            &cpu,
            &config,
            &max_queued,
            arguments,
        );
        assert(was_matched(arguments, matched));
        Arguments::resolve(matched)
    }
}

/// A setting counts wherever it stands, and an option that no setting is of has none.
pub proof fn setting_counts_wherever_it_stands(settings: Seq<Setting>, i: int)
    requires
        are_separate(settings),
    ensures
        forall|k: int|
            0 <= k < settings.len() && option_of(#[trigger] settings[k]) == i ==> setting_of(
                settings,
                i,
            ) == Some(settings[k]),
        (forall|k: int| 0 <= k < settings.len() ==> option_of(#[trigger] settings[k]) != i)
            ==> setting_of(settings, i) is None,
    decreases settings.len(),
{
    if settings.len() > 0 {
        let shorter = settings.drop_last();
        assert(forall|k: int| 0 <= k < shorter.len() ==> shorter[k] == settings[k]);
        setting_counts_wherever_it_stands(shorter, i);
    }
}

/// Without settings the service listens on `127.0.0.1:8383` with 16 places in the queue, on the
/// device of its choice and with the default pipeline.
pub proof fn nothing_given_means_defaults()
    ensures
        settled(given_in(Seq::empty())) == Some(
            ArgumentsView {
                port: 8383,
                bind: "127.0.0.1"@,
                cpu: false,
                config: None,
                max_queued: 16,
            },
        ),
{
}

/// A port and a count that are written as numerals are allowed, and are read back.
pub proof fn written_numbers_read_back(port: u16, n: u64)
    ensures
        port_in(decimal(port as nat)) == Some(port),
        count_in(decimal(n as nat)) == Some(n),
{
    decimal_reads_back(port as nat);
    decimal_reads_back(n as nat);
    assert(is_digit(decimal(port as nat)[0]));
    assert(is_digit(decimal(n as nat)[0]));
}

/// Each setting of a line is settled on its own, whatever other settings the line holds: the CPU is
/// forced exactly when `--cpu` stands there, every value that was given is taken, and what was not
/// given has its default. A value that is not allowed refuses the line.
pub proof fn each_setting_is_settled_on_its_own(
    program: Seq<char>,
    settings: Seq<Setting>,
    r: Result<Arguments, Refusal>,
)
    requires
        are_separate(settings),
        follows_settings(
            command_words(
                seq!["port"@, "bind"@, "cpu"@, "config"@, "max-queued"@],
                program,
                settings,
            ),
            r,
        ),
    ensures
        (exists|k: int| 0 <= k < settings.len() && !is_allowed(#[trigger] settings[k])) ==> (
        r matches Err(refusal) && refusal.is_error),
        r is Ok <==> (forall|k: int|
            0 <= k < settings.len() ==> is_allowed(#[trigger] settings[k]) && (
            settings[k] matches Setting::MaxQueued(text) ==> (number_in(text) matches Some(n) && n
                <= usize::MAX))),
        r matches Ok(arguments) ==> (arguments.cpu <==> exists|k: int|
            0 <= k < settings.len() && (#[trigger] settings[k]) is Cpu),
        r matches Ok(arguments) ==> forall|k: int|
            0 <= k < settings.len() ==> match #[trigger] settings[k] {
                Setting::Port(text) => number_in(text) == Some(arguments.port as nat),
                Setting::Bind(text) => arguments.bind@ == text,
                Setting::Cpu => arguments.cpu,
                Setting::Config(text) => arguments.config matches Some(path) && path@ == text,
                Setting::MaxQueued(text) => number_in(text) == Some(arguments.max_queued as nat),
            },
        r matches Ok(arguments) ==> ((forall|k: int|
            0 <= k < settings.len() ==> !((#[trigger] settings[k]) is Port)) ==> arguments.port
            == 8383),
        r matches Ok(arguments) ==> ((forall|k: int|
            0 <= k < settings.len() ==> !((#[trigger] settings[k]) is Bind)) ==> arguments.bind@
            == "127.0.0.1"@),
        r matches Ok(arguments) ==> ((forall|k: int|
            0 <= k < settings.len() ==> !((#[trigger] settings[k]) is Config)) ==> arguments.config
            is None),
        r matches Ok(arguments) ==> ((forall|k: int|
            0 <= k < settings.len() ==> !((#[trigger] settings[k]) is MaxQueued))
            ==> arguments.max_queued == 16),
{
    assert(option_names() =~= seq!["port"@, "bind"@, "cpu"@, "config"@, "max-queued"@]);
    setting_counts_wherever_it_stands(settings, 0);
    setting_counts_wherever_it_stands(settings, 1);
    setting_counts_wherever_it_stands(settings, 2);
    setting_counts_wherever_it_stands(settings, 3);
    setting_counts_wherever_it_stands(settings, 4);
    if are_allowed(settings) {
        assert(settles(given_in(settings), r));
    }
}

/// The contents of what was given and of the settings are what they hold.
pub proof fn settings_are_shown_as_they_are(given: Given, arguments: Arguments)
    ensures
        given@.port == given.port,
        given@.bind == text_view(given.bind),
        given@.cpu == given.cpu,
        given@.config == text_view(given.config),
        given@.max_queued == given.max_queued,
        arguments@.port == arguments.port,
        arguments@.bind == arguments.bind@,
        arguments@.cpu == arguments.cpu,
        arguments@.config == text_view(arguments.config),
        arguments@.max_queued == arguments.max_queued,
{
}

/// What a command line comes to: what is to be shown instead is shown as it was handed over, and
/// what was given is taken, each on its own, with defaults for the rest. Only a limit that the
/// machine cannot count to is refused then.
pub proof fn line_comes_to_what_was_given(
    given: GivenView,
    is_error: bool,
    text: String,
    r: Result<Arguments, Refusal>,
    shown: Result<Arguments, Refusal>,
    handed: Result<Arguments, Refusal>,
)
    requires
        comes_to(Ok(given), r),
        comes_to(Err(is_error), shown),
        resolves(Err((text, is_error)), handed),
    ensures
        shown matches Err(refusal) && refusal.is_error == is_error,
        handed matches Err(refusal) && refusal.is_error == is_error && refusal.text@ == text@,
        r is Err <==> (given.max_queued matches Some(n) && n > usize::MAX),
        r matches Err(refusal) ==> refusal.is_error,
        r matches Ok(arguments) ==> {
            &&& arguments.cpu == given.cpu
            &&& text_view(arguments.config) == given.config
            &&& given.port matches Some(port) ==> arguments.port == port
            &&& given.port is None ==> arguments.port == 8383
            &&& given.bind matches Some(bind) ==> arguments.bind@ == bind
            &&& given.bind is None ==> arguments.bind@ == "127.0.0.1"@
            &&& given.max_queued matches Some(n) ==> arguments.max_queued == n
            &&& given.max_queued is None ==> arguments.max_queued == 16
        },
{
}

/// What was read off a command line is what comes of it, each value in its place.
pub proof fn matched_values_keep_their_places(matched: Matched, r: Result<Arguments, Refusal>)
    requires
        resolves(Ok(matched), r),
    ensures
        outcome(Ok(matched)) == Ok::<GivenView, bool>(
            GivenView {
                port: matched.0,
                bind: text_view(matched.1),
                cpu: matched.2,
                config: text_view(matched.3),
                max_queued: matched.4,
            },
        ),
        comes_to(outcome(Ok(matched)), r),
{
}

} // verus!
