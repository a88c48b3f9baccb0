use crate::models::error::{ConfigError, ConfigErrorKind, ConfigErrorView};
use crate::utils::numbers::{check_float_literal, is_float_literal};
use crate::utils::text::{after_first_word, rest_of_line, split_whitespace, str_eq, texts, tokens};
use vstd::prelude::*;
use vstd::string::StringExecFns;

verus! {

/// A command, as one line of input gives it.
#[derive(Debug, PartialEq)]
pub struct Config {
    /// The name of the command: `add`, `list`, `summary` or `delete`.
    pub comando: String,
    /// What the command is given: for `add` the description of the expense,
    /// for `summary` the month or nothing, for `delete` the identifiers,
    /// for `list` whatever follows it.
    pub descripcion: String,
    /// For `add`, the amount as the line writes it, a number in the form
    /// that `is_float_literal` describes; `0` where the line gives none and
    /// for the other commands.
    pub amount: String,
}

pub ghost struct ConfigView {
    pub comando: Seq<char>,
    pub descripcion: Seq<char>,
    pub amount: Seq<char>,
}

impl View for Config {
    type V = ConfigView;

    open spec fn view(&self) -> ConfigView {
        ConfigView { comando: self.comando@, descripcion: self.descripcion@, amount: self.amount@ }
    }
}

/// What the words after a flag of `add` are taken for.
#[derive(Debug, Clone, Copy, PartialEq, Eq, Structural)]
pub enum Mode {
    /// No flag yet: words are passed over.
    Idle,
    /// After `--description`: words are joined into the description.
    Description,
    /// After `--amount`: each word is the amount.
    Amount,
}

/// Whether a word is one of the two flags of `add`.
pub open spec fn is_flag(word: Seq<char>) -> bool {
    word == "--description"@ || word == "--amount"@
}

/// The mode after the first `n` words: that of the last flag among them.
pub open spec fn mode_after(words: Seq<Seq<char>>, n: int) -> Mode
    decreases n,
{
    if n <= 0 || n > words.len() {
        Mode::Idle
    } else if words[n - 1] == "--description"@ {
        Mode::Description
    } else if words[n - 1] == "--amount"@ {
        Mode::Amount
    } else {
        mode_after(words, n - 1)
    }
}

/// Whether the word at `i` is taken in the given mode: it is no flag, and
/// that is the mode after the words before it.
pub open spec fn taken_as(words: Seq<Seq<char>>, i: int, mode: Mode) -> bool {
    !is_flag(words[i]) && mode_after(words, i) == mode
}

/// The description that the first `n` words give: those taken for it, with
/// one space between them.
pub open spec fn description_of(words: Seq<Seq<char>>, n: int) -> Seq<char>
    decreases n,
{
    if n <= 0 || n > words.len() {
        Seq::empty()
    } else if taken_as(words, n - 1, Mode::Description) {
        let before = description_of(words, n - 1);
        if before.len() == 0 {
            words[n - 1]
        } else {
            before + seq![' '] + words[n - 1]
        }
    } else {
        description_of(words, n - 1)
    }
}

/// The amount that the first `n` words give: the last word taken for it, or
/// `0` where there is none.
pub open spec fn amount_of(words: Seq<Seq<char>>, n: int) -> Seq<char>
    decreases n,
{
    if n <= 0 || n > words.len() {
        "0"@
    } else if taken_as(words, n - 1, Mode::Amount) {
        words[n - 1]
    } else {
        amount_of(words, n - 1)
    }
}

/// Whether every word taken for the amount is a number.
pub open spec fn amounts_valid(words: Seq<Seq<char>>) -> bool {
    forall|i: int|
        0 <= i < words.len() && #[trigger] taken_as(words, i, Mode::Amount) ==> is_float_literal(
            words[i],
        )
}

/// Whether a word names a command that takes the rest of the line as it is.
pub open spec fn takes_rest(word: Seq<char>) -> bool {
    word == "list"@ || word == "summary"@ || word == "delete"@
}

/// An error of `Config::build`.
pub open spec fn config_failure(kind: ConfigErrorKind, message: Seq<char>) -> ConfigErrorView {
    ConfigErrorView { kind, message }
}

/// What `Config::build` returns.
pub open spec fn parsed(input: Seq<char>) -> Result<ConfigView, ConfigErrorView> {
    let words = tokens(input);
    if words.len() == 0 {
        Err(config_failure(ConfigErrorKind::EmptyInput, "No se proporcionó ningún comando"@))
    } else if words[0] == "add"@ {
        let rest = words.skip(1);
        if amounts_valid(rest) {
            Ok(
                ConfigView {
                    comando: words[0],
                    descripcion: description_of(rest, rest.len() as int),
                    amount: amount_of(rest, rest.len() as int),
                },
            )
        } else {
            Err(config_failure(ConfigErrorKind::InvalidTypeData, "Ingrese un numero por favor"@))
        }
    } else if takes_rest(words[0]) {
        Ok(ConfigView { comando: words[0], descripcion: after_first_word(input), amount: "0"@ })
    } else {
        Err(config_failure(ConfigErrorKind::InvalidCommand, "Comando invalido"@))
    }
}

impl Config {
    /// Reads a command from a line.
    ///
    /// The first word names the command; a line without a word gives
    /// `EmptyInput`, and a word that names no command `InvalidCommand`.
    ///
    /// After `add`, the words are read from left to right. `--description`
    /// and `--amount` each change what the words behind them are taken for,
    /// up to the next of the two: the words behind `--description` make up
    /// the description, one space between them, and each word behind
    /// `--amount` is the amount, the last one staying. A word taken for the
    /// amount that is no number gives `InvalidTypeData`. Words before the
    /// first flag are passed over. Any other word that starts with `--` is
    /// a word like the rest.
    ///
    /// After `list`, `summary` and `delete`, what follows the name is the
    /// argument, without the white space at its two ends.
    pub fn build(input: &str) -> (r: Result<Config, ConfigError>)
        ensures
            match parsed(input@) {
                Ok(config) => r is Ok && r->Ok_0@ == config,
                Err(error) => r is Err && r->Err_0@ == error,
            },
    {
        let words = split_whitespace(input);
        if words.len() == 0 {
            return Err(
                ConfigError::new(ConfigErrorKind::EmptyInput, "No se proporcionó ningún comando"),
            );
        }
        let comando = words[0].clone();
        if str_eq(comando.as_str(), "add") {
            let ghost rest = texts(words@).skip(1);
            let mut descripcion = String::new();
            let mut amount = String::from_str("0");
            let mut mode = Mode::Idle;
            let mut i: usize = 1;
            while i < words.len()
                invariant
                    1 <= i <= words.len(),
                    rest == texts(words@).skip(1),
                    texts(words@) == tokens(input@),
                    comando@ == "add"@,
                    comando@ == tokens(input@)[0],
                    mode == mode_after(rest, i - 1),
                    descripcion@ == description_of(rest, i - 1),
                    amount@ == amount_of(rest, i - 1),
                    forall|k: int|
                        0 <= k < i - 1 && #[trigger] taken_as(rest, k, Mode::Amount)
                            ==> is_float_literal(rest[k]),
                decreases words.len() - i,
            {
                let word = words[i].as_str();
                assert(word@ == rest[i - 1]);
                if str_eq(word, "--description") {
                    mode = Mode::Description;
                } else if str_eq(word, "--amount") {
                    mode = Mode::Amount;
                } else {
                    match mode {
                        Mode::Description => {
                            if !descripcion.as_str().is_empty() {
                                descripcion.append(" ");
                                proof {
                                    reveal_strlit(" ");
                                    assert(" "@ =~= seq![' ']);
                                }
                            }
                            descripcion.append(word);
                            assert(descripcion@ =~= description_of(rest, i as int));
                        },
                        Mode::Amount => {
                            if !check_float_literal(word) {
                                assert(taken_as(rest, i - 1, Mode::Amount));
                                return Err(
                                    ConfigError::new(
                                        ConfigErrorKind::InvalidTypeData,
                                        "Ingrese un numero por favor",
                                    ),
                                );
                            }
                            amount = String::from_str(word);
                        },
                        Mode::Idle => {},
                    }
                }
                i += 1;
            }
            Ok(Config { comando, descripcion, amount })
        } else if str_eq(comando.as_str(), "list") || str_eq(comando.as_str(), "summary")
            || str_eq(comando.as_str(), "delete") {
            Ok(Config { comando, descripcion: rest_of_line(input), amount: String::from_str("0") })
        } else {
            Err(ConfigError::new(ConfigErrorKind::InvalidCommand, "Comando invalido"))
        }
    }
}

/// The four commands.
#[derive(Debug, Clone, Copy, PartialEq, Eq, Structural)]
pub enum Command {
    Add,
    List,
    Summary,
    Delete,
}

/// The command that a name stands for.
pub open spec fn command_of(name: Seq<char>) -> Option<Command> {
    if name == "add"@ {
        Some(Command::Add)
    } else if name == "list"@ {
        Some(Command::List)
    } else if name == "summary"@ {
        Some(Command::Summary)
    } else if name == "delete"@ {
        Some(Command::Delete)
    } else {
        None
    }
}

impl Config {
    /// The command to run, or nothing where `comando` names none.
    pub fn command(&self) -> (r: Option<Command>)
        ensures
            r == command_of(self@.comando),
    {
        let name = self.comando.as_str();
        if str_eq(name, "add") {
            Some(Command::Add)
        } else if str_eq(name, "list") {
            Some(Command::List)
        } else if str_eq(name, "summary") {
            Some(Command::Summary)
        } else if str_eq(name, "delete") {
            Some(Command::Delete)
        } else {
            None
        }
    }
}

/// A line that reads as a command names one of the four.
pub proof fn lemma_parsed_names_command(input: Seq<char>)
    requires
        parsed(input) is Ok,
    ensures
        command_of(parsed(input)->Ok_0.comando) is Some,
{
}

} // verus!
