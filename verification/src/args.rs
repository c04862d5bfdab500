//! Argument parsing for typed commands.
//!
//! A command line is split into tokens (see `command_line`) and the tokens are read
//! according to a command's declared `Signature`, separating positional arguments
//! from flags and performing the signature's validations.
//!
//! * `Flag` and `Signature` declare how a command's input is structured.
//! * `Args` holds the positional arguments and flags of one command line. Its
//!   positional accessors (`len`, `get`, `first`, `join`, ...) never see flags; use
//!   `Args::has_flag` and `Args::get_flag` to read flags.
//! * `ParseArgsError` covers argument-level validation failures (wrong positional
//!   count, unknown or duplicated flags, a flag missing its argument).
use vstd::prelude::*;

use crate::command_line::{
    blanks_end, lemma_blanks_end, lemma_next_token_advances, next_token, rest_token, token_error,
    Tokenizer, TokenizeError, TokenizeFault, Token,
};
use crate::text::{decimal, push_decimal, push_str};

verus! {

broadcast use vstd::string::group_string_axioms;

/// Marks a flag as taking an argument; the argument's completions are offered by
/// the editor's prompt.
#[derive(Debug, Clone, Copy)]
pub struct CommandCompleter {
    _private: (),
}

impl CommandCompleter {
    /// A completer that offers no completions.
    pub fn none() -> (c: CommandCompleter) {
        CommandCompleter { _private: () }
    }
}

/// A Unix-like flag that a command may accept.
///
/// For example a `:sort` command may accept a `--reverse` (or `-r` for shorthand)
/// boolean flag. Flags accept an argument when `completer` is `Some`.
#[derive(Debug, Clone, Copy)]
pub struct Flag {
    /// The name of the flag, which also gives its longhand form: a flag named
    /// "reverse" is written `--reverse`.
    pub name: &'static str,
    /// The character of the flag's shorthand form, if any: `Some('r')` allows `-r`.
    pub alias: Option<char>,
    pub doc: &'static str,
    /// `Some` for flags that take an argument, `None` for boolean flags.
    pub completer: Option<CommandCompleter>,
}

impl Default for Flag {
    /// A flag with an empty name and doc, no shorthand and no argument.
    fn default() -> (f: Flag)
        ensures
            f.name@ == Seq::<char>::empty(),
            f.doc@ == Seq::<char>::empty(),
            f.alias is None,
            f.completer is None,
    {
        proof {
            reveal_strlit("");
        }
        Flag { name: "", alias: None, doc: "", completer: None }
    }
}

/// A description of how a command's input is handled.
#[derive(Debug, Clone, Copy)]
pub struct Signature {
    /// The minimum and (optionally) maximum number of positional arguments.
    pub positionals: (usize, Option<usize>),
    /// The number of positional arguments read with normal quoting and flag rules.
    /// Once that many positionals have been read, the rest of the input is taken
    /// as one raw positional argument (see `Tokenizer::rest`).
    pub raw_after: Option<u8>,
    /// The flags that the command accepts.
    pub flags: &'static [Flag],
    pub _dummy: (),
}

impl Default for Signature {
    /// Zero or more positionals, no raw part, no flags.
    fn default() -> (s: Signature)
        ensures
            s.positionals == (0usize, Option::<usize>::None),
            s.raw_after is None,
            s.flags@.len() == 0,
    {
        Signature { positionals: (0, None), raw_after: None, flags: &[], _dummy: () }
    }
}

/// Whether `n` positionals lie in the range that the signature declares.
pub open spec fn positional_count_ok(sig: Signature, n: nat) -> bool {
    &&& sig.positionals.0 <= n
    &&& match sig.positionals.1 {
        Some(max) => n <= max,
        None => true,
    }
}

/// The mathematical value of a `ParseArgsError`.
pub enum ArgsFault {
    WrongPositionalCount { min: usize, max: Option<usize>, actual: usize },
    DuplicatedFlag { flag: Seq<char> },
    UnknownFlag { text: Seq<char> },
    FlagMissingArgument { flag: Seq<char> },
}

/// An argument-level validation failure.
#[derive(Debug, PartialEq, Eq)]
pub enum ParseArgsError {
    /// The number of positionals lies outside the signature's range.
    WrongPositionalCount { min: usize, max: Option<usize>, actual: usize },
    /// A flag was given twice.
    DuplicatedFlag { flag: &'static str },
    /// A token that looks like a flag names no flag of the signature.
    UnknownFlag { text: String },
    /// The command line ended while a flag awaited its argument.
    FlagMissingArgument { flag: &'static str },
}

impl View for ParseArgsError {
    type V = ArgsFault;

    open spec fn view(&self) -> ArgsFault {
        match self {
            ParseArgsError::WrongPositionalCount { min, max, actual } => ArgsFault::WrongPositionalCount {
                min: *min,
                max: *max,
                actual: *actual,
            },
            ParseArgsError::DuplicatedFlag { flag } => ArgsFault::DuplicatedFlag { flag: flag@ },
            ParseArgsError::UnknownFlag { text } => ArgsFault::UnknownFlag { text: text@ },
            ParseArgsError::FlagMissingArgument { flag } => ArgsFault::FlagMissingArgument {
                flag: flag@,
            },
        }
    }
}

/// "s" unless `n` is one.
pub open spec fn plural(n: nat) -> Seq<char> {
    if n == 1 {
        ""@
    } else {
        "s"@
    }
}

/// Whether a message can be given for the fault: a wrong positional count lies
/// outside its range (as every such fault that parsing reports does).
pub open spec fn has_message(e: ArgsFault) -> bool {
    match e {
        ArgsFault::WrongPositionalCount { min, max, actual } => {
            ||| (min == 0 && max == Some(0usize))
            ||| max == Some(min)
            ||| actual < min
            ||| (max matches Some(m) && actual > m)
        },
        _ => true,
    }
}

/// The text that describes a fault to the user.
pub open spec fn fault_message(e: ArgsFault) -> Seq<char> {
    match e {
        ArgsFault::WrongPositionalCount { min, max, actual } => "expected "@ + (if min == 0 && max
            == Some(0usize) {
            "no arguments"@
        } else if max == Some(min) {
            "exactly "@ + decimal(min as nat) + " argument"@ + plural(min as nat)
        } else if actual < min {
            "at least "@ + decimal(min as nat) + " argument"@ + plural(min as nat)
        } else {
            "at most "@ + decimal(max->0 as nat) + " argument"@ + plural(max->0 as nat)
        }) + ", got "@ + decimal(actual as nat),
        ArgsFault::DuplicatedFlag { flag } => "flag '--"@ + flag + "' specified more than once"@,
        ArgsFault::UnknownFlag { text } => "unknown flag '"@ + text + "'"@,
        ArgsFault::FlagMissingArgument { flag } => "flag '--"@ + flag + "' missing an argument"@,
    }
}

fn push_plural(s: &mut String, n: usize)
    ensures
        final(s)@ == old(s)@ + plural(n as nat),
{
    if n == 1 {
        push_str(s, "");
    } else {
        push_str(s, "s");
    }
}

/// Whether the error has a message (see `has_message`).
pub fn has_message_for(e: &ParseArgsError) -> (r: bool)
    ensures
        r == has_message(e@),
{
    match e {
        ParseArgsError::WrongPositionalCount { min, max, actual } => {
            (*min == 0 && *max == Some(0usize)) || *max == Some(*min) || *actual < *min || match *max {
                Some(m) => *actual > m,
                None => false,
            }
        },
        _ => true,
    }
}

impl ParseArgsError {
    /// The text that describes the error to the user.
    pub fn to_string(&self) -> (r: String)
        requires
            has_message(self@),
        ensures
            r@ == fault_message(self@),
    {
        let mut s = String::new();
        match self {
            ParseArgsError::WrongPositionalCount { min, max, actual } => {
                push_str(&mut s, "expected ");
                let min = *min;
                let actual = *actual;
                let ghost head = s@;
                match *max {
                    Some(m) if min == 0 && m == 0 => {
                        push_str(&mut s, "no arguments");
                    },
                    Some(m) if m == min => {
                        push_str(&mut s, "exactly ");
                        push_decimal(&mut s, min);
                        push_str(&mut s, " argument");
                        push_plural(&mut s, min);
                    },
                    _ => {
                        if actual < min {
                            push_str(&mut s, "at least ");
                            push_decimal(&mut s, min);
                            push_str(&mut s, " argument");
                            push_plural(&mut s, min);
                        } else {
                            let m = max.unwrap();
                            push_str(&mut s, "at most ");
                            push_decimal(&mut s, m);
                            push_str(&mut s, " argument");
                            push_plural(&mut s, m);
                        }
                    },
                }
                push_str(&mut s, ", got ");
                push_decimal(&mut s, actual);
                assert(s@ =~= fault_message(self@));
            },
            ParseArgsError::DuplicatedFlag { flag } => {
                push_str(&mut s, "flag '--");
                push_str(&mut s, flag);
                push_str(&mut s, "' specified more than once");
                assert(s@ =~= fault_message(self@));
            },
            ParseArgsError::UnknownFlag { text } => {
                push_str(&mut s, "unknown flag '");
                push_str(&mut s, text.as_str());
                push_str(&mut s, "'");
                assert(s@ =~= fault_message(self@));
            },
            ParseArgsError::FlagMissingArgument { flag } => {
                push_str(&mut s, "flag '--");
                push_str(&mut s, flag);
                push_str(&mut s, "' missing an argument");
                assert(s@ =~= fault_message(self@));
            },
        }
        s
    }
}

impl Signature {
    /// Checks a number of positionals against the declared range.
    fn check_positional_count(&self, actual: usize) -> (r: Result<(), ParseArgsError>)
        ensures
            r is Ok <==> positional_count_ok(*self, actual as nat),
            r matches Err(e) ==> e == (ParseArgsError::WrongPositionalCount {
                min: self.positionals.0,
                max: self.positionals.1,
                actual,
            }),
    {
        let (min, max) = self.positionals;
        if min <= actual && max.unwrap_or(usize::MAX) >= actual {
            Ok(())
        } else {
            Err(ParseArgsError::WrongPositionalCount { min, max, actual })
        }
    }
}

/// The kind of argument that the last token of a command line is.
#[derive(Debug, Default, Clone, Copy)]
pub enum CompletionState {
    #[default]
    Positional,
    Flag(Option<Flag>),
    FlagArgument(Flag),
}

/// The flag whose argument the next token will be, if any: the last token named
/// a flag that takes an argument.
pub open spec fn awaiting(state: CompletionState) -> Option<Flag> {
    match state {
        CompletionState::Flag(Some(f)) => if f.completer is Some {
            Some(f)
        } else {
            None
        },
        _ => None,
    }
}

/// The first flag of `flags` with the given name.
pub open spec fn find_long(flags: Seq<Flag>, name: Seq<char>) -> Option<Flag>
    decreases flags.len(),
{
    if flags.len() == 0 {
        None
    } else if flags[0].name@ == name {
        Some(flags[0])
    } else {
        find_long(flags.drop_first(), name)
    }
}

/// The first flag of `flags` whose shorthand is the single character `rest`.
pub open spec fn find_short(flags: Seq<Flag>, rest: Seq<char>) -> Option<Flag>
    decreases flags.len(),
{
    if flags.len() == 0 {
        None
    } else if flags[0].alias matches Some(c) && rest == seq![c] {
        Some(flags[0])
    } else {
        find_short(flags.drop_first(), rest)
    }
}

/// The flag that a token starting with `-` names: `--name` by its name, `-c` by
/// its shorthand.
pub open spec fn lookup_flag(flags: Seq<Flag>, arg: Seq<char>) -> Option<Flag> {
    if arg.len() >= 2 && arg[0] == '-' && arg[1] == '-' {
        find_long(flags, arg.subrange(2, arg.len() as int))
    } else {
        find_short(flags, arg.subrange(1, arg.len() as int))
    }
}

/// The parsed content of a command line: what `Args` holds besides its signature.
#[verifier::ext_equal]
pub struct ArgsModel {
    /// Set once `--` (or the raw part of the input) has been read: every later
    /// token is a positional.
    pub only_positionals: bool,
    pub state: CompletionState,
    pub positionals: Seq<Seq<char>>,
    /// Each given flag's name, with its argument (empty for a boolean flag).
    pub flags: Map<Seq<char>, Seq<char>>,
}

/// The content before any token has been read.
pub open spec fn initial_model() -> ArgsModel {
    ArgsModel {
        only_positionals: false,
        state: CompletionState::Positional,
        positionals: Seq::empty(),
        flags: Map::empty(),
    }
}

/// Reading one more argument token.
pub open spec fn spec_push(sig: Signature, validate: bool, m: ArgsModel, arg: Seq<char>) -> Result<
    ArgsModel,
    ArgsFault,
> {
    if !m.only_positionals && arg == seq!['-', '-'] {
        Ok(
            ArgsModel {
                only_positionals: true,
                state: CompletionState::Flag(None),
                positionals: m.positionals,
                flags: m.flags,
            },
        )
    } else if let Some(f) = awaiting(m.state) {
        Ok(
            ArgsModel {
                only_positionals: m.only_positionals,
                state: CompletionState::FlagArgument(f),
                positionals: m.positionals,
                flags: m.flags.insert(f.name@, arg),
            },
        )
    } else if !m.only_positionals && arg.len() > 0 && arg[0] == '-' {
        match lookup_flag(sig.flags@, arg) {
            None => if validate {
                Err(ArgsFault::UnknownFlag { text: arg })
            } else {
                Ok(
                    ArgsModel {
                        only_positionals: m.only_positionals,
                        state: CompletionState::Flag(None),
                        positionals: m.positionals.push(arg),
                        flags: m.flags,
                    },
                )
            },
            Some(f) => if validate && m.flags.dom().contains(f.name@) {
                Err(ArgsFault::DuplicatedFlag { flag: f.name@ })
            } else {
                Ok(
                    ArgsModel {
                        only_positionals: m.only_positionals,
                        state: CompletionState::Flag(Some(f)),
                        positionals: m.positionals,
                        flags: m.flags.insert(f.name@, Seq::empty()),
                    },
                )
            },
        }
    } else {
        Ok(
            ArgsModel {
                only_positionals: m.only_positionals,
                state: CompletionState::Positional,
                positionals: m.positionals.push(arg),
                flags: m.flags,
            },
        )
    }
}

/// The closing validations once every token has been read.
pub open spec fn spec_finish(sig: Signature, validate: bool, m: ArgsModel) -> Result<(), ArgsFault> {
    if !validate {
        Ok(())
    } else if let Some(f) = awaiting(m.state) {
        Err(ArgsFault::FlagMissingArgument { flag: f.name@ })
    } else if positional_count_ok(sig, m.positionals.len()) {
        Ok(())
    } else {
        Err(
            ArgsFault::WrongPositionalCount {
                min: sig.positionals.0,
                max: sig.positionals.1,
                actual: m.positionals.len() as usize,
            },
        )
    }
}

/// Whether the next token is the raw remainder of the input.
pub open spec fn raw_now(sig: Signature, m: ArgsModel) -> bool {
    match sig.raw_after {
        Some(max) => m.positionals.len() >= max,
        None => false,
    }
}

/// The mathematical value of a `ParseError`.
pub enum ParseFault {
    Tokenize(TokenizeFault),
    Args(ArgsFault),
}

/// A failure to parse a command line.
#[derive(Debug, PartialEq, Eq)]
pub enum ParseError {
    /// The command line could not be split into tokens.
    Tokenize(TokenizeError),
    /// The tokens do not fit the command's signature.
    Args(ParseArgsError),
}

impl View for ParseError {
    type V = ParseFault;

    open spec fn view(&self) -> ParseFault {
        match self {
            ParseError::Tokenize(e) => ParseFault::Tokenize(e@),
            ParseError::Args(e) => ParseFault::Args(e@),
        }
    }
}

/// The model after the closing validations, or their failure.
pub open spec fn finish_model(sig: Signature, validate: bool, m: ArgsModel) -> Result<
    ArgsModel,
    ParseFault,
> {
    match spec_finish(sig, validate, m) {
        Ok(()) => Ok(m),
        Err(e) => Err(ParseFault::Args(e)),
    }
}

/// Parsing the rest of the command line `s` from position `pos`, starting from the
/// content `m`.
pub open spec fn parse_from(
    sig: Signature,
    validate: bool,
    s: Seq<char>,
    pos: int,
    m: ArgsModel,
) -> Result<ArgsModel, ParseFault>
    decreases s.len() - pos,
    via parse_from_terminates
{
    if raw_now(sig, m) {
        let m1 = ArgsModel {
            only_positionals: true,
            state: m.state,
            positionals: m.positionals,
            flags: m.flags,
        };
        match rest_token(s, pos) {
            None => finish_model(sig, validate, m1),
            Some(tok) => match spec_push(sig, validate, m1, tok.content) {
                Err(e) => Err(ParseFault::Args(e)),
                Ok(m2) => parse_from(sig, validate, s, s.len() as int, m2),
            },
        }
    } else {
        match next_token(s, pos) {
            None => finish_model(sig, validate, m),
            Some((tok, end)) => if validate && token_error(s, pos) is Some {
                Err(ParseFault::Tokenize(token_error(s, pos)->0))
            } else {
                match spec_push(sig, validate, m, tok.content) {
                    Err(e) => Err(ParseFault::Args(e)),
                    Ok(m2) => parse_from(sig, validate, s, end, m2),
                }
            },
        }
    }
}

#[via_fn]
proof fn parse_from_terminates(
    sig: Signature,
    validate: bool,
    s: Seq<char>,
    pos: int,
    m: ArgsModel,
) {
    if 0 <= pos <= s.len() {
        lemma_next_token_advances(s, pos);
        lemma_blanks_end(s, pos);
    }
}

/// Parsing a whole command line.
pub open spec fn spec_parse(sig: Signature, validate: bool, s: Seq<char>) -> Result<
    ArgsModel,
    ParseFault,
> {
    parse_from(sig, validate, s, 0, initial_model())
}


/// The flags map that a list of (name, argument) pairs stands for: a later pair
/// overrides an earlier one with the same name.
pub open spec fn pairs_to_map(s: Seq<(&'static str, String)>) -> Map<Seq<char>, Seq<char>>
    decreases s.len(),
{
    if s.len() == 0 {
        Map::empty()
    } else {
        pairs_to_map(s.drop_last()).insert(s.last().0@, s.last().1@)
    }
}

/// A name is in the map exactly when some pair has it.
proof fn lemma_pairs_to_map_dom(s: Seq<(&'static str, String)>, k: Seq<char>)
    ensures
        pairs_to_map(s).dom().contains(k) <==> exists|i: int| 0 <= i < s.len() && #[trigger] s[i].0@ == k,
    decreases s.len(),
{
    if s.len() > 0 {
        let t = s.drop_last();
        lemma_pairs_to_map_dom(t, k);
        if exists|i: int| 0 <= i < t.len() && #[trigger] t[i].0@ == k {
            let i = choose|i: int| 0 <= i < t.len() && #[trigger] t[i].0@ == k;
            assert(s[i].0@ == k);
        }
        if exists|i: int| 0 <= i < s.len() && #[trigger] s[i].0@ == k {
            let i = choose|i: int| 0 <= i < s.len() && #[trigger] s[i].0@ == k;
            if i < t.len() {
                assert(t[i].0@ == k);
            }
        }
    }
}

/// A name maps to the argument of the last pair that has it.
proof fn lemma_pairs_to_map_value(s: Seq<(&'static str, String)>, k: Seq<char>, i: int)
    requires
        0 <= i < s.len(),
        s[i].0@ == k,
        forall|j: int| i < j < s.len() ==> s[j].0@ != k,
    ensures
        pairs_to_map(s).dom().contains(k),
        pairs_to_map(s)[k] == s[i].1@,
    decreases s.len(),
{
    if i < s.len() - 1 {
        let t = s.drop_last();
        assert(t[i] == s[i]);
        assert(s.last() == s[s.len() - 1]);
        lemma_pairs_to_map_value(t, k, i);
    }
}

/// A set of arguments provided to a command on the command line.
///
/// Regular arguments are called "positional" arguments (or "positionals"); the
/// input may also give flags, which modify a command's behaviour. `len`, `get`,
/// `first`, `join` and `iter` only see positionals; `has_flag` and `get_flag` read
/// flags.
#[derive(Debug)]
pub struct Args {
    signature: Signature,
    /// Whether to validate the arguments (see `ParseArgsError`).
    validate: bool,
    /// Whether arguments pushed are positionals even if they start with '-'.
    only_positionals: bool,
    state: CompletionState,
    positionals: Vec<String>,
    flags: Vec<(&'static str, String)>,
}

impl Args {
    /// The parsed content.
    pub closed spec fn model(&self) -> ArgsModel {
        ArgsModel {
            only_positionals: self.only_positionals,
            state: self.state,
            positionals: self.positionals@.map_values(|p: String| p@),
            flags: pairs_to_map(self.flags@),
        }
    }

    /// The signature the arguments are read by.
    pub closed spec fn sig(&self) -> Signature {
        self.signature
    }

    /// Whether the arguments are validated.
    pub closed spec fn validates(&self) -> bool {
        self.validate
    }

    /// Arguments with nothing read yet.
    pub fn new(signature: Signature, validate: bool) -> (a: Args)
        ensures
            a.model() == initial_model(),
            a.sig() == signature,
            a.validates() == validate,
    {
        let a = Args {
            signature,
            validate,
            only_positionals: false,
            positionals: Vec::new(),
            flags: Vec::new(),
            state: CompletionState::Positional,
        };
        assert(a.model() =~= initial_model());
        a
    }

    /// The index of the last recorded pair for the flag `name`.
    fn flag_index(&self, name: &str) -> (r: Option<usize>)
        ensures
            match r {
                Some(i) => i < self.flags@.len() && self.flags@[i as int].0@ == name@ && (forall|
                    j: int,
                | i < j < self.flags@.len() ==> self.flags@[j].0@ != name@),
                None => forall|j: int| 0 <= j < self.flags@.len() ==> self.flags@[j].0@ != name@,
            },
    {
        let mut i = self.flags.len();
        while i > 0
            invariant
                i <= self.flags@.len(),
                forall|j: int| i <= j < self.flags@.len() ==> self.flags@[j].0@ != name@,
            decreases i,
        {
            if crate::text::str_eq(self.flags[i - 1].0, name) {
                return Some(i - 1);
            }
            i -= 1;
        }
        None
    }

    /// Records the argument of a flag.
    fn insert_flag(&mut self, name: &'static str, value: String)
        ensures
            final(self).flags@ == old(self).flags@.push((name, value)),
            pairs_to_map(final(self).flags@) == pairs_to_map(old(self).flags@).insert(name@, value@),
            final(self).signature == old(self).signature,
            final(self).validate == old(self).validate,
            final(self).only_positionals == old(self).only_positionals,
            final(self).state == old(self).state,
            final(self).positionals == old(self).positionals,
    {
        self.flags.push((name, value));
        assert(self.flags@.drop_last() =~= old(self).flags@);
    }

    /// The flag whose argument the next token is, if any.
    fn flag_awaiting_argument(&self) -> (r: Option<Flag>)
        ensures
            r == awaiting(self.state),
    {
        match self.state {
            CompletionState::Flag(Some(f)) => if f.completer.is_some() {
                Some(f)
            } else {
                None
            },
            _ => None,
        }
    }

    /// Returns the kind of argument that the last token is considered to be.
    ///
    /// For example if the last argument is `--foo` then it may be a flag.
    pub fn completion_state(&self) -> (r: CompletionState)
        ensures
            r == self.model().state,
    {
        self.state
    }

    /// Returns the number of positionals supplied in the input; flags are not
    /// counted.
    pub fn len(&self) -> (r: usize)
        ensures
            r == self.model().positionals.len(),
    {
        self.positionals.len()
    }

    /// Whether the input supplied no positionals (it may still have given flags).
    pub fn is_empty(&self) -> (r: bool)
        ensures
            r == (self.model().positionals.len() == 0),
    {
        self.positionals.len() == 0
    }

    /// Gets the first positional argument, if one exists.
    pub fn first(&self) -> (r: Option<&str>)
        ensures
            r is Some <==> self.model().positionals.len() > 0,
            r matches Some(p) ==> p@ == self.model().positionals[0],
    {
        if self.positionals.len() == 0 {
            None
        } else {
            Some(self.positionals[0].as_str())
        }
    }

    /// Gets the positional argument at the given index, if one exists.
    pub fn get(&self, index: usize) -> (r: Option<&str>)
        ensures
            r is Some <==> index < self.model().positionals.len(),
            r matches Some(p) ==> p@ == self.model().positionals[index as int],
    {
        if index < self.positionals.len() {
            Some(self.positionals[index].as_str())
        } else {
            None
        }
    }

    /// The positional argument at the given index.
    pub fn index(&self, index: usize) -> (r: &str)
        requires
            index < self.model().positionals.len(),
        ensures
            r@ == self.model().positionals[index as int],
    {
        self.positionals[index].as_str()
    }

    /// All positional arguments.
    pub fn iter(&self) -> (r: &[String])
        ensures
            r@.map_values(|p: String| p@) == self.model().positionals,
    {
        self.positionals.as_slice()
    }

    /// Flattens all positional arguments together with `sep` between each two.
    pub fn join(&self, sep: &str) -> (r: String)
        ensures
            r@ == join_seq(self.model().positionals, sep@),
    {
        let ghost parts = self.model().positionals;
        let mut res = String::new();
        let n = self.positionals.len();
        let mut i: usize = 0;
        while i < n
            invariant
                n == self.positionals@.len(),
                parts == self.positionals@.map_values(|p: String| p@),
                i <= n,
                res@ == join_seq(parts.take(i as int), sep@),
            decreases n - i,
        {
            if i > 0 {
                push_str(&mut res, sep);
            }
            push_str(&mut res, self.positionals[i].as_str());
            assert(parts.take(i + 1).drop_last() =~= parts.take(i as int));
            i += 1;
        }
        assert(parts.take(n as int) =~= parts);
        res
    }

    /// Gets the argument given to a flag that takes one, by the flag's name.
    pub fn get_flag(&self, name: &'static str) -> (r: Option<&str>)
        requires
            exists|i: int|
                0 <= i < self.sig().flags@.len() && #[trigger] self.sig().flags@[i].name@ == name@
                    && self.sig().flags@[i].completer is Some,
        ensures
            r is Some <==> self.model().flags.dom().contains(name@),
            r matches Some(v) ==> v@ == self.model().flags[name@],
    {
        match self.flag_index(name) {
            Some(i) => {
                proof {
                    lemma_pairs_to_map_value(self.flags@, name@, i as int);
                }
                Some(self.flags[i].1.as_str())
            },
            None => {
                proof {
                    lemma_pairs_to_map_dom(self.flags@, name@);
                }
                None
            },
        }
    }

    /// Whether a flag (one that takes no argument) was given, by the flag's name.
    pub fn has_flag(&self, name: &'static str) -> (r: bool)
        requires
            exists|i: int|
                0 <= i < self.sig().flags@.len() && #[trigger] self.sig().flags@[i].name@ == name@
                    && self.sig().flags@[i].completer is None,
        ensures
            r == self.model().flags.dom().contains(name@),
    {
        proof {
            lemma_pairs_to_map_dom(self.flags@, name@);
        }
        self.flag_index(name).is_some()
    }
}

/// The first flag whose name is `arg[2..]`.
fn find_long_flag(flags: &'static [Flag], arg: &Vec<char>) -> (r: Option<Flag>)
    requires
        2 <= arg@.len(),
    ensures
        r == find_long(flags@, arg@.subrange(2, arg@.len() as int)),
{
    let ghost name = arg@.subrange(2, arg@.len() as int);
    let mut i: usize = 0;
    assert(flags@.skip(0) =~= flags@);
    while i < flags.len()
        invariant
            2 <= arg@.len(),
            name == arg@.subrange(2, arg@.len() as int),
            i <= flags@.len(),
            find_long(flags@, name) == find_long(flags@.skip(i as int), name),
        decreases flags@.len() - i,
    {
        assert(flags@.skip(i as int).drop_first() =~= flags@.skip(i + 1));
        assert(flags@.skip(i as int)[0] == flags@[i as int]);
        if crate::text::matches_tail(flags[i].name, arg, 2) {
            return Some(flags[i]);
        }
        i += 1;
    }
    assert(flags@.skip(i as int).len() == 0);
    None
}

/// The first flag whose shorthand is the single character `arg[1..]`.
fn find_short_flag(flags: &'static [Flag], arg: &Vec<char>) -> (r: Option<Flag>)
    requires
        1 <= arg@.len(),
    ensures
        r == find_short(flags@, arg@.subrange(1, arg@.len() as int)),
{
    let ghost rest = arg@.subrange(1, arg@.len() as int);
    let mut i: usize = 0;
    assert(flags@.skip(0) =~= flags@);
    while i < flags.len()
        invariant
            1 <= arg@.len(),
            rest == arg@.subrange(1, arg@.len() as int),
            i <= flags@.len(),
            find_short(flags@, rest) == find_short(flags@.skip(i as int), rest),
        decreases flags@.len() - i,
    {
        assert(flags@.skip(i as int).drop_first() =~= flags@.skip(i + 1));
        assert(flags@.skip(i as int)[0] == flags@[i as int]);
        let f = flags[i];
        if let Some(c) = f.alias {
            if arg.len() == 2 && arg[1] == c {
                assert(rest =~= seq![c]);
                return Some(f);
            }
            assert(rest != seq![c]) by {
                if rest == seq![c] {
                    assert(rest.len() == 1);
                    assert(rest[0] == arg@[1]);
                }
            }
        }
        i += 1;
    }
    assert(flags@.skip(i as int).len() == 0);
    None
}

/// The flag that an argument starting with `-` names.
fn lookup_flag_exec(flags: &'static [Flag], arg: &Vec<char>) -> (r: Option<Flag>)
    requires
        1 <= arg@.len(),
    ensures
        r == lookup_flag(flags@, arg@),
{
    if arg.len() >= 2 && arg[0] == '-' && arg[1] == '-' {
        find_long_flag(flags, arg)
    } else {
        find_short_flag(flags, arg)
    }
}

impl Args {
    /// Adds the given argument token.
    ///
    /// Once all arguments have been added, `finish` performs the closing
    /// validations. On an error the arguments are left unchanged.
    pub fn push(&mut self, arg: String) -> (r: Result<(), ParseArgsError>)
        ensures
            final(self).sig() == old(self).sig(),
            final(self).validates() == old(self).validates(),
            match spec_push(old(self).sig(), old(self).validates(), old(self).model(), arg@) {
                Ok(m) => r is Ok && final(self).model() == m,
                Err(e) => r matches Err(err) && err@ == e && final(self).model() == old(self).model(),
            },
    {
        let chars = crate::text::chars_of(arg.as_str());
        let is_separator = chars.len() == 2 && chars[0] == '-' && chars[1] == '-';
        proof {
            if arg@ == seq!['-', '-'] {
                assert(chars@.len() == 2 && chars@[0] == '-' && chars@[1] == '-');
            }
            if is_separator {
                assert(arg@ =~= seq!['-', '-']);
            }
        }
        if !self.only_positionals && is_separator {
            // "--" marks the end of flags: everything after is a positional even if
            // it starts with '-'.
            self.only_positionals = true;
            self.state = CompletionState::Flag(None);
            assert(self.model() =~= spec_push(old(self).sig(), old(self).validates(), old(self).model(), arg@)->Ok_0);
            return Ok(());
        }
        if let Some(flag) = self.flag_awaiting_argument() {
            // The last token was a flag that takes an argument: this token is it.
            self.insert_flag(flag.name, arg);
            self.state = CompletionState::FlagArgument(flag);
            assert(self.model() =~= spec_push(old(self).sig(), old(self).validates(), old(self).model(), arg@)->Ok_0);
            return Ok(());
        }
        if !self.only_positionals && chars.len() > 0 && chars[0] == '-' {
            match lookup_flag_exec(self.signature.flags, &chars) {
                None => {
                    if self.validate {
                        return Err(ParseArgsError::UnknownFlag { text: arg });
                    }
                    self.positionals.push(arg);
                    self.state = CompletionState::Flag(None);
                    assert(self.model() =~= spec_push(old(self).sig(), old(self).validates(), old(self).model(), arg@)->Ok_0);
                    return Ok(());
                },
                Some(flag) => {
                    proof {
                        lemma_pairs_to_map_dom(self.flags@, flag.name@);
                    }
                    if self.validate && self.flag_index(flag.name).is_some() {
                        return Err(ParseArgsError::DuplicatedFlag { flag: flag.name });
                    }
                    self.insert_flag(flag.name, String::new());
                    self.state = CompletionState::Flag(Some(flag));
                    assert(self.model() =~= spec_push(old(self).sig(), old(self).validates(), old(self).model(), arg@)->Ok_0);
                    return Ok(());
                },
            }
        }
        // Otherwise this token is a positional argument.
        self.positionals.push(arg);
        self.state = CompletionState::Positional;
        assert(self.model() =~= spec_push(old(self).sig(), old(self).validates(), old(self).model(), arg@)->Ok_0);
        Ok(())
    }

    /// Performs the validations that are done once every argument has been pushed.
    ///
    /// A caller that changes tokens before they become arguments (as the editor
    /// does to expand `%` expansions) reads them with `read_token`, pushes what it
    /// makes of each with `push`, and ends with `finish`: `parse` is that loop with
    /// each token's content pushed as it is.
    pub fn finish(&self) -> (r: Result<(), ParseArgsError>)
        ensures
            match spec_finish(self.sig(), self.validates(), self.model()) {
                Ok(()) => r is Ok,
                Err(e) => r matches Err(err) && err@ == e,
            },
    {
        if !self.validate {
            return Ok(());
        }
        if let Some(flag) = self.flag_awaiting_argument() {
            return Err(ParseArgsError::FlagMissingArgument { flag: flag.name });
        }
        self.signature.check_positional_count(self.positionals.len())
    }
}

impl Args {
    /// Reads the next token out of the given tokenizer.
    ///
    /// Once the signature's `raw_after` number of positionals has been read, the
    /// token is the rest of the input and every later argument is a positional.
    pub fn read_token(&mut self, parser: &mut Tokenizer) -> (r: Result<Option<Token>, TokenizeError>)
        ensures
            final(self).sig() == old(self).sig(),
            final(self).validates() == old(self).validates(),
            final(parser).input() == old(parser).input(),
            final(parser).validates() == old(parser).validates(),
            if raw_now(old(self).sig(), old(self).model()) {
                &&& final(self).model() == (ArgsModel {
                    only_positionals: true,
                    state: old(self).model().state,
                    positionals: old(self).model().positionals,
                    flags: old(self).model().flags,
                })
                &&& final(parser).pos() == old(parser).input().len()
                &&& match rest_token(old(parser).input(), old(parser).pos() as int) {
                    None => r matches Ok(None),
                    Some(tok) => r matches Ok(Some(t)) && t@ == tok,
                }
            } else {
                &&& final(self).model() == old(self).model()
                &&& match next_token(old(parser).input(), old(parser).pos() as int) {
                    None => r matches Ok(None) && final(parser).pos() == old(parser).input().len(),
                    Some((tok, end)) => {
                        &&& final(parser).pos() == end
                        &&& if old(parser).validates() && token_error(
                            old(parser).input(),
                            old(parser).pos() as int,
                        ) is Some {
                            r matches Err(e) && Some(e@) == token_error(
                                old(parser).input(),
                                old(parser).pos() as int,
                            )
                        } else {
                            r matches Ok(Some(t)) && t@ == tok
                        }
                    },
                }
            },
    {
        let raw = match self.signature.raw_after {
            Some(max) => self.positionals.len() >= max as usize,
            None => false,
        };
        if raw {
            self.only_positionals = true;
            assert(self.model() =~= (ArgsModel {
                only_positionals: true,
                state: old(self).model().state,
                positionals: old(self).model().positionals,
                flags: old(self).model().flags,
            }));
            Ok(parser.rest())
        } else {
            match parser.next() {
                None => Ok(None),
                Some(Ok(token)) => Ok(Some(token)),
                Some(Err(e)) => Err(e),
            }
        }
    }

    /// Parses the given command line according to a command's signature.
    pub fn parse(line: &str, signature: Signature, validate: bool) -> (r: Result<Args, ParseError>)
        ensures
            match spec_parse(signature, validate, line@) {
                Ok(m) => r matches Ok(a) && a.model() == m && a.sig() == signature && a.validates()
                    == validate,
                Err(e) => r matches Err(err) && err@ == e,
            },
    {
        let mut tokenizer = Tokenizer::new(line, validate);
        let mut args = Args::new(signature, validate);
        let ghost s = line@;
        let ghost goal = spec_parse(signature, validate, s);
        loop
            invariant
                tokenizer.input() == s,
                tokenizer.validates() == validate,
                tokenizer.pos() <= s.len(),
                args.sig() == signature,
                args.validates() == validate,
                goal == spec_parse(signature, validate, s),
                s == line@,
                parse_from(signature, validate, s, tokenizer.pos() as int, args.model()) == goal,
            decreases s.len() - tokenizer.pos(),
        {
            let ghost pos = tokenizer.pos() as int;
            let ghost m = args.model();
            proof {
                lemma_next_token_advances(s, pos);
                lemma_blanks_end(s, pos);
            }
            match args.read_token(&mut tokenizer) {
                Err(e) => {
                    return Err(ParseError::Tokenize(e));
                },
                Ok(None) => {
                    return match args.finish() {
                        Err(e) => Err(ParseError::Args(e)),
                        Ok(()) => Ok(args),
                    };
                },
                Ok(Some(token)) => {
                    match args.push(token.content) {
                        Err(e) => {
                            return Err(ParseError::Args(e));
                        },
                        Ok(()) => {},
                    }
                },
            }
        }
    }
}

impl Default for Args {
    /// Unvalidated arguments of the default signature, with nothing read.
    fn default() -> (a: Args)
        ensures
            a.model() == initial_model(),
            a.sig().positionals == (0usize, Option::<usize>::None),
            a.sig().raw_after is None,
            a.sig().flags@.len() == 0,
            !a.validates(),
    {
        Args::new(Signature::default(), false)
    }
}

/// Every flag that `find_long` returns is one of `flags`.
proof fn lemma_find_long_member(flags: Seq<Flag>, name: Seq<char>)
    ensures
        find_long(flags, name) matches Some(f) ==> flags.contains(f) && f.name@ == name,
    decreases flags.len(),
{
    if flags.len() > 0 && flags[0].name@ != name {
        lemma_find_long_member(flags.drop_first(), name);
        if let Some(f) = find_long(flags.drop_first(), name) {
            let i = choose|i: int| 0 <= i < flags.drop_first().len() && flags.drop_first()[i] == f;
            assert(flags[i + 1] == f);
        }
    } else if flags.len() > 0 {
        assert(flags[0] == flags[0]);
    }
}

/// Every flag that `find_short` returns is one of `flags`.
proof fn lemma_find_short_member(flags: Seq<Flag>, rest: Seq<char>)
    ensures
        find_short(flags, rest) matches Some(f) ==> flags.contains(f),
    decreases flags.len(),
{
    if flags.len() > 0 && !(flags[0].alias matches Some(c) && rest == seq![c]) {
        lemma_find_short_member(flags.drop_first(), rest);
        if let Some(f) = find_short(flags.drop_first(), rest) {
            let i = choose|i: int| 0 <= i < flags.drop_first().len() && flags.drop_first()[i] == f;
            assert(flags[i + 1] == f);
        }
    } else if flags.len() > 0 {
        assert(flags[0] == flags[0]);
    }
}

/// The flags of a model all belong to the signature: every recorded name is the
/// name of one of its flags, and the flag the completion state refers to is one
/// of them.
pub open spec fn flags_from_signature(sig: Signature, m: ArgsModel) -> bool {
    &&& forall|k: Seq<char>| #[trigger]
        m.flags.dom().contains(k) ==> exists|i: int|
            0 <= i < sig.flags@.len() && #[trigger] sig.flags@[i].name@ == k
    &&& match m.state {
        CompletionState::Flag(Some(f)) => sig.flags@.contains(f),
        CompletionState::FlagArgument(f) => sig.flags@.contains(f),
        _ => true,
    }
}

proof fn lemma_push_keeps_flags_from_signature(sig: Signature, validate: bool, m: ArgsModel, arg: Seq<char>)
    requires
        flags_from_signature(sig, m),
    ensures
        spec_push(sig, validate, m, arg) matches Ok(m2) ==> flags_from_signature(sig, m2),
{
    if !m.only_positionals && arg.len() > 0 && arg[0] == '-' {
        if arg.len() >= 2 && arg[0] == '-' && arg[1] == '-' {
            lemma_find_long_member(sig.flags@, arg.subrange(2, arg.len() as int));
        } else {
            lemma_find_short_member(sig.flags@, arg.subrange(1, arg.len() as int));
        }
    }
    if let Ok(m2) = spec_push(sig, validate, m, arg) {
        assert forall|k: Seq<char>| #[trigger] m2.flags.dom().contains(k) implies exists|i: int|
            0 <= i < sig.flags@.len() && #[trigger] sig.flags@[i].name@ == k by {
            if !m.flags.dom().contains(k) {
                let f = match m2.state {
                    CompletionState::Flag(Some(f)) => f,
                    CompletionState::FlagArgument(f) => f,
                    _ => arbitrary(),
                };
                let i = choose|i: int| 0 <= i < sig.flags@.len() && sig.flags@[i] == f;
                assert(sig.flags@[i].name@ == k);
            }
        }
    }
}

/// Whatever the input, parsing without validation succeeds.
pub proof fn lemma_unvalidated_parse_from_succeeds(sig: Signature, s: Seq<char>, pos: int, m: ArgsModel)
    requires
        0 <= pos <= s.len(),
    ensures
        parse_from(sig, false, s, pos, m) is Ok,
    decreases s.len() - pos,
{
    lemma_next_token_advances(s, pos);
    lemma_blanks_end(s, pos);
    if raw_now(sig, m) {
        let m1 = ArgsModel {
            only_positionals: true,
            state: m.state,
            positionals: m.positionals,
            flags: m.flags,
        };
        if let Some(tok) = rest_token(s, pos) {
            if let Ok(m2) = spec_push(sig, false, m1, tok.content) {
                lemma_unvalidated_parse_from_succeeds(sig, s, s.len() as int, m2);
            }
        }
    } else {
        if let Some((tok, end)) = next_token(s, pos) {
            if let Ok(m2) = spec_push(sig, false, m, tok.content) {
                lemma_unvalidated_parse_from_succeeds(sig, s, end, m2);
            }
        }
    }
}

/// Without validation (as when completing a command line that is still being
/// typed), every command line parses.
pub proof fn law_unvalidated_parse_succeeds(sig: Signature, s: Seq<char>)
    ensures
        spec_parse(sig, false, s) is Ok,
{
    lemma_unvalidated_parse_from_succeeds(sig, s, 0, initial_model());
}

proof fn lemma_validated_parse_from(sig: Signature, s: Seq<char>, pos: int, m: ArgsModel)
    requires
        0 <= pos <= s.len(),
        flags_from_signature(sig, m),
    ensures
        parse_from(sig, true, s, pos, m) matches Ok(r) ==> {
            &&& positional_count_ok(sig, r.positionals.len())
            &&& awaiting(r.state) is None
            &&& flags_from_signature(sig, r)
        },
    decreases s.len() - pos,
{
    lemma_next_token_advances(s, pos);
    lemma_blanks_end(s, pos);
    if raw_now(sig, m) {
        let m1 = ArgsModel {
            only_positionals: true,
            state: m.state,
            positionals: m.positionals,
            flags: m.flags,
        };
        if let Some(tok) = rest_token(s, pos) {
            lemma_push_keeps_flags_from_signature(sig, true, m1, tok.content);
            if let Ok(m2) = spec_push(sig, true, m1, tok.content) {
                lemma_validated_parse_from(sig, s, s.len() as int, m2);
            }
        }
    } else {
        if let Some((tok, end)) = next_token(s, pos) {
            lemma_push_keeps_flags_from_signature(sig, true, m, tok.content);
            if let Ok(m2) = spec_push(sig, true, m, tok.content) {
                lemma_validated_parse_from(sig, s, end, m2);
            }
        }
    }
}

/// A command line accepted with validation has a number of positionals within the
/// signature's range, leaves no flag waiting for its argument, and gives only flags
/// of the signature.
pub proof fn law_validated_parse_respects_signature(sig: Signature, s: Seq<char>)
    ensures
        spec_parse(sig, true, s) matches Ok(m) ==> {
            &&& positional_count_ok(sig, m.positionals.len())
            &&& awaiting(m.state) is None
            &&& forall|k: Seq<char>| #[trigger]
                m.flags.dom().contains(k) ==> exists|i: int|
                    0 <= i < sig.flags@.len() && #[trigger] sig.flags@[i].name@ == k
        },
{
    lemma_validated_parse_from(sig, s, 0, initial_model());
}

/// `--` ends the flags: once it has been read (and no flag awaits its argument),
/// every later argument is a positional, taken as it is, even one that starts
/// with `-`.
pub proof fn law_separator_ends_flags(sig: Signature, validate: bool, m: ArgsModel, arg: Seq<char>)
    requires
        !m.only_positionals,
    ensures
        spec_push(sig, validate, m, seq!['-', '-']) == Ok::<ArgsModel, ArgsFault>(
            ArgsModel {
                only_positionals: true,
                state: CompletionState::Flag(None),
                positionals: m.positionals,
                flags: m.flags,
            },
        ),
        awaiting(CompletionState::Flag(None)) is None,
        ({
            let after = ArgsModel {
                only_positionals: true,
                state: CompletionState::Flag(None),
                positionals: m.positionals,
                flags: m.flags,
            };
            spec_push(sig, validate, after, arg) == Ok::<ArgsModel, ArgsFault>(
                ArgsModel {
                    only_positionals: true,
                    state: CompletionState::Positional,
                    positionals: m.positionals.push(arg),
                    flags: m.flags,
                },
            )
        }),
{
}

/// Once only positionals are read and no flag awaits its argument, every further
/// argument is appended to the positionals as it is.
pub proof fn law_only_positionals(sig: Signature, validate: bool, m: ArgsModel, arg: Seq<char>)
    requires
        m.only_positionals,
        awaiting(m.state) is None,
    ensures
        spec_push(sig, validate, m, arg) == Ok::<ArgsModel, ArgsFault>(
            ArgsModel {
                only_positionals: true,
                state: CompletionState::Positional,
                positionals: m.positionals.push(arg),
                flags: m.flags,
            },
        ),
{
}

/// With `raw_after` set to zero, the whole command line (leading whitespace
/// skipped) is the one positional argument: quotes, escapes and flags in it are
/// taken literally.
pub proof fn law_raw_from_start(sig: Signature, validate: bool, s: Seq<char>)
    requires
        sig.raw_after == Some(0u8),
        blanks_end(s, 0) < s.len(),
    ensures
        ({
            let m = ArgsModel {
                only_positionals: true,
                state: CompletionState::Positional,
                positionals: seq![s.subrange(blanks_end(s, 0), s.len() as int)],
                flags: Map::empty(),
            };
            spec_parse(sig, validate, s) == finish_model(sig, validate, m)
        }),
{
    lemma_blanks_end(s, 0);
    lemma_blanks_end(s, s.len() as int);
    let m1 = ArgsModel {
        only_positionals: true,
        state: CompletionState::Positional,
        positionals: Seq::empty(),
        flags: Map::empty(),
    };
    let rest = s.subrange(blanks_end(s, 0), s.len() as int);
    let m2 = ArgsModel {
        only_positionals: true,
        state: CompletionState::Positional,
        positionals: seq![rest],
        flags: Map::empty(),
    };
    assert(Seq::<Seq<char>>::empty().push(rest) =~= seq![rest]);
    assert(spec_push(sig, validate, m1, rest) == Ok::<ArgsModel, ArgsFault>(m2));
    assert(rest_token(s, s.len() as int) is None);
    assert(parse_from(sig, validate, s, s.len() as int, m2) == finish_model(sig, validate, m2));
    assert(initial_model().positionals.len() == 0);
}

/// The separator-joined concatenation of `parts`.
pub open spec fn join_seq(parts: Seq<Seq<char>>, sep: Seq<char>) -> Seq<char>
    decreases parts.len(),
{
    if parts.len() == 0 {
        Seq::empty()
    } else if parts.len() == 1 {
        parts[0]
    } else {
        join_seq(parts.drop_last(), sep) + sep + parts.last()
    }
}


proof fn lemma_find_long_named(flags: Seq<Flag>, name: Seq<char>, i: int)
    requires
        0 <= i < flags.len(),
        flags[i].name@ == name,
    ensures
        find_long(flags, name) matches Some(f) && f.name@ == name,
    decreases flags.len(),
{
    if flags[0].name@ != name {
        assert(flags.drop_first()[i - 1] == flags[i]);
        lemma_find_long_named(flags.drop_first(), name, i - 1);
    }
}

proof fn lemma_find_short_first(flags: Seq<Flag>, c: char, i: int)
    requires
        0 <= i < flags.len(),
        flags[i].alias == Some(c),
        forall|j: int| 0 <= j < i ==> flags[j].alias != Some(c),
    ensures
        find_short(flags, seq![c]) == Some(flags[i]),
    decreases flags.len(),
{
    if i > 0 {
        assert(flags[0].alias != Some(c));
        if let Some(d) = flags[0].alias {
            assert(seq![c] != seq![d]) by {
                assert(seq![c][0] != seq![d][0]);
            }
        }
        let rest = flags.drop_first();
        assert(rest[i - 1] == flags[i]);
        assert forall|j: int| 0 <= j < i - 1 implies rest[j].alias != Some(c) by {
            assert(rest[j] == flags[j + 1]);
        }
        lemma_find_short_first(rest, c, i - 1);
    }
}

/// With validation, a `--name` token that names a flag of the signature whose
/// name is already recorded is refused as a duplicate of that flag, whether or
/// not the flag takes an argument.
pub proof fn law_validated_duplicate_long_flag(sig: Signature, m: ArgsModel, i: int)
    requires
        0 <= i < sig.flags@.len(),
        sig.flags@[i].name@.len() > 0,
        !m.only_positionals,
        awaiting(m.state) is None,
        m.flags.dom().contains(sig.flags@[i].name@),
    ensures
        spec_push(sig, true, m, seq!['-', '-'] + sig.flags@[i].name@) == Err::<ArgsModel, ArgsFault>(
            ArgsFault::DuplicatedFlag { flag: sig.flags@[i].name@ },
        ),
{
    let name = sig.flags@[i].name@;
    let arg = seq!['-', '-'] + name;
    assert(arg != seq!['-', '-']) by {
        assert(arg.len() != 2);
    }
    assert(arg.subrange(2, arg.len() as int) =~= name);
    lemma_find_long_named(sig.flags@, name, i);
}

/// With validation, a `-c` token whose shorthand belongs to a flag of the
/// signature that is already recorded is refused as a duplicate of that flag
/// (the first flag with that shorthand), whether or not it takes an argument.
pub proof fn law_validated_duplicate_short_flag(sig: Signature, m: ArgsModel, i: int, c: char)
    requires
        0 <= i < sig.flags@.len(),
        sig.flags@[i].alias == Some(c),
        forall|j: int| 0 <= j < i ==> sig.flags@[j].alias != Some(c),
        c != '-',
        !m.only_positionals,
        awaiting(m.state) is None,
        m.flags.dom().contains(sig.flags@[i].name@),
    ensures
        spec_push(sig, true, m, seq!['-', c]) == Err::<ArgsModel, ArgsFault>(
            ArgsFault::DuplicatedFlag { flag: sig.flags@[i].name@ },
        ),
{
    let arg = seq!['-', c];
    assert(arg != seq!['-', '-']) by {
        assert(arg[1] != seq!['-', '-'][1]);
    }
    assert(arg.subrange(1, 2) =~= seq![c]);
    lemma_find_short_first(sig.flags@, c, i);
}


proof fn lemma_find_long_none(flags: Seq<Flag>, name: Seq<char>)
    requires
        forall|j: int| 0 <= j < flags.len() ==> flags[j].name@ != name,
    ensures
        find_long(flags, name) is None,
    decreases flags.len(),
{
    if flags.len() > 0 {
        let rest = flags.drop_first();
        assert forall|j: int| 0 <= j < rest.len() implies rest[j].name@ != name by {
            assert(rest[j] == flags[j + 1]);
        }
        lemma_find_long_none(rest, name);
    }
}

proof fn lemma_find_long_first(flags: Seq<Flag>, name: Seq<char>, i: int)
    requires
        0 <= i < flags.len(),
        flags[i].name@ == name,
        forall|j: int| 0 <= j < i ==> flags[j].name@ != name,
    ensures
        find_long(flags, name) == Some(flags[i]),
    decreases flags.len(),
{
    if i > 0 {
        let rest = flags.drop_first();
        assert(rest[i - 1] == flags[i]);
        assert forall|j: int| 0 <= j < i - 1 implies rest[j].name@ != name by {
            assert(rest[j] == flags[j + 1]);
        }
        lemma_find_long_first(rest, name, i - 1);
    }
}

/// A token that does not start with `-` (nor is a flag's awaited argument) is
/// appended as a positional; the flags stay.
pub proof fn law_plain_token_is_positional(sig: Signature, validate: bool, m: ArgsModel, arg: Seq<char>)
    requires
        arg.len() == 0 || arg[0] != '-',
        awaiting(m.state) is None,
    ensures
        spec_push(sig, validate, m, arg) matches Ok(r) && r.positionals == m.positionals.push(arg) && r.flags
            == m.flags && r.only_positionals == m.only_positionals,
{
    if arg == seq!['-', '-'] {
        assert(arg[0] == '-');
    }
}

/// After a flag that takes an argument, the next token (other than a `--` that
/// ends the flags) is that flag's argument: it is recorded under the flag's name
/// and the positionals stay.
pub proof fn law_awaited_argument_recorded(sig: Signature, validate: bool, m: ArgsModel, f: Flag, arg: Seq<char>)
    requires
        m.state == CompletionState::Flag(Some(f)),
        f.completer is Some,
        m.only_positionals || arg != seq!['-', '-'],
    ensures
        spec_push(sig, validate, m, arg) matches Ok(r) && r.flags == m.flags.insert(f.name@, arg) && r.positionals
            == m.positionals,
{
}

/// A `--name` token for a flag of the signature not yet given records that flag
/// (with an empty value until its argument comes) and adds no positional; the
/// flag is the first of the signature with that name.
pub proof fn law_new_long_flag_recorded(sig: Signature, validate: bool, m: ArgsModel, i: int)
    requires
        0 <= i < sig.flags@.len(),
        sig.flags@[i].name@.len() > 0,
        forall|j: int| 0 <= j < i ==> sig.flags@[j].name@ != sig.flags@[i].name@,
        !m.only_positionals,
        awaiting(m.state) is None,
        !m.flags.dom().contains(sig.flags@[i].name@),
    ensures
        spec_push(sig, validate, m, seq!['-', '-'] + sig.flags@[i].name@) matches Ok(r) && r.flags == m.flags.insert(
            sig.flags@[i].name@,
            Seq::empty(),
        ) && r.positionals == m.positionals && r.state == CompletionState::Flag(Some(sig.flags@[i])),
{
    let name = sig.flags@[i].name@;
    let arg = seq!['-', '-'] + name;
    assert(arg != seq!['-', '-']) by {
        assert(arg.len() != 2);
    }
    assert(arg.subrange(2, arg.len() as int) =~= name);
    lemma_find_long_first(sig.flags@, name, i);
}

/// With validation, a `--name` token naming no flag of the signature is refused as
/// unknown, with the token as given.
pub proof fn law_validated_unknown_long_flag(sig: Signature, m: ArgsModel, name: Seq<char>)
    requires
        name.len() > 0,
        forall|j: int| 0 <= j < sig.flags@.len() ==> sig.flags@[j].name@ != name,
        !m.only_positionals,
        awaiting(m.state) is None,
    ensures
        spec_push(sig, true, m, seq!['-', '-'] + name) == Err::<ArgsModel, ArgsFault>(
            ArgsFault::UnknownFlag { text: seq!['-', '-'] + name },
        ),
{
    let arg = seq!['-', '-'] + name;
    assert(arg != seq!['-', '-']) by {
        assert(arg.len() != 2);
    }
    assert(arg.subrange(2, arg.len() as int) =~= name);
    lemma_find_long_none(sig.flags@, name);
}

} // verus!
