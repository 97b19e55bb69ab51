//! The grammar of command-line options.
//!
//! An argument is one of: the terminator `--`, after which everything is
//! positional; a long option `--name` or `--name=value`; a short option
//! `-x` or `-xvalue`; or a positional argument. An option that takes a
//! value and has none attached takes the next argument as its value,
//! whatever it is.

use crate::context::{argument_error, ErrorView};
use crate::error::Error;
use crate::text::{clone_from, concat_str, join_words, opt_view, str_eq, words};
use vstd::prelude::*;

verus! {

/// An option that a command accepts.
#[derive(Debug)]
pub struct Flag {
    /// The name after `--`.
    pub long: String,
    /// The letter after `-`, if the option has one.
    pub short: Option<char>,
    /// The option takes a value; else it is a switch.
    pub takes_value: bool,
}

/// What an argument is, by its shape alone.
pub enum Token {
    /// `--`: the end of the options.
    Terminator,
    /// `--name` or `--name=value`.
    Long { name: Seq<char>, value: Option<Seq<char>> },
    /// `-x`, with what is attached to it.
    Short { letter: char, attached: Seq<char> },
    /// Anything else.
    Positional,
}

/// The position of the first `=` of `t` at or after `from`; the length of
/// `t` if there is none.
pub open spec fn first_equals(t: Seq<char>, from: int) -> int
    decreases t.len() - from,
{
    if from < 0 || from >= t.len() {
        t.len() as int
    } else if t[from] == '=' {
        from
    } else {
        first_equals(t, from + 1)
    }
}

/// The shape of the argument `t`.
pub open spec fn classify(t: Seq<char>) -> Token {
    if t.len() >= 2 && t[0] == '-' && t[1] == '-' {
        if t.len() == 2 {
            Token::Terminator
        } else {
            let e = first_equals(t, 2);
            Token::Long {
                name: t.subrange(2, e),
                value: if e < t.len() {
                    Some(t.subrange(e + 1, t.len() as int))
                } else {
                    None
                },
            }
        }
    } else if t.len() >= 2 && t[0] == '-' {
        Token::Short { letter: t[1], attached: t.skip(2) }
    } else {
        Token::Positional
    }
}

/// The shape of an argument with the strings it is made of.
pub enum Shape {
    Terminator,
    Long { name: String, value: Option<String> },
    Short { letter: char, attached: String },
    Positional,
}

impl View for Shape {
    type V = Token;

    open spec fn view(&self) -> Token {
        match self {
            Shape::Terminator => Token::Terminator,
            Shape::Long { name, value } => Token::Long {
                name: name@,
                value: match value {
                    Some(v) => Some(v@),
                    None => None,
                },
            },
            Shape::Short { letter, attached } => Token::Short {
                letter: *letter,
                attached: attached@,
            },
            Shape::Positional => Token::Positional,
        }
    }
}

/// The shape of the argument `t`.
pub fn shape_of(t: &str) -> (s: Shape)
    ensures
        s@ == classify(t@),
{
    let n: usize = t.unicode_len();
    if n < 2 || t.get_char(0) != '-' {
        return Shape::Positional;
    }
    if t.get_char(1) != '-' {
        let attached = String::from_str(t.substring_char(2, n));
        assert(attached@ =~= t@.skip(2));
        return Shape::Short { letter: t.get_char(1), attached };
    }
    if n == 2 {
        return Shape::Terminator;
    }
    let mut e: usize = 2;
    while e < n && t.get_char(e) != '='
        invariant
            2 <= e <= n,
            n == t@.len(),
            first_equals(t@, 2) == first_equals(t@, e as int),
        decreases n - e,
    {
        e = e + 1;
    }
    let name = String::from_str(t.substring_char(2, e));
    let value = if e < n {
        Some(String::from_str(t.substring_char(e + 1, n)))
    } else {
        None
    };
    Shape::Long { name, value }
}

/// The characters of a [`Flag`].
pub struct FlagView {
    pub long: Seq<char>,
    pub short: Option<char>,
    pub takes_value: bool,
}

impl View for Flag {
    type V = FlagView;

    open spec fn view(&self) -> FlagView {
        FlagView { long: self.long@, short: self.short, takes_value: self.takes_value }
    }
}

/// The views of the flags of `table`.
pub open spec fn table_view(table: Seq<Flag>) -> Seq<FlagView> {
    Seq::new(table.len(), |i: int| table[i]@)
}

/// The position of the first flag of `table`, from `from` on, whose long
/// name is `name`.
pub open spec fn find_long(table: Seq<FlagView>, name: Seq<char>, from: int) -> Option<int>
    decreases table.len() - from,
{
    if from < 0 || from >= table.len() {
        None
    } else if table[from].long == name {
        Some(from)
    } else {
        find_long(table, name, from + 1)
    }
}

/// The position of the first flag of `table`, from `from` on, whose
/// letter is `letter`.
pub open spec fn find_short(table: Seq<FlagView>, letter: char, from: int) -> Option<int>
    decreases table.len() - from,
{
    if from < 0 || from >= table.len() {
        None
    } else if table[from].short == Some(letter) {
        Some(from)
    } else {
        find_short(table, letter, from + 1)
    }
}

/// What was found on a command line: for each flag of the table its
/// value, if the flag was given (a switch has the empty value), and the
/// positional arguments in order.
#[derive(Debug)]
pub struct Matches {
    pub values: Vec<Option<String>>,
    pub positionals: Vec<String>,
}

/// The characters of a [`Matches`].
pub struct MatchesView {
    pub values: Seq<Option<Seq<char>>>,
    pub positionals: Seq<Seq<char>>,
}

/// The characters of each value of `v`.
pub open spec fn values_view(v: Seq<Option<String>>) -> Seq<Option<Seq<char>>> {
    Seq::new(
        v.len(),
        |i: int|
            match v[i] {
                Some(s) => Some(s@),
                None => None,
            },
    )
}

impl View for Matches {
    type V = MatchesView;

    open spec fn view(&self) -> MatchesView {
        MatchesView { values: values_view(self.values@), positionals: words(self.positionals@) }
    }
}

/// The view of what was found, or of the error in its place.
pub open spec fn matches_view(r: Result<Matches, Error>) -> Result<MatchesView, ErrorView> {
    match r {
        Ok(m) => Ok(m@),
        Err(e) => Err(e@),
    }
}

/// Nothing found yet, for a table of `n` flags.
pub open spec fn no_matches(n: nat) -> MatchesView {
    MatchesView {
        values: Seq::new(n, |i: int| None::<Seq<char>>),
        positionals: Seq::<Seq<char>>::empty(),
    }
}

/// The message that names `token` between `before` and `after`.
pub open spec fn about(before: Seq<char>, token: Seq<char>, after: Seq<char>) -> ErrorView {
    argument_error(before + token + after)
}

/// The error for an option that the command does not have.
pub open spec fn unexpected_argument(token: Seq<char>) -> ErrorView {
    about("unexpected argument '"@, token, "'"@)
}

/// The error for an option that is given twice.
pub open spec fn repeated_argument(token: Seq<char>) -> ErrorView {
    about("the argument '"@, token, "' was given more than once"@)
}

/// The error for an option that lacks its value.
pub open spec fn missing_value(token: Seq<char>) -> ErrorView {
    about("the argument '"@, token, "' requires a value"@)
}

/// The error for a switch that is given a value.
pub open spec fn unexpected_value(token: Seq<char>) -> ErrorView {
    about("the argument '"@, token, "' takes no value"@)
}

/// An error that names `token` between `before` and `after`.
pub fn error_about(before: &str, token: &str, after: &str) -> (e: Error)
    ensures
        e@ == about(before@, token@, after@),
{
    let mut message = concat_str(before, token);
    message.append(after);
    Error::argument(message.as_str())
}

/// Where the reading of a command line stands after one option.
pub enum Advance {
    /// Reading goes on at this position, with this found so far.
    Next(int, MatchesView),
    /// The command line is in error.
    Fail(ErrorView),
}

/// Reads the option at position `i` of `args`, which is flag `k` of
/// `table` and has the value `inline` attached, if any. An option may be
/// given once. One that takes a value takes the attached one, else the
/// next argument. A switch takes none.
pub open spec fn take_option(
    table: Seq<FlagView>,
    args: Seq<Seq<char>>,
    i: int,
    found: MatchesView,
    k: int,
    inline: Option<Seq<char>>,
) -> Advance {
    if found.values[k] is Some {
        Advance::Fail(repeated_argument(args[i]))
    } else if table[k].takes_value {
        match inline {
            Some(v) => Advance::Next(
                i + 1,
                MatchesView {
                    values: found.values.update(k, Some(v)),
                    positionals: found.positionals,
                },
            ),
            None => if i + 1 < args.len() {
                Advance::Next(
                    i + 2,
                    MatchesView {
                        values: found.values.update(k, Some(args[i + 1])),
                        positionals: found.positionals,
                    },
                )
            } else {
                Advance::Fail(missing_value(args[i]))
            },
        }
    } else {
        match inline {
            Some(_) => Advance::Fail(unexpected_value(args[i])),
            None => Advance::Next(
                i + 1,
                MatchesView {
                    values: found.values.update(k, Some(Seq::<char>::empty())),
                    positionals: found.positionals,
                },
            ),
        }
    }
}

/// Reads the argument at position `i` of `args`, which is an option.
pub open spec fn read_option(
    table: Seq<FlagView>,
    args: Seq<Seq<char>>,
    i: int,
    found: MatchesView,
) -> Advance {
    match classify(args[i]) {
        Token::Long { name, value } => match find_long(table, name, 0) {
            Some(k) => take_option(table, args, i, found, k, value),
            None => Advance::Fail(unexpected_argument(args[i])),
        },
        Token::Short { letter, attached } => match find_short(table, letter, 0) {
            Some(k) => take_option(
                table,
                args,
                i,
                found,
                k,
                if attached.len() > 0 {
                    Some(attached)
                } else {
                    None
                },
            ),
            None => Advance::Fail(unexpected_argument(args[i])),
        },
        _ => Advance::Fail(unexpected_argument(args[i])),
    }
}

/// What is found on the command line `args` from position `i` on, for the
/// flags of `table`, given what was `found` before `i`.
pub open spec fn parse_from(
    table: Seq<FlagView>,
    args: Seq<Seq<char>>,
    i: int,
    found: MatchesView,
) -> Result<MatchesView, ErrorView>
    decreases args.len() - i,
{
    if i < 0 || i >= args.len() {
        Ok(found)
    } else {
        match classify(args[i]) {
            Token::Terminator => Ok(
                MatchesView {
                    values: found.values,
                    positionals: found.positionals + args.skip(i + 1),
                },
            ),
            Token::Positional => parse_from(
                table,
                args,
                i + 1,
                MatchesView {
                    values: found.values,
                    positionals: found.positionals.push(args[i]),
                },
            ),
            _ => match read_option(table, args, i, found) {
                Advance::Next(j, more) => if i < j {
                    parse_from(table, args, j, more)
                } else {
                    Ok(more)
                },
                Advance::Fail(e) => Err(e),
            },
        }
    }
}

fn lookup_long(table: &Vec<Flag>, name: &str) -> (r: Option<usize>)
    ensures
        match r {
            Some(k) => k < table@.len() && find_long(table_view(table@), name@, 0) == Some(
                k as int,
            ),
            None => find_long(table_view(table@), name@, 0) is None,
        },
{
    let mut k: usize = 0;
    while k < table.len()
        invariant
            k <= table@.len(),
            find_long(table_view(table@), name@, 0) == find_long(
                table_view(table@),
                name@,
                k as int,
            ),
        decreases table@.len() - k,
    {
        if str_eq(table[k].long.as_str(), name) {
            return Some(k);
        }
        k = k + 1;
    }
    None
}

fn lookup_short(table: &Vec<Flag>, letter: char) -> (r: Option<usize>)
    ensures
        match r {
            Some(k) => k < table@.len() && find_short(table_view(table@), letter, 0) == Some(
                k as int,
            ),
            None => find_short(table_view(table@), letter, 0) is None,
        },
{
    let mut k: usize = 0;
    while k < table.len()
        invariant
            k <= table@.len(),
            find_short(table_view(table@), letter, 0) == find_short(
                table_view(table@),
                letter,
                k as int,
            ),
        decreases table@.len() - k,
    {
        let hit = match table[k].short {
            Some(c) => c == letter,
            None => false,
        };
        if hit {
            return Some(k);
        }
        k = k + 1;
    }
    None
}

/// Stores `value` for flag `k`.
fn store(found: &mut Matches, k: usize, value: String)
    requires
        k < old(found).values@.len(),
    ensures
        final(found)@ == (MatchesView {
            values: old(found)@.values.update(k as int, Some(value@)),
            positionals: old(found)@.positionals,
        }),
        final(found).values@.len() == old(found).values@.len(),
{
    let ghost before = found.values@;
    found.values.set(k, Some(value));
    assert(values_view(found.values@) =~= values_view(before).update(k as int, Some(value@)));
}

/// Reads the option at position `i` and tells where reading goes on.
fn take(
    table: &Vec<Flag>,
    args: &Vec<String>,
    i: usize,
    found: &mut Matches,
    k: usize,
    inline: Option<String>,
) -> (r: Result<usize, Error>)
    requires
        i < args@.len(),
        k < table@.len(),
        old(found).values@.len() == table@.len(),
    ensures
        final(found).values@.len() == table@.len(),
        match take_option(
            table_view(table@),
            words(args@),
            i as int,
            old(found)@,
            k as int,
            opt_view(inline),
        ) {
            Advance::Next(j, more) => r == Ok::<usize, Error>(j as usize) && i < j <= args@.len()
                && final(found)@ == more,
            Advance::Fail(e) => r matches Err(x) && x@ == e,
        },
{
    let len: usize = args.len();
    let token = args[i].as_str();
    assert(words(args@)[i as int] == token@);
    assert(values_view(found.values@)[k as int] is Some == found.values@[k as int] is Some);
    if found.values[k].is_some() {
        return Err(error_about("the argument '", token, "' was given more than once"));
    }
    if table[k].takes_value {
        match inline {
            Some(v) => {
                store(found, k, v);
                Ok(i + 1)
            },
            None => {
                if i + 1 < args.len() {
                    assert(words(args@)[i + 1] == args@[i + 1]@);
                    store(found, k, args[i + 1].clone());
                    Ok(i + 2)
                } else {
                    Err(error_about("the argument '", token, "' requires a value"))
                }
            },
        }
    } else {
        match inline {
            Some(_) => Err(error_about("the argument '", token, "' takes no value")),
            None => {
                store(found, k, String::new());
                Ok(i + 1)
            },
        }
    }
}

/// Reads the command line `args` from position `start` on, for the flags
/// of `table`.
pub fn parse_options(table: &Vec<Flag>, args: &Vec<String>, start: usize) -> (r: Result<
    Matches,
    Error,
>)
    ensures
        matches_view(r) == parse_from(
            table_view(table@),
            words(args@),
            start as int,
            no_matches(table@.len()),
        ),
        r matches Ok(found) ==> found.values@.len() == table@.len(),
{
    let mut values: Vec<Option<String>> = Vec::new();
    let mut n: usize = 0;
    while n < table.len()
        invariant
            n <= table@.len(),
            values@.len() == n,
            forall|j: int| 0 <= j < n ==> values@[j] is None,
        decreases table@.len() - n,
    {
        values.push(None);
        n = n + 1;
    }
    let mut found = Matches { values, positionals: Vec::new() };
    assert(found@.values =~= no_matches(table@.len()).values);
    assert(found@.positionals =~= no_matches(table@.len()).positionals);
    let ghost goal = parse_from(
        table_view(table@),
        words(args@),
        start as int,
        no_matches(table@.len()),
    );
    if start > args.len() {
        return Ok(found);
    }
    let mut i: usize = start;
    while i < args.len()
        invariant
            start <= i <= args@.len(),
            found.values@.len() == table@.len(),
            goal == parse_from(
                table_view(table@),
                words(args@),
                start as int,
                no_matches(table@.len()),
            ),
            goal == parse_from(table_view(table@), words(args@), i as int, found@),
        decreases args@.len() - i,
    {
        let token = args[i].as_str();
        assert(words(args@)[i as int] == token@);
        match shape_of(token) {
            Shape::Terminator => {
                let rest = clone_from(args, i + 1);
                let Matches { values, positionals } = found;
                let all = join_words(positionals, rest);
                return Ok(Matches { values, positionals: all });
            },
            Shape::Positional => {
                let ghost before = found.positionals@;
                found.positionals.push(args[i].clone());
                assert(words(found.positionals@) =~= words(before).push(token@));
                i = i + 1;
            },
            Shape::Long { name, value } => {
                match lookup_long(table, name.as_str()) {
                    Some(k) => {
                        match take(table, args, i, &mut found, k, value) {
                            Ok(j) => {
                                i = j;
                            },
                            Err(e) => {
                                return Err(e);
                            },
                        }
                    },
                    None => {
                        return Err(error_about("unexpected argument '", token, "'"));
                    },
                }
            },
            Shape::Short { letter, attached } => {
                match lookup_short(table, letter) {
                    Some(k) => {
                        let inline = if attached.as_str().unicode_len() > 0 {
                            Some(attached)
                        } else {
                            None
                        };
                        match take(table, args, i, &mut found, k, inline) {
                            Ok(j) => {
                                i = j;
                            },
                            Err(e) => {
                                return Err(e);
                            },
                        }
                    },
                    None => {
                        return Err(error_about("unexpected argument '", token, "'"));
                    },
                }
            },
        }
    }
    Ok(found)
}

/// The switch that every command accepts: `--debug` or `-d`.
pub open spec fn debug_flag() -> FlagView {
    FlagView { long: "debug"@, short: Some('d'), takes_value: false }
}

/// A switch named `long`, with the letter `short`.
pub open spec fn switch(long: Seq<char>, short: Option<char>) -> FlagView {
    FlagView { long, short, takes_value: false }
}

/// An option named `long`, with the letter `short`, that takes a value.
pub open spec fn valued(long: Seq<char>, short: Option<char>) -> FlagView {
    FlagView { long, short, takes_value: true }
}

/// A flag named `long`, with the letter `short`.
pub fn flag(long: &str, short: Option<char>, takes_value: bool) -> (f: Flag)
    ensures
        f@ == (FlagView { long: long@, short, takes_value }),
{
    Flag { long: String::from_str(long), short, takes_value }
}

/// The flag for `--debug`.
pub fn debug_switch() -> (f: Flag)
    ensures
        f@ == debug_flag(),
{
    flag("debug", Some('d'), false)
}

/// The error for a command line that lacks the argument `name`.
pub open spec fn missing_argument(name: Seq<char>) -> ErrorView {
    about("the argument <"@, name, "> is required"@)
}

/// The one positional argument of `found`, which is called `name`: it
/// must be there, and no other.
pub open spec fn one_positional(found: MatchesView, name: Seq<char>) -> Result<
    Seq<char>,
    ErrorView,
> {
    if found.positionals.len() == 0 {
        Err(missing_argument(name))
    } else if found.positionals.len() > 1 {
        Err(unexpected_argument(found.positionals[1]))
    } else {
        Ok(found.positionals[0])
    }
}

/// The positional argument of `found`, or the empty string where there
/// is none; there must not be two.
pub open spec fn optional_positional(found: MatchesView) -> Result<Seq<char>, ErrorView> {
    if found.positionals.len() == 0 {
        Ok(Seq::<char>::empty())
    } else if found.positionals.len() > 1 {
        Err(unexpected_argument(found.positionals[1]))
    } else {
        Ok(found.positionals[0])
    }
}

/// `found` must hold no positional argument.
pub open spec fn no_positional(found: MatchesView) -> Option<ErrorView> {
    if found.positionals.len() > 0 {
        Some(unexpected_argument(found.positionals[0]))
    } else {
        None
    }
}

/// The characters of a string or of the error in its place.
pub open spec fn text_view(r: Result<String, Error>) -> Result<Seq<char>, ErrorView> {
    match r {
        Ok(s) => Ok(s@),
        Err(e) => Err(e@),
    }
}

/// The one positional argument of `found`, which is called `name`.
pub fn take_one_positional(found: &Matches, name: &str) -> (r: Result<String, Error>)
    ensures
        text_view(r) == one_positional(found@, name@),
{
    if found.positionals.len() == 0 {
        Err(error_about("the argument <", name, "> is required"))
    } else if found.positionals.len() > 1 {
        assert(words(found.positionals@)[1] == found.positionals@[1]@);
        Err(error_about("unexpected argument '", found.positionals[1].as_str(), "'"))
    } else {
        assert(words(found.positionals@)[0] == found.positionals@[0]@);
        Ok(found.positionals[0].clone())
    }
}

/// The positional argument of `found`, or the empty string.
pub fn take_optional_positional(found: &Matches) -> (r: Result<String, Error>)
    ensures
        text_view(r) == optional_positional(found@),
{
    if found.positionals.len() == 0 {
        Ok(String::new())
    } else if found.positionals.len() > 1 {
        assert(words(found.positionals@)[1] == found.positionals@[1]@);
        Err(error_about("unexpected argument '", found.positionals[1].as_str(), "'"))
    } else {
        assert(words(found.positionals@)[0] == found.positionals@[0]@);
        Ok(found.positionals[0].clone())
    }
}

/// Refuses a positional argument in `found`.
pub fn refuse_positionals(found: &Matches) -> (r: Result<(), Error>)
    ensures
        match r {
            Ok(_) => no_positional(found@) is None,
            Err(e) => no_positional(found@) == Some(e@),
        },
{
    if found.positionals.len() > 0 {
        assert(words(found.positionals@)[0] == found.positionals@[0]@);
        Err(error_about("unexpected argument '", found.positionals[0].as_str(), "'"))
    } else {
        Ok(())
    }
}

/// The value of flag `k` in `found`.
pub(crate) fn value_of(found: &Matches, k: usize) -> (r: Option<String>)
    requires
        k < found.values@.len(),
    ensures
        opt_view(r) == found@.values[k as int],
{
    match &found.values[k] {
        Some(v) => Some(v.clone()),
        None => None,
    }
}

/// Whether flag `k` was given in `found`.
pub(crate) fn is_given(found: &Matches, k: usize) -> (b: bool)
    requires
        k < found.values@.len(),
    ensures
        b == found@.values[k as int] is Some,
{
    found.values[k].is_some()
}

/// Where the command's name stands on a command line.
pub enum Scan {
    /// The name is at this position; before it, `--debug` was or was not
    /// given.
    Command(int, bool),
    /// The command line is in error.
    Fail(ErrorView),
}

/// The error for a command line without a command.
pub open spec fn missing_command() -> ErrorView {
    argument_error("a command is required"@)
}

/// `t` switches debugging on.
pub open spec fn is_debug(t: Seq<char>) -> bool {
    t == "--debug"@ || t == "-d"@
}

/// Looks for the command's name in `args` from position `i` on. Before
/// the name only the debug switch may stand.
pub open spec fn scan_from(args: Seq<Seq<char>>, i: int, debug: bool) -> Scan
    decreases args.len() - i,
{
    if i < 0 || i >= args.len() {
        Scan::Fail(missing_command())
    } else if is_debug(args[i]) {
        scan_from(args, i + 1, true)
    } else if classify(args[i]) is Positional {
        Scan::Command(i, debug)
    } else {
        Scan::Fail(unexpected_argument(args[i]))
    }
}

/// Looks for the command's name in `args` from position `start` on:
/// its position, and whether `--debug` stood before it.
pub fn scan(args: &Vec<String>, start: usize) -> (r: Result<(usize, bool), Error>)
    ensures
        match scan_from(words(args@), start as int, false) {
            Scan::Command(i, debug) => r == Ok::<(usize, bool), Error>((i as usize, debug))
                && start <= i < args@.len(),
            Scan::Fail(e) => r matches Err(x) && x@ == e,
        },
{
    if start > args.len() {
        return Err(Error::argument("a command is required"));
    }
    let mut i: usize = start;
    let mut debug = false;
    while i < args.len()
        invariant
            start <= i <= args@.len(),
            scan_from(words(args@), start as int, false) == scan_from(words(args@), i as int, debug),
        decreases args@.len() - i,
    {
        let token = args[i].as_str();
        assert(words(args@)[i as int] == token@);
        if str_eq(token, "--debug") || str_eq(token, "-d") {
            debug = true;
            i = i + 1;
        } else {
            match shape_of(token) {
                Shape::Positional => {
                    return Ok((i, debug));
                },
                _ => {
                    return Err(error_about("unexpected argument '", token, "'"));
                },
            }
        }
    }
    Err(Error::argument("a command is required"))
}

/// The number that the decimal digit `c` stands for.
pub open spec fn digit_of(c: char) -> Option<nat> {
    if 48 <= c as u32 <= 57 {
        Some((c as u32 - 48) as nat)
    } else {
        None
    }
}

/// The number that the decimal digits `s` stand for; `None` where `s` is
/// empty or holds anything but digits.
pub open spec fn decimal_value(s: Seq<char>) -> Option<nat>
    decreases s.len(),
{
    if s.len() == 0 {
        None
    } else {
        match digit_of(s.last()) {
            None => None,
            Some(d) => if s.len() == 1 {
                Some(d)
            } else {
                match decimal_value(s.drop_last()) {
                    Some(h) => Some(h * 10 + d),
                    None => None,
                }
            },
        }
    }
}

/// The number that `s` stands for: decimal digits, after an optional `+`,
/// whose value fits.
pub open spec fn u32_of(s: Seq<char>) -> Option<u32> {
    let digits = if s.len() > 0 && s[0] == '+' {
        s.skip(1)
    } else {
        s
    };
    match decimal_value(digits) {
        Some(n) => if n <= u32::MAX {
            Some(n as u32)
        } else {
            None
        },
        None => None,
    }
}

/// Digits with anything else among them stand for no number.
proof fn lemma_not_a_digit(s: Seq<char>, k: int)
    requires
        0 <= k < s.len(),
        digit_of(s[k]) is None,
    ensures
        decimal_value(s) is None,
    decreases s.len(),
{
    if k < s.len() - 1 {
        lemma_not_a_digit(s.drop_last(), k);
    }
}

/// The digits before position `k` stand for a number that is no greater
/// than the whole.
proof fn lemma_prefix_value(s: Seq<char>, k: int)
    requires
        0 < k <= s.len(),
        decimal_value(s) is Some,
    ensures
        decimal_value(s.take(k)) is Some,
        decimal_value(s.take(k))->0 <= decimal_value(s)->0,
    decreases s.len(),
{
    if k == s.len() {
        assert(s.take(k) =~= s);
    } else {
        lemma_prefix_value(s.drop_last(), k);
        assert(s.drop_last().take(k) =~= s.take(k));
    }
}

/// The number that `s` stands for, if it stands for one.
pub fn parse_u32(s: &str) -> (r: Option<u32>)
    ensures
        r == u32_of(s@),
{
    let n: usize = s.unicode_len();
    let start: usize = if n > 0 && s.get_char(0) == '+' {
        1
    } else {
        0
    };
    let ghost digits = if s@.len() > 0 && s@[0] == '+' {
        s@.skip(1)
    } else {
        s@
    };
    assert(digits =~= s@.skip(start as int));
    if start == n {
        return None;
    }
    let mut acc: u64 = 0;
    let mut i: usize = start;
    while i < n
        invariant
            start <= i <= n,
            start < n,
            n == s@.len(),
            digits == s@.skip(start as int),
            digits == (if s@.len() > 0 && s@[0] == '+' {
                s@.skip(1)
            } else {
                s@
            }),
            acc <= u32::MAX,
            i == start ==> acc == 0,
            i > start ==> decimal_value(digits.take(i - start)) == Some(acc as nat),
        decreases n - i,
    {
        let c = s.get_char(i);
        let code: u32 = c as u32;
        assert(digits[i - start] == c);
        if code < 48 || code > 57 {
            proof {
                lemma_not_a_digit(digits, i - start);
            }
            return None;
        }
        let d: u64 = (code - 48) as u64;
        let ghost before = digits.take(i - start);
        let ghost next = digits.take(i - start + 1);
        assert(next.drop_last() =~= before);
        assert(next.last() == c);
        acc = acc * 10 + d;
        assert(decimal_value(next) == Some(acc as nat));
        if acc > 0xffff_ffff {
            proof {
                if decimal_value(digits) is Some {
                    lemma_prefix_value(digits, i - start + 1);
                }
            }
            return None;
        }
        i = i + 1;
    }
    assert(digits.take(n - start) =~= digits);
    Some(acc as u32)
}

} // verus!
