//! The commands that players type into the chat box.
//!
//! A command is a word that begins with `!`, and then its argument:
//!
//! ```text
//! command = "!" word [ " "* argument ]
//! ```
//!
//! White space around the whole line does not count. The word runs until the
//! first space, and the argument is what is left after the spaces behind the
//! word. An argument does not span lines; a line with such a tail is not a
//! command.

use vstd::prelude::*;
use vstd::string::*;

use crate::text::{
    bool_of_text, bool_text, decimal_text, is_white_space, law_bool_round_trip,
    law_decimal_round_trip, law_trimming, parse_bool, parse_u32, trim, trimmed, u32_of_text,
    without_plus,
};

verus! {

/// The position of the first space in `s` from `from` on, or the length of `s`.
pub open spec fn space_from(s: Seq<char>, from: int) -> int
    decreases s.len() - from,
{
    if 0 <= from < s.len() && s[from] != ' ' {
        space_from(s, from + 1)
    } else {
        from
    }
}

/// The position of the first character other than a space in `s` from `from`
/// on, or the length of `s`.
pub open spec fn word_from(s: Seq<char>, from: int) -> int
    decreases s.len() - from,
{
    if 0 <= from < s.len() && s[from] == ' ' {
        word_from(s, from + 1)
    } else {
        from
    }
}

/// The mathematical form of [Command].
pub struct CommandView {
    pub name: Seq<char>,
    pub arg: Seq<char>,
}

/// The command that a trimmed line spells, if it is one.
pub open spec fn command_of_line(line: Seq<char>) -> Option<CommandView> {
    let end = space_from(line, 1);
    if line.len() >= 2 && line[0] == '!' && end >= 2 && !line.skip(end).contains('\n') {
        Some(CommandView { name: line.take(end), arg: line.skip(word_from(line, end)) })
    } else {
        None
    }
}

/// The command that a chat message spells, if it is one.
pub open spec fn command_of(message: Seq<char>) -> Option<CommandView> {
    command_of_line(trimmed(message))
}

/// A command with its argument, which is empty if none was given.
#[derive(Debug)]
pub struct Command {
    /// The word that begins with `!`.
    pub name: String,
    /// What follows the word and the spaces behind it.
    pub arg: String,
}

impl View for Command {
    type V = CommandView;

    open spec fn view(&self) -> CommandView {
        CommandView { name: self.name@, arg: self.arg@ }
    }
}

proof fn lemma_space_from(s: Seq<char>, from: int)
    requires
        0 <= from <= s.len(),
    ensures
        from <= space_from(s, from) <= s.len(),
        forall|i: int| from <= i < space_from(s, from) ==> s[i] != ' ',
        space_from(s, from) < s.len() ==> s[space_from(s, from)] == ' ',
    decreases s.len() - from,
{
    if from < s.len() && s[from] != ' ' {
        lemma_space_from(s, from + 1);
    }
}

proof fn lemma_word_from(s: Seq<char>, from: int)
    requires
        0 <= from <= s.len(),
    ensures
        from <= word_from(s, from) <= s.len(),
        forall|i: int| from <= i < word_from(s, from) ==> s[i] == ' ',
        word_from(s, from) < s.len() ==> s[word_from(s, from)] != ' ',
    decreases s.len() - from,
{
    if from < s.len() && s[from] == ' ' {
        lemma_word_from(s, from + 1);
    }
}

/// Finds the first space in `s` from `from` on.
fn find_space(s: &str, from: usize, len: usize) -> (at: usize)
    requires
        len == s@.len(),
        from <= len,
    ensures
        at == space_from(s@, from as int),
        from <= at <= len,
{
    let mut at: usize = from;
    while at < len && s.get_char(at) != ' '
        invariant
            len == s@.len(),
            from <= at <= len,
            space_from(s@, at as int) == space_from(s@, from as int),
        decreases len - at,
    {
        at = at + 1;
    }
    at
}

/// Finds the first character other than a space in `s` from `from` on.
fn find_word(s: &str, from: usize, len: usize) -> (at: usize)
    requires
        len == s@.len(),
        from <= len,
    ensures
        at == word_from(s@, from as int),
        from <= at <= len,
{
    let mut at: usize = from;
    while at < len && s.get_char(at) == ' '
        invariant
            len == s@.len(),
            from <= at <= len,
            word_from(s@, at as int) == word_from(s@, from as int),
        decreases len - at,
    {
        at = at + 1;
    }
    at
}

/// Whether a line break occurs in `s` from `from` on.
fn breaks_line(s: &str, from: usize, len: usize) -> (found: bool)
    requires
        len == s@.len(),
        from <= len,
    ensures
        found == s@.skip(from as int).contains('\n'),
{
    let mut at: usize = from;
    while at < len
        invariant
            len == s@.len(),
            from <= at <= len,
            forall|i: int| from <= i < at ==> s@[i] != '\n',
        decreases len - at,
    {
        if s.get_char(at) == '\n' {
            assert(s@.skip(from as int)[at - from] == '\n');
            return true;
        }
        at = at + 1;
    }
    assert forall|i: int| 0 <= i < s@.skip(from as int).len() implies s@.skip(from as int)[i]
        != '\n' by {
        assert(s@.skip(from as int)[i] == s@[from + i]);
    }
    false
}

/// Reads a chat message as a command.
pub fn parse_command(message: &str) -> (command: Option<Command>)
    ensures
        match command {
            Some(command) => command_of(message@) == Some(command@),
            None => command_of(message@) is None,
        },
{
    let line: &str = trim(message);
    let len: usize = line.unicode_len();
    if len < 2 || line.get_char(0) != '!' {
        return None;
    }
    let end: usize = find_space(line, 1, len);
    if end < 2 || breaks_line(line, end, len) {
        return None;
    }
    let start: usize = find_word(line, end, len);
    let name: String = line.substring_char(0, end).to_owned();
    let arg: String = line.substring_char(start, len).to_owned();
    assert(name@ =~= line@.take(end as int));
    assert(arg@ =~= line@.skip(start as int));
    Some(Command { name, arg })
}

/// The pieces of `s` between its runs of spaces.
pub open spec fn pieces(s: Seq<char>) -> Seq<Seq<char>>
    decreases s.len(),
    via pieces_shrink
{
    let end = space_from(s, 0);
    if end < s.len() {
        seq![s.take(end)] + pieces(s.skip(word_from(s, end)))
    } else {
        seq![s]
    }
}

#[via_fn]
proof fn pieces_shrink(s: Seq<char>) {
    lemma_space_from(s, 0);
    let end = space_from(s, 0);
    if end < s.len() {
        lemma_word_from(s, end);
        assert(word_from(s, end) > end);
    }
}

/// The event flag and the value that the argument of `!setevent` names.
pub open spec fn flag_and_value(arg: Seq<char>) -> Option<(u32, bool)> {
    let parts = pieces(arg);
    if parts.len() == 2 && u32_of_text(parts[0]) is Some && bool_of_text(parts[1]) is Some {
        Some((u32_of_text(parts[0])->0, bool_of_text(parts[1])->0))
    } else {
        None
    }
}

/// Reads the argument of `!setevent`: a flag number and a `bool`, with spaces
/// in between.
pub fn parse_flag_and_value(arg: &str) -> (parsed: Option<(u32, bool)>)
    ensures
        parsed == flag_and_value(arg@),
{
    let len: usize = arg.unicode_len();
    let end: usize = find_space(arg, 0, len);
    proof {
        lemma_space_from(arg@, 0);
    }
    if end == len {
        assert(pieces(arg@).len() == 1);
        return None;
    }
    let start: usize = find_word(arg, end, len);
    let ghost tail = arg@.skip(start as int);
    proof {
        lemma_word_from(arg@, end as int);
        assert(pieces(arg@) =~= seq![arg@.take(end as int)] + pieces(tail));
        lemma_space_from(tail, 0);
    }
    let rest: &str = arg.substring_char(start, len);
    assert(rest@ =~= tail);
    let rest_len: usize = len - start;
    let more: usize = find_space(rest, 0, rest_len);
    if more < rest_len {
        proof {
            lemma_word_from(tail, more as int);
            lemma_pieces_not_empty(tail.skip(word_from(tail, more as int)));
        }
        assert(pieces(arg@).len() > 2);
        return None;
    }
    let first: &str = arg.substring_char(0, end);
    assert(first@ =~= arg@.take(end as int));
    assert(pieces(tail) =~= seq![tail]);
    assert(pieces(arg@) =~= seq![first@, tail]);
    match (parse_u32(first), parse_bool(rest)) {
        (Some(flag), Some(value)) => Some((flag, value)),
        _ => None,
    }
}

/// A command accounts for the whole line: its name begins with `!` and holds
/// no space, only spaces stand between the name and the argument, and the
/// argument begins with something else.
pub proof fn law_command_covers_line(message: Seq<char>)
    ensures
        command_of(message) matches Some(command) ==> {
            let line = trimmed(message);
            let start = line.len() - command.arg.len();
            &&& command.name.len() >= 2
            &&& command.name[0] == '!'
            &&& !command.name.contains(' ')
            &&& command.name.len() <= start
            &&& line == command.name + line.subrange(command.name.len() as int, start)
                + command.arg
            &&& forall|i: int| command.name.len() <= i < start ==> #[trigger] line[i] == ' '
            &&& command.arg.len() > 0 ==> command.arg[0] != ' '
        },
{
    let line = trimmed(message);
    if command_of(message) is Some {
        let end = space_from(line, 1);
        lemma_space_from(line, 1);
        lemma_word_from(line, end);
        let start = word_from(line, end);
        assert(line =~= line.take(end) + line.subrange(end, start) + line.skip(start));
        assert(line[0] != ' ');
        assert(forall|i: int| 0 <= i < end ==> #[trigger] line.take(end)[i] != ' ');
    }
}

/// Only a line that begins with `!` is ever taken for a command.
pub proof fn law_plain_text_is_no_command(message: Seq<char>)
    requires
        trimmed(message).len() == 0 || trimmed(message)[0] != '!',
    ensures
        command_of(message) is None,
{
}

/// A flag number and a `bool`, written out with any number of spaces in
/// between.
pub open spec fn flag_text(flag: u32, spaces: nat, value: bool) -> Seq<char> {
    decimal_text(flag as nat) + Seq::new(spaces, |i: int| ' ') + bool_text(value)
}

/// Reading back a flag number and a `bool` that were written out gives the two.
pub proof fn law_flag_and_value_round_trip(flag: u32, spaces: nat, value: bool)
    requires
        spaces > 0,
    ensures
        flag_and_value(flag_text(flag, spaces, value)) == Some((flag, value)),
{
    let first = decimal_text(flag as nat);
    let second = bool_text(value);
    let text = flag_text(flag, spaces, value);
    let end = first.len() as int;
    let start = end + spaces;
    law_decimal_round_trip(flag);
    law_bool_round_trip(value);
    reveal_strlit("true");
    reveal_strlit("false");
    assert forall|i: int| 0 <= i < end implies first[i] != ' ' by {
        let digits = without_plus(first);
        if digits.len() < first.len() {
            assert(i > 0 ==> first[i] == digits[i - 1]);
        } else {
            assert(first[i] == digits[i]);
        }
    }
    assert(forall|i: int| 0 <= i < second.len() ==> second[i] != ' ');
    assert(forall|i: int| 0 <= i < end ==> text[i] == first[i]);
    assert(forall|i: int| end <= i < start ==> text[i] == ' ');
    assert(forall|i: int| start <= i < text.len() ==> text[i] == second[i - start]);
    lemma_space_from(text, 0);
    let found = space_from(text, 0);
    assert(found == end) by {
        if found < end {
            assert(text[found] == first[found]);
        } else if found > end {
            assert(text[end] == ' ');
        }
    }
    lemma_word_from(text, end);
    let word = word_from(text, end);
    assert(word == start) by {
        if word < start {
            assert(text[word] == ' ');
        } else if word > start {
            assert(text[start] == second[0]);
        }
    }
    assert(text.take(end) =~= first);
    assert(text.skip(start) =~= second);
    lemma_space_from(second, 0);
    assert(space_from(second, 0) == second.len());
    assert(pieces(second) =~= seq![second]);
    assert(pieces(text) =~= seq![first, second]);
}

proof fn lemma_pieces_not_empty(s: Seq<char>)
    ensures
        pieces(s).len() > 0,
{
}

/// A run of spaces.
pub open spec fn spaces(count: nat) -> Seq<char> {
    Seq::new(count, |i: int| ' ')
}

/// A word that begins with `!`, spaces and an argument in one line are that
/// command with that argument, whatever white space stands around the line.
pub proof fn law_command_is_read(
    before: Seq<char>,
    name: Seq<char>,
    count: nat,
    arg: Seq<char>,
    after: Seq<char>,
)
    requires
        forall|i: int| 0 <= i < before.len() ==> is_white_space(#[trigger] before[i]),
        forall|i: int| 0 <= i < after.len() ==> is_white_space(#[trigger] after[i]),
        name.len() >= 2,
        name[0] == '!',
        forall|i: int| 0 <= i < name.len() ==> #[trigger] name[i] != ' ',
        arg.len() == 0 ==> count == 0 && !is_white_space(name.last()),
        arg.len() > 0 ==> count > 0 && arg[0] != ' ' && !is_white_space(arg.last()),
        forall|i: int| 0 <= i < arg.len() ==> #[trigger] arg[i] != '\n',
    ensures
        command_of(before + (name + spaces(count) + arg) + after) == Some(
            CommandView { name, arg },
        ),
{
    let line = name + spaces(count) + arg;
    let end = name.len() as int;
    let start = end + count;
    law_trimming(before, line, after);
    assert(forall|i: int| 0 <= i < end ==> line[i] == name[i]);
    assert(forall|i: int| end <= i < start ==> line[i] == ' ');
    assert(forall|i: int| start <= i < line.len() ==> line[i] == arg[i - start]);
    lemma_space_from(line, 1);
    let found = space_from(line, 1);
    assert(found == end) by {
        if found < end {
            assert(line[found] == name[found]);
        } else if found > end {
            assert(line[end] == ' ');
        }
    }
    lemma_word_from(line, end);
    let word = word_from(line, end);
    assert(word == start) by {
        if word < start {
            assert(line[word] == ' ');
        } else if word > start {
            assert(line[start] == arg[0]);
        }
    }
    assert(line.take(end) =~= name);
    assert(line.skip(start) =~= arg);
    assert forall|i: int| 0 <= i < line.skip(end).len() implies line.skip(end)[i] != '\n' by {
        assert(line.skip(end)[i] == line[end + i]);
        if end + i >= start {
            assert(arg[end + i - start] != '\n');
        }
    }
    assert(!line.skip(end).contains('\n'));
}

/// The argument of a command stands in one line.
pub proof fn law_arguments_stand_in_one_line(message: Seq<char>)
    ensures
        command_of(message) matches Some(command) ==> !command.arg.contains('\n'),
{
    let line = trimmed(message);
    if command_of(message) is Some {
        let end = space_from(line, 1);
        lemma_space_from(line, 1);
        lemma_word_from(line, end);
        let start = word_from(line, end);
        let arg = line.skip(start);
        assert forall|i: int| 0 <= i < arg.len() implies arg[i] != '\n' by {
            assert(line.skip(end)[start - end + i] == arg[i]);
        }
    }
}

/// Two words with spaces in between are a flag and a value exactly if the first
/// one is a number and the second one a `bool`, and then they are those.
pub proof fn law_two_words_are_flag_and_value(first: Seq<char>, count: nat, second: Seq<char>)
    requires
        count > 0,
        forall|i: int| 0 <= i < first.len() ==> #[trigger] first[i] != ' ',
        forall|i: int| 0 <= i < second.len() ==> #[trigger] second[i] != ' ',
    ensures
        flag_and_value(first + spaces(count) + second) == (match (
            u32_of_text(first),
            bool_of_text(second),
        ) {
            (Some(flag), Some(value)) => Some((flag, value)),
            _ => None,
        }),
{
    let text = first + spaces(count) + second;
    let end = first.len() as int;
    let start = end + count;
    assert(forall|i: int| 0 <= i < end ==> text[i] == first[i]);
    assert(forall|i: int| end <= i < start ==> text[i] == ' ');
    assert(forall|i: int| start <= i < text.len() ==> text[i] == second[i - start]);
    lemma_space_from(text, 0);
    let found = space_from(text, 0);
    assert(found == end) by {
        if found < end {
            assert(text[found] == first[found]);
        } else if found > end {
            assert(text[end] == ' ');
        }
    }
    lemma_word_from(text, end);
    let word = word_from(text, end);
    assert(word == start) by {
        if word < start {
            assert(text[word] == ' ');
        } else if word > start {
            assert(text[start] == second[0]);
        }
    }
    assert(text.take(end) =~= first);
    assert(text.skip(start) =~= second);
    lemma_space_from(second, 0);
    assert(space_from(second, 0) == second.len());
    assert(pieces(second) =~= seq![second]);
    assert(pieces(text) =~= seq![first, second]);
}

/// What is read as a flag and a value is two words with spaces in between, of
/// which the first is that flag and the second that value.
pub proof fn law_flag_and_value_are_two_words(arg: Seq<char>) -> (words: (
    Seq<char>,
    nat,
    Seq<char>,
))
    requires
        flag_and_value(arg) is Some,
    ensures
        ({
            let (first, count, second) = words;
            let (flag, value) = flag_and_value(arg)->0;
            &&& arg == first + spaces(count) + second
            &&& count > 0
            &&& forall|i: int| 0 <= i < first.len() ==> #[trigger] first[i] != ' '
            &&& forall|i: int| 0 <= i < second.len() ==> #[trigger] second[i] != ' '
            &&& u32_of_text(first) == Some(flag)
            &&& bool_of_text(second) == Some(value)
        }),
{
    let end = space_from(arg, 0);
    lemma_space_from(arg, 0);
    let start = word_from(arg, end);
    lemma_word_from(arg, end);
    let first = arg.take(end);
    let second = arg.skip(start);
    let count = (start - end) as nat;
    assert(pieces(arg) =~= seq![first] + pieces(second));
    lemma_space_from(second, 0);
    if space_from(second, 0) < second.len() {
        lemma_pieces_not_empty(second.skip(word_from(second, space_from(second, 0))));
        assert(pieces(second).len() > 1);
    }
    assert(pieces(second) =~= seq![second]);
    assert(pieces(arg) =~= seq![first, second]);
    assert(arg =~= first + spaces(count) + second);
    (first, count, second)
}

} // verus!
