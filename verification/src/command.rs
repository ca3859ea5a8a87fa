//! The commands that the player can type.

use vstd::prelude::*;

use crate::slot_data::EventFlagId;
use crate::text::{
    bool_text, bool_value, concat3, format_bool, format_u32, integer_text, is_digit,
    law_bool_reads_back, law_u32_reads_back, parse_bool, parse_u32, same_text, u32_value,
};

verus! {

/// The colour of a piece of text.
#[derive(Clone, Copy, Debug, PartialEq, Eq, Structural)]
pub enum TextColor {
    Red,
    Green,
    Blue,
}

/// A piece of a message to the player.
#[derive(Debug, PartialEq, Eq)]
pub enum RichText {
    Plain(String),
    Color { text: String, color: TextColor },
}

/// What a piece of a message says, and in which colour if in any.
pub struct RichTextView {
    pub text: Seq<char>,
    pub color: Option<TextColor>,
}

impl View for RichText {
    type V = RichTextView;

    open spec fn view(&self) -> RichTextView {
        match *self {
            RichText::Plain(text) => RichTextView { text: text@, color: None },
            RichText::Color { text, color } => RichTextView {
                text: text@,
                color: Some(color),
            },
        }
    }
}

/// What the pieces of a message say.
pub open spec fn message_view(message: Seq<RichText>) -> Seq<RichTextView> {
    message.map_values(|part: RichText| part@)
}

/// A piece of a message without a colour.
pub open spec fn plain(text: Seq<char>) -> RichTextView {
    RichTextView { text, color: None }
}

/// A piece of a message in a colour.
pub open spec fn colored(text: Seq<char>, color: TextColor) -> RichTextView {
    RichTextView { text, color: Some(color) }
}

/// What a command asks for.
pub enum CommandRequest {
    /// It is no command of this client.
    Unknown,
    /// It is a command, but its argument is wrong; this is what to say.
    Invalid(Vec<RichText>),
    /// Show whether an event flag is set.
    GetEvent(EventFlagId),
    /// Set or clear an event flag.
    SetEvent(EventFlagId, bool),
}

/// The pieces of `text` between runs of spaces. A space after anything but a space
/// starts a new piece, and every other character belongs to the last piece.
pub open spec fn space_pieces(text: Seq<char>) -> Seq<Seq<char>>
    decreases text.len(),
{
    if text.len() == 0 {
        seq![Seq::empty()]
    } else {
        let pieces = space_pieces(text.drop_last());
        if text.last() != ' ' {
            pieces.drop_last().push(pieces.last().push(text.last()))
        } else if text.len() > 1 && text[text.len() - 2] == ' ' {
            pieces
        } else {
            pieces.push(Seq::empty())
        }
    }
}

/// What texts say.
pub open spec fn texts_view(texts: Seq<String>) -> Seq<Seq<char>> {
    texts.map_values(|text: String| text@)
}

/// Calls `Regex::split` of the `regex` crate, which `regex_macro` hands on, for the
/// pattern of one space or more. It returns the parts of the text that no run of
/// spaces matches, in order, with an empty part at an end of the text that such a run
/// stands at.
#[verifier::external_body]
fn split_by_regex(pattern: &str, text: &str) -> (pieces: Vec<String>)
    requires
        pattern@ == " +"@,
    ensures
        texts_view(pieces@) == space_pieces(text@),
{
    let regex = regex_macro::Regex::new(pattern).unwrap();
    regex.split(text).map(|piece| piece.to_string()).collect()
}

/// The flag that the argument of `!getevent` names, if it is right.
pub open spec fn get_event_argument(arg: Option<&str>) -> Option<u32> {
    match arg {
        Some(text) => u32_value(text@),
        None => None,
    }
}

/// The flag and the value that the argument of `!setevent` names, if it is right: two
/// words with spaces between them.
pub open spec fn set_event_argument(arg: Option<&str>) -> Option<(u32, bool)> {
    match arg {
        Some(text) => words_argument(space_pieces(text@)),
        None => None,
    }
}

/// The flag and the value that two words name.
pub open spec fn words_argument(words: Seq<Seq<char>>) -> Option<(u32, bool)> {
    if words.len() == 2 {
        match (u32_value(words[0]), bool_value(words[1])) {
            (Some(flag), Some(value)) => Some((flag, value)),
            _ => None,
        }
    } else {
        None
    }
}

/// What is said of a command whose argument is wrong.
pub open spec fn usage_message(command: Seq<char>, usage: Seq<char>) -> Seq<RichTextView> {
    seq![
        colored("Invalid "@ + command + "."@, TextColor::Red),
        plain(" Usage:\n"@),
        plain(usage),
    ]
}

/// Returns what to say of a command whose argument is wrong.
fn arg_error(command: &str, usage: &str) -> (message: Vec<RichText>)
    ensures
        message_view(message@) == usage_message(command@, usage@),
{
    let mut message: Vec<RichText> = Vec::new();
    message.push(RichText::Color { text: concat3("Invalid ", command, "."), color: TextColor::Red });
    message.push(RichText::Plain(" Usage:\n".to_owned()));
    message.push(RichText::Plain(usage.to_owned()));
    message
}

/// Returns the flag that the argument of `!getevent` names.
fn parse_get_event(arg: Option<&str>) -> (flag: Option<u32>)
    ensures
        flag == get_event_argument(arg),
{
    match arg {
        Some(text) => parse_u32(text).ok(),
        None => None,
    }
}

/// Returns the flag and the value that the words of an argument name, if it has two
/// words.
pub fn parse_words(words: &Vec<String>) -> (request: Option<(u32, bool)>)
    ensures
        request == words_argument(texts_view(words@)),
{
    if words.len() != 2 {
        return None;
    }
    match (parse_u32(words[0].as_str()).ok(), parse_bool(words[1].as_str())) {
        (Some(flag), Some(value)) => Some((flag, value)),
        _ => None,
    }
}

/// Returns the flag and the value that the argument of `!setevent` names.
fn parse_set_event(arg: Option<&str>) -> (request: Option<(u32, bool)>)
    ensures
        request == set_event_argument(arg),
{
    match arg {
        Some(text) => parse_words(&split_by_regex(" +", text)),
        None => None,
    }
}

/// Returns what a command asks for. Flags can be set in debug builds only.
pub fn handle_command(command: &str, arg: Option<&str>, debug: bool) -> (request: CommandRequest)
    ensures
        match request {
            CommandRequest::Unknown => command@ != "!getevent"@ && !(debug && command@
                == "!setevent"@),
            CommandRequest::GetEvent(flag) => command@ == "!getevent"@ && get_event_argument(arg)
                == Some(flag.0),
            CommandRequest::SetEvent(flag, value) => command@ != "!getevent"@ && debug && command@
                == "!setevent"@ && set_event_argument(arg) == Some((flag.0, value)),
            CommandRequest::Invalid(message) => {
                ||| command@ == "!getevent"@ && get_event_argument(arg) is None && message_view(
                    message@,
                ) == usage_message(command@, "!getevent EVENT_FLAG"@)
                ||| command@ != "!getevent"@ && debug && command@ == "!setevent"@
                    && set_event_argument(arg) is None && message_view(message@) == usage_message(
                    command@,
                    "!setevent EVENT_FLAG BOOL"@,
                )
            },
        },
{
    if same_text(command, "!getevent") {
        match parse_get_event(arg) {
            Some(flag) => CommandRequest::GetEvent(EventFlagId(flag)),
            None => CommandRequest::Invalid(arg_error(command, "!getevent EVENT_FLAG")),
        }
    } else if debug && same_text(command, "!setevent") {
        match parse_set_event(arg) {
            Some((flag, value)) => CommandRequest::SetEvent(EventFlagId(flag), value),
            None => CommandRequest::Invalid(arg_error(command, "!setevent EVENT_FLAG BOOL")),
        }
    } else {
        CommandRequest::Unknown
    }
}

/// A truth value in its colour.
pub open spec fn colored_bool(value: bool) -> RichTextView {
    colored(
        bool_text(value),
        if value {
            TextColor::Green
        } else {
            TextColor::Red
        },
    )
}

/// A flag's number in its colour.
pub open spec fn colored_flag(flag: EventFlagId) -> RichTextView {
    colored(integer_text(flag.0 as int), TextColor::Blue)
}

/// What is said where the event flags cannot be reached.
pub open spec fn not_loaded() -> RichTextView {
    colored("CSEventFlagMan not loaded"@, TextColor::Red)
}

/// Returns a truth value in its colour.
fn bool_part(value: bool) -> (part: RichText)
    ensures
        part@ == colored_bool(value),
{
    let color = if value {
        TextColor::Green
    } else {
        TextColor::Red
    };
    RichText::Color { text: format_bool(value), color }
}

/// Returns a flag's number in its colour.
fn flag_part(flag: EventFlagId) -> (part: RichText)
    ensures
        part@ == colored_flag(flag),
{
    RichText::Color { text: format_u32(flag.0), color: TextColor::Blue }
}

/// Returns what is said where the event flags cannot be reached.
fn not_loaded_message() -> (message: Vec<RichText>)
    ensures
        message_view(message@) == seq![not_loaded()],
{
    let mut message: Vec<RichText> = Vec::new();
    message.push(
        RichText::Color { text: "CSEventFlagMan not loaded".to_owned(), color: TextColor::Red },
    );
    message
}

/// Returns the answer to `!getevent`, where `value` is what the flag is, if it can be
/// read.
pub fn get_event_reply(flag: EventFlagId, value: Option<bool>) -> (message: Vec<RichText>)
    ensures
        message_view(message@) == (match value {
            Some(set) => seq![
                plain("Event "@),
                colored_flag(flag),
                plain(": "@),
                colored_bool(set),
            ],
            None => seq![not_loaded()],
        }),
{
    let Some(set) = value else {
        return not_loaded_message();
    };
    let mut message: Vec<RichText> = Vec::new();
    message.push(RichText::Plain("Event ".to_owned()));
    message.push(flag_part(flag));
    message.push(RichText::Plain(": ".to_owned()));
    message.push(bool_part(set));
    message
}

/// Returns the answer to `!setevent`, where `done` says whether the flag could be
/// written.
pub fn set_event_reply(flag: EventFlagId, value: bool, done: bool) -> (message: Vec<RichText>)
    ensures
        message_view(message@) == (if done {
            seq![
                plain("Set event "@),
                colored_flag(flag),
                plain(" to "@),
                colored_bool(value),
            ]
        } else {
            seq![not_loaded()]
        }),
{
    if !done {
        return not_loaded_message();
    }
    let mut message: Vec<RichText> = Vec::new();
    message.push(RichText::Plain("Set event ".to_owned()));
    message.push(flag_part(flag));
    message.push(RichText::Plain(" to ".to_owned()));
    message.push(bool_part(value));
    message
}

/// Whether no space occurs in `text`.
pub open spec fn is_word(text: Seq<char>) -> bool {
    !text.contains(' ')
}

/// A number of spaces.
pub open spec fn spaces(count: nat) -> Seq<char> {
    Seq::new(count, |i: int| ' ')
}

/// A word at the end of a text belongs to the last piece.
proof fn lemma_word_extends_last_piece(text: Seq<char>, word: Seq<char>)
    requires
        is_word(word),
    ensures
        space_pieces(text).len() > 0,
        space_pieces(text + word) == space_pieces(text).drop_last().push(
            space_pieces(text).last() + word,
        ),
    decreases text.len() + word.len(),
{
    if word.len() == 0 {
        if text.len() > 0 {
            lemma_word_extends_last_piece(text.drop_last(), word);
        }
    } else {
        let shorter = word.drop_last();
        lemma_word_extends_last_piece(text, shorter);
        assert((text + word).drop_last() =~= text + shorter);
        assert((space_pieces(text).last() + shorter).push(word.last()) =~= space_pieces(text).last()
            + word);
    }
}

/// Spaces after a text that ends in none start one new piece, however many they are.
proof fn lemma_spaces_start_a_piece(text: Seq<char>, count: nat)
    requires
        text.len() > 0,
        text.last() != ' ',
        count > 0,
    ensures
        space_pieces(text + spaces(count)) == space_pieces(text).push(Seq::empty()),
    decreases count,
{
    let spaced = text + spaces(count);
    let fewer = (count - 1) as nat;
    assert(spaced.drop_last() =~= text + spaces(fewer));
    if fewer > 0 {
        lemma_spaces_start_a_piece(text, fewer);
    }
}

/// Two words with any number of spaces between them are two pieces.
proof fn lemma_two_words(first: Seq<char>, count: nat, second: Seq<char>)
    requires
        first.len() > 0,
        is_word(first),
        is_word(second),
        count > 0,
    ensures
        space_pieces(first + spaces(count) + second) == seq![first, second],
{
    let nothing = Seq::<char>::empty();
    lemma_word_extends_last_piece(nothing, first);
    lemma_spaces_start_a_piece(first, count);
    lemma_word_extends_last_piece(first + spaces(count), second);
}

/// A flag's number and a truth value, with any number of spaces between them, are
/// read as that flag and that value.
pub proof fn law_flag_and_value_read_back(flag: u32, count: nat, value: bool)
    requires
        count > 0,
    ensures
        words_argument(
            space_pieces(integer_text(flag as int) + spaces(count) + bool_text(value)),
        ) == Some((flag, value)),
{
    law_u32_reads_back(flag);
    law_bool_reads_back(value);
    let digits = integer_text(flag as int);
    assert(is_word(digits)) by {
        if digits.contains(' ') {
            let i = choose|i: int| 0 <= i < digits.len() && digits[i] == ' ';
            if i > 0 {
                assert(digits.skip(1)[i - 1] == ' ');
            }
        }
    }
    assert(is_word(bool_text(value))) by {
        reveal_strlit("true");
        reveal_strlit("false");
    }
    lemma_two_words(digits, count, bool_text(value));
}

} // verus!
