//! The command interpreter: what one request does to the options for the
//! picker and to the session's context, which lines it sends, and what is
//! left for the caller to do before the request is complete.

use crate::store::{assigned, assigned_if_absent, restacked, tokens, ArgStore, Entry};
use crate::text::{
    after_first, before_first, decimal, decimal_text, joined, opt_text, replace_char, replaced,
    same_text, split_once, strip_char, texts, without,
};
use crate::writer::{line, Writer};
use vstd::prelude::*;

verus! {

/// `std::string::FromUtf8Error`: the error with which `urlencoding::decode`
/// reports that the decoded bytes are no UTF-8 text. Nothing is known of
/// what it holds.
#[verifier::external_type_specification]
#[verifier::external_body]
pub struct ExFromUtf8Error(std::string::FromUtf8Error);

/// What `urlencoding::decode` makes of a text: the text with its
/// percent-escapes resolved, or `None` where the resolved bytes are no UTF-8.
pub uninterp spec fn percent_decoded(data: Seq<char>) -> Option<Seq<char>>;

/// Calls `urlencoding::decode`. Its result depends on `data` alone: the
/// decoded text where [`percent_decoded`] names one, and the error where it
/// names none.
#[verifier::external_body]
fn decode(data: &str) -> (res: Result<String, std::string::FromUtf8Error>)
    ensures
        match res {
            Ok(text) => percent_decoded(data@) == Some(text@),
            Err(_) => percent_decoded(data@) is None,
        },
{
    match urlencoding::decode(data) {
        Ok(text) => Ok(text.into_owned()),
        Err(e) => Err(e),
    }
}

/// The line that separates a stacked error text from the description below it.
pub const ERROR_SEPARATOR: &'static str = "\r***************************\r";

/// The key under which the prompt text is kept.
pub const PROMPT_KEY: &'static str = "-p";

/// The key under which the description, with any error laid over it, is kept.
pub const MESSAGE_KEY: &'static str = "-mesg";

/// What the session knows of its surroundings.
#[derive(Debug)]
pub struct Environment {
    /// The terminal's name, once known.
    pub tty_name: Option<String>,
    /// The terminal's type, once known.
    pub tty_type: Option<String>,
    /// The locale for character classification, once known.
    pub lc_ctype: Option<String>,
    /// The locale for messages, once known.
    pub lc_messages: Option<String>,
    /// The display on which the picker will show, where there is one.
    pub display: Option<String>,
    /// The identifier of the running process.
    pub pid: u32,
    /// The program's version.
    pub version: String,
}

/// An [`Environment`] as the contracts see it.
pub struct EnvironmentView {
    pub tty_name: Option<Seq<char>>,
    pub tty_type: Option<Seq<char>>,
    pub lc_ctype: Option<Seq<char>>,
    pub lc_messages: Option<Seq<char>>,
    pub display: Option<Seq<char>>,
    pub pid: nat,
    pub version: Seq<char>,
}

impl View for Environment {
    type V = EnvironmentView;

    open spec fn view(&self) -> EnvironmentView {
        EnvironmentView {
            tty_name: opt_text(self.tty_name),
            tty_type: opt_text(self.tty_type),
            lc_ctype: opt_text(self.lc_ctype),
            lc_messages: opt_text(self.lc_messages),
            display: opt_text(self.display),
            pid: self.pid as nat,
            version: self.version@,
        }
    }
}

/// What the caller has to do before a request is complete.
#[derive(Debug)]
pub enum Pending {
    /// Nothing: the request is complete and its reply has been sent.
    Nothing,
    /// The reply has been sent; the process environment is to take this
    /// variable too, for the picker to inherit.
    ExportEnv { name: String, value: String },
    /// The description has been decoded; it is to be escaped for markup and
    /// handed to [`finish_setdesc`].
    EscapeMarkup { text: String },
    /// The picker is to be run with these arguments and its outcome handed
    /// to [`crate::picker::finish_getpin`].
    RunPicker { args: Vec<String> },
}

/// A [`Pending`] as the contracts see it.
pub enum PendingView {
    Nothing,
    ExportEnv { name: Seq<char>, value: Seq<char> },
    EscapeMarkup { text: Seq<char> },
    RunPicker { args: Seq<Seq<char>> },
}

impl View for Pending {
    type V = PendingView;

    open spec fn view(&self) -> PendingView {
        match self {
            Pending::Nothing => PendingView::Nothing,
            Pending::ExportEnv { name, value } => PendingView::ExportEnv {
                name: name@,
                value: value@,
            },
            Pending::EscapeMarkup { text } => PendingView::EscapeMarkup { text: text@ },
            Pending::RunPicker { args } => PendingView::RunPicker { args: texts(args@) },
        }
    }
}

/// Why a request could not be carried out.
#[derive(Debug)]
pub enum CommandError {
    /// The action, with this argument, is none that the interpreter knows.
    /// The session is over.
    UnknownAction { action: String, arg: String },
    /// The request needs a value of the surroundings that is not known.
    MissingEnv { name: String },
    /// The argument's percent-escapes do not resolve to text.
    InvalidEncoding,
    /// The session takes no request now: it is over, or it waits for the
    /// caller to complete the last one.
    OutOfTurn,
}

/// A [`CommandError`] as the contracts see it.
pub enum CommandErrorView {
    UnknownAction { action: Seq<char>, arg: Seq<char> },
    MissingEnv { name: Seq<char> },
    InvalidEncoding,
    OutOfTurn,
}

impl View for CommandError {
    type V = CommandErrorView;

    open spec fn view(&self) -> CommandErrorView {
        match self {
            CommandError::UnknownAction { action, arg } => CommandErrorView::UnknownAction {
                action: action@,
                arg: arg@,
            },
            CommandError::MissingEnv { name } => CommandErrorView::MissingEnv { name: name@ },
            CommandError::InvalidEncoding => CommandErrorView::InvalidEncoding,
            CommandError::OutOfTurn => CommandErrorView::OutOfTurn,
        }
    }
}

/// The view of what [`handle_command`] returns.
pub open spec fn outcome(res: Result<Pending, CommandError>) -> Result<
    PendingView,
    CommandErrorView,
> {
    match res {
        Ok(pending) => Ok(pending@),
        Err(error) => Err(error@),
    }
}

/// What an error says of itself.
pub open spec fn error_message(error: CommandErrorView) -> Seq<char> {
    match error {
        CommandErrorView::UnknownAction { action, arg } => "Unknown assuan command. Action `"@
            + action + "`. Argument `"@ + arg + "`"@,
        CommandErrorView::MissingEnv { name } => "environment value not set: "@ + name,
        CommandErrorView::InvalidEncoding => "argument is not validly percent-encoded"@,
        CommandErrorView::OutOfTurn => "the session takes no request now"@,
    }
}

impl CommandError {
    /// The error in words.
    pub fn message(&self) -> (text: String)
        ensures
            text@ == error_message(self@),
    {
        match self {
            CommandError::UnknownAction { action, arg } => {
                let a = joined("Unknown assuan command. Action `", action.as_str());
                let b = joined(a.as_str(), "`. Argument `");
                let c = joined(b.as_str(), arg.as_str());
                joined(c.as_str(), "`")
            },
            CommandError::MissingEnv { name } => joined(
                "environment value not set: ",
                name.as_str(),
            ),
            CommandError::InvalidEncoding => "argument is not validly percent-encoded".to_owned(),
            CommandError::OutOfTurn => "the session takes no request now".to_owned(),
        }
    }
}

/// The surroundings after `OPTION name=value`: one of the four names that
/// the interpreter knows sets its value; any other name changes nothing.
pub open spec fn env_after_option(
    env: EnvironmentView,
    name: Seq<char>,
    value: Seq<char>,
) -> EnvironmentView {
    if name == "ttyname"@ {
        EnvironmentView { tty_name: Some(value), ..env }
    } else if name == "ttytype"@ {
        EnvironmentView { tty_type: Some(value), ..env }
    } else if name == "lc-ctype"@ {
        EnvironmentView { lc_ctype: Some(value), ..env }
    } else if name == "lc-messages"@ {
        EnvironmentView { lc_messages: Some(value), ..env }
    } else {
        env
    }
}

/// The variable that `OPTION name=value` hands to the process environment,
/// if `name` is one of the four that the interpreter knows.
pub open spec fn export_of_option(name: Seq<char>, value: Seq<char>) -> PendingView {
    if name == "ttyname"@ {
        PendingView::ExportEnv { name: "GPG_TTY"@, value }
    } else if name == "ttytype"@ {
        PendingView::ExportEnv { name: "GPG_TERM"@, value }
    } else if name == "lc-ctype"@ {
        PendingView::ExportEnv { name: "LC_CTYPE"@, value }
    } else if name == "lc-messages"@ {
        PendingView::ExportEnv { name: "LC_MESSAGES"@, value }
    } else {
        PendingView::Nothing
    }
}

/// The text of a description once decoded: every line feed becomes a
/// carriage return.
pub open spec fn described(decoded: Seq<char>) -> Seq<char> {
    replaced(decoded, '\n', '\r')
}

/// The data line that answers `GETINFO ttyinfo`: the terminal's name, its
/// type or nothing, and the display, with single spaces between them.
pub open spec fn ttyinfo_line(tty: Seq<char>, term: Option<Seq<char>>, display: Seq<char>) -> Seq<
    char,
> {
    "D "@ + tty + " "@ + (match term {
        Some(t) => t,
        None => Seq::<char>::empty(),
    }) + " "@ + display
}

/// The effect of one request.
pub struct Reaction {
    /// The options for the picker after the request.
    pub args: Seq<Entry>,
    /// The surroundings after the request.
    pub env: EnvironmentView,
    /// What the request sends.
    pub output: Seq<char>,
    /// What the request returns.
    pub result: Result<PendingView, CommandErrorView>,
}

/// A request that only sends the success line.
pub open spec fn acknowledged(args: Seq<Entry>, env: EnvironmentView) -> Reaction {
    Reaction { args, env, output: line("OK"@), result: Ok(PendingView::Nothing) }
}

/// A request that sends one data line and the success line.
pub open spec fn answered(args: Seq<Entry>, env: EnvironmentView, data: Seq<char>) -> Reaction {
    Reaction { args, env, output: line(data) + line("OK"@), result: Ok(PendingView::Nothing) }
}

/// A request that sends nothing and returns `result`.
pub open spec fn silent(
    args: Seq<Entry>,
    env: EnvironmentView,
    result: Result<PendingView, CommandErrorView>,
) -> Reaction {
    Reaction { args, env, output: Seq::<char>::empty(), result }
}

/// What the request `action arg` does when the options are `args` and the
/// surroundings are `env`.
pub open spec fn reaction(
    action: Seq<char>,
    arg: Seq<char>,
    args: Seq<Entry>,
    env: EnvironmentView,
) -> Reaction {
    if action == "OPTION"@ {
        let name = before_first(arg, '=');
        let value = after_first(arg, '=');
        Reaction {
            args,
            env: env_after_option(env, name, value),
            output: line("OK"@),
            result: Ok(export_of_option(name, value)),
        }
    } else if action == "GETINFO"@ && arg == "pid"@ {
        answered(args, env, "D "@ + decimal(env.pid))
    } else if action == "GETINFO"@ && arg == "ttyinfo"@ {
        if env.tty_name is None {
            silent(args, env, Err(CommandErrorView::MissingEnv { name: "GPG_TTY"@ }))
        } else if env.display is None {
            silent(args, env, Err(CommandErrorView::MissingEnv { name: "DISPLAY"@ }))
        } else {
            answered(args, env, ttyinfo_line(env.tty_name->0, env.tty_type, env.display->0))
        }
    } else if action == "GETINFO"@ && arg == "flavor"@ {
        answered(args, env, "D keyring"@)
    } else if action == "GETINFO"@ && arg == "version"@ {
        answered(args, env, "D "@ + env.version)
    } else if action == "SETPROMPT"@ {
        acknowledged(assigned_if_absent(args, PROMPT_KEY@, Some(without(arg, ':'))), env)
    } else if action == "SETDESC"@ {
        match percent_decoded(arg) {
            Some(decoded) => silent(
                args,
                env,
                Ok(PendingView::EscapeMarkup { text: described(decoded) }),
            ),
            None => silent(args, env, Err(CommandErrorView::InvalidEncoding)),
        }
    } else if action == "GETPIN"@ {
        silent(args, env, Ok(PendingView::RunPicker { args: tokens(args) }))
    } else if action == "SETERROR"@ {
        acknowledged(restacked(args, MESSAGE_KEY@, arg, ERROR_SEPARATOR@), env)
    } else if action == "SETKEYINFO"@ || action == "BYE"@ {
        acknowledged(args, env)
    } else {
        Reaction {
            args,
            env,
            output: line("BYE"@),
            result: Err(CommandErrorView::UnknownAction { action, arg }),
        }
    }
}

/// The text to hand on for markup escaping, from a description whose
/// percent-escapes are resolved already.
pub fn description_text(decoded: &str) -> (text: String)
    ensures
        text@ == described(decoded@),
{
    replace_char(decoded, '\n', '\r')
}

/// What `SETDESC` returns, from what decoding its argument gave: the
/// decoded text, made ready, is left to the caller for markup escaping;
/// an argument that did not decode is an error.
pub fn description_request(decoded: Result<String, std::string::FromUtf8Error>) -> (res: Result<
    Pending,
    CommandError,
>)
    ensures
        match decoded {
            Ok(text) => outcome(res) == Ok::<PendingView, CommandErrorView>(
                PendingView::EscapeMarkup { text: described(text@) },
            ),
            Err(_) => outcome(res) == Err::<PendingView, CommandErrorView>(
                CommandErrorView::InvalidEncoding,
            ),
        },
{
    match decoded {
        Ok(text) => Ok(Pending::EscapeMarkup { text: description_text(text.as_str()) }),
        Err(_) => Err(CommandError::InvalidEncoding),
    }
}

fn handle_option(arg: &str, env: &mut Environment) -> (pending: Pending)
    ensures
        final(env)@ == env_after_option(
            old(env)@,
            before_first(arg@, '='),
            after_first(arg@, '='),
        ),
        pending@ == export_of_option(before_first(arg@, '='), after_first(arg@, '=')),
{
    let (name, value) = split_once(arg, '=');
    if same_text(name.as_str(), "ttyname") {
        env.tty_name = Some(value.clone());
        Pending::ExportEnv { name: "GPG_TTY".to_owned(), value }
    } else if same_text(name.as_str(), "ttytype") {
        env.tty_type = Some(value.clone());
        Pending::ExportEnv { name: "GPG_TERM".to_owned(), value }
    } else if same_text(name.as_str(), "lc-ctype") {
        env.lc_ctype = Some(value.clone());
        Pending::ExportEnv { name: "LC_CTYPE".to_owned(), value }
    } else if same_text(name.as_str(), "lc-messages") {
        env.lc_messages = Some(value.clone());
        Pending::ExportEnv { name: "LC_MESSAGES".to_owned(), value }
    } else {
        Pending::Nothing
    }
}

pub(crate) fn send_answer(writer: &mut Writer, data: &str)
    ensures
        final(writer)@ == old(writer)@ + (line(data@) + line("OK"@)),
        final(writer).pending() == old(writer).pending() + (line(data@) + line("OK"@)),
{
    writer.assuan_send(data);
    writer.assuan_send("OK");
    assert(writer@ =~= old(writer)@ + (line(data@) + line("OK"@)));
    assert(writer.pending() =~= old(writer).pending() + (line(data@) + line("OK"@)));
}

fn ttyinfo_text(tty: &str, term: &Option<String>, display: &str) -> (text: String)
    ensures
        text@ == ttyinfo_line(tty@, opt_text(*term), display@),
{
    let a = joined("D ", tty);
    let b = joined(a.as_str(), " ");
    let c = match term {
        Some(t) => joined(b.as_str(), t.as_str()),
        None => {
            assert(b@ =~= b@ + Seq::<char>::empty());
            b
        },
    };
    let d = joined(c.as_str(), " ");
    joined(d.as_str(), display)
}

/// Carries out the request `action arg`: changes the options and the
/// surroundings, sends the reply lines, and returns what is left to do, all
/// as [`reaction`] says.
pub fn handle_command(
    action: &str,
    arg: &str,
    rofi_args: &mut ArgStore,
    env: &mut Environment,
    writer: &mut Writer,
) -> (res: Result<Pending, CommandError>)
    ensures
        old(rofi_args).wf() ==> final(rofi_args).wf(),
        final(rofi_args)@ == reaction(action@, arg@, old(rofi_args)@, old(env)@).args,
        final(env)@ == reaction(action@, arg@, old(rofi_args)@, old(env)@).env,
        outcome(res) == reaction(action@, arg@, old(rofi_args)@, old(env)@).result,
        final(writer)@ == old(writer)@ + reaction(
            action@,
            arg@,
            old(rofi_args)@,
            old(env)@,
        ).output,
        final(writer).pending() == old(writer).pending() + reaction(
            action@,
            arg@,
            old(rofi_args)@,
            old(env)@,
        ).output,
{
    assert(writer@ =~= writer@ + Seq::<char>::empty());
    assert(writer.pending() =~= writer.pending() + Seq::<char>::empty());
    let getinfo = same_text(action, "GETINFO");
    if same_text(action, "OPTION") {
        let pending = handle_option(arg, env);
        writer.assuan_send("OK");
        Ok(pending)
    } else if getinfo && same_text(arg, "pid") {
        let number = decimal_text(env.pid);
        let data = joined("D ", number.as_str());
        send_answer(writer, data.as_str());
        Ok(Pending::Nothing)
    } else if getinfo && same_text(arg, "ttyinfo") {
        match (&env.tty_name, &env.display) {
            (None, _) => {
                Err(CommandError::MissingEnv { name: "GPG_TTY".to_owned() })
            },
            (Some(_), None) => {
                Err(CommandError::MissingEnv { name: "DISPLAY".to_owned() })
            },
            (Some(tty), Some(display)) => {
                let data = ttyinfo_text(tty.as_str(), &env.tty_type, display.as_str());
                send_answer(writer, data.as_str());
                Ok(Pending::Nothing)
            },
        }
    } else if getinfo && same_text(arg, "flavor") {
        send_answer(writer, "D keyring");
        Ok(Pending::Nothing)
    } else if getinfo && same_text(arg, "version") {
        let data = joined("D ", env.version.as_str());
        send_answer(writer, data.as_str());
        Ok(Pending::Nothing)
    } else if same_text(action, "SETPROMPT") {
        rofi_args.set_if_absent(PROMPT_KEY, Some(strip_char(arg, ':')));
        writer.assuan_send("OK");
        Ok(Pending::Nothing)
    } else if same_text(action, "SETDESC") {
        description_request(decode(arg))
    } else if same_text(action, "GETPIN") {
        Ok(Pending::RunPicker { args: rofi_args.to_invocation_argument_list() })
    } else if same_text(action, "SETERROR") {
        rofi_args.update_with_stack_rule(MESSAGE_KEY, arg, ERROR_SEPARATOR);
        writer.assuan_send("OK");
        Ok(Pending::Nothing)
    } else if same_text(action, "SETKEYINFO") || same_text(action, "BYE") {
        writer.assuan_send("OK");
        Ok(Pending::Nothing)
    } else {
        writer.assuan_send("BYE");
        Err(CommandError::UnknownAction { action: action.to_owned(), arg: arg.to_owned() })
    }
}

/// Completes a `SETDESC` request: `escaped`, the description as escaped for
/// markup, replaces what stood under the message key, and the success line
/// is sent.
pub fn finish_setdesc(escaped: &str, rofi_args: &mut ArgStore, writer: &mut Writer)
    ensures
        old(rofi_args).wf() ==> final(rofi_args).wf(),
        final(rofi_args)@ == assigned(old(rofi_args)@, MESSAGE_KEY@, Some(escaped@)),
        final(writer)@ == old(writer)@ + line("OK"@),
        final(writer).pending() == old(writer).pending() + line("OK"@),
{
    rofi_args.set(MESSAGE_KEY, Some(escaped.to_owned()));
    writer.assuan_send("OK");
}

} // verus!
