//! One session: the options for the picker, the surroundings and the reply
//! sink under one roof, with the order in which the protocol lets things
//! happen.

use crate::command::{
    finish_setdesc, handle_command, outcome, reaction, CommandError, CommandErrorView,
    Environment, EnvironmentView, Pending, PendingView, MESSAGE_KEY, PROMPT_KEY,
};
use crate::picker::{finish_getpin, picker_reply};
use crate::store::{assigned, distinct_keys, plain, position_found, ArgStore, Entry};
use crate::text::{after_first, before_first, opt_text, split_once};
use crate::writer::{line, Writer};
use vstd::prelude::*;

verus! {

/// The line with which a session opens.
pub const GREETING: &'static str = "OK Please go ahead";

/// The options with which a session starts: the fixed flags of the picker,
/// the display, and the prompt where a non-empty one is configured.
pub open spec fn initial_entries(display: Seq<char>, prompt: Option<Seq<char>>) -> Seq<Entry> {
    let base = seq![
        plain("-dmenu"@, None),
        plain("-display"@, Some(display)),
        plain("-input"@, Some("/dev/null"@)),
        plain("-password"@, None),
        plain("-disable-history"@, None),
        plain("-l"@, Some("0"@)),
    ];
    match prompt {
        Some(text) => if text.len() > 0 {
            base.push(plain(PROMPT_KEY@, Some(text)))
        } else {
            base
        },
        None => base,
    }
}

proof fn assigned_new(s: Seq<Entry>, key: Seq<char>, value: Option<Seq<char>>)
    requires
        forall|j: int| 0 <= j < s.len() ==> s[j].key != key,
    ensures
        assigned(s, key, value) == s.push(plain(key, value)),
{
    position_found(s, key, s.len() as int);
}

proof fn flags_differ()
    ensures
        "-dmenu"@ != "-display"@,
        "-dmenu"@ != "-input"@,
        "-dmenu"@ != "-password"@,
        "-dmenu"@ != "-disable-history"@,
        "-dmenu"@ != "-l"@,
        "-dmenu"@ != "-p"@,
        "-display"@ != "-input"@,
        "-display"@ != "-password"@,
        "-display"@ != "-disable-history"@,
        "-display"@ != "-l"@,
        "-display"@ != "-p"@,
        "-input"@ != "-password"@,
        "-input"@ != "-disable-history"@,
        "-input"@ != "-l"@,
        "-input"@ != "-p"@,
        "-password"@ != "-disable-history"@,
        "-password"@ != "-l"@,
        "-password"@ != "-p"@,
        "-disable-history"@ != "-l"@,
        "-disable-history"@ != "-p"@,
        "-l"@ != "-p"@,
{
    reveal_strlit("-dmenu");
    reveal_strlit("-display");
    reveal_strlit("-input");
    reveal_strlit("-password");
    reveal_strlit("-disable-history");
    reveal_strlit("-l");
    reveal_strlit("-p");
    assert("-dmenu"@.len() == 6 && "-dmenu"@[1] == 'd');
    assert("-display"@.len() == 8);
    assert("-input"@.len() == 6 && "-input"@[1] == 'i');
    assert("-password"@.len() == 9);
    assert("-disable-history"@.len() == 16);
    assert("-l"@.len() == 2 && "-l"@[1] == 'l');
    assert("-p"@.len() == 2 && "-p"@[1] == 'p');
}

/// Builds the options with which a session starts.
pub fn initial_args(display: &str, prompt: Option<String>) -> (store: ArgStore)
    ensures
        store.wf(),
        store@ == initial_entries(display@, opt_text(prompt)),
{
    let mut store = ArgStore::new();
    proof {
        flags_differ();
        assigned_new(store@, "-dmenu"@, None);
    }
    store.set("-dmenu", None);
    proof {
        assigned_new(store@, "-display"@, Some(display@));
    }
    store.set("-display", Some(display.to_owned()));
    proof {
        assigned_new(store@, "-input"@, Some("/dev/null"@));
    }
    store.set("-input", Some("/dev/null".to_owned()));
    proof {
        assigned_new(store@, "-password"@, None);
    }
    store.set("-password", None);
    proof {
        assigned_new(store@, "-disable-history"@, None);
    }
    store.set("-disable-history", None);
    proof {
        assigned_new(store@, "-l"@, Some("0"@));
    }
    store.set("-l", Some("0".to_owned()));
    assert(store@ =~= initial_entries(display@, None));
    match prompt {
        Some(text) => {
            if text.as_str().unicode_len() > 0 {
                proof {
                    assigned_new(store@, PROMPT_KEY@, Some(text@));
                }
                store.set(PROMPT_KEY, Some(text));
            }
        },
        None => {},
    }
    store
}

/// Splits a request line into its action and its argument: what stands
/// before the first space, and what stands after it. A line without a
/// space is all action.
pub fn parse_request(request: &str) -> (parts: (String, String))
    ensures
        parts.0@ == before_first(request@, ' '),
        parts.1@ == after_first(request@, ' '),
{
    split_once(request, ' ')
}

/// Where a session stands.
#[derive(Clone, Copy, PartialEq, Eq, Structural, Debug)]
pub enum Phase {
    /// The next request can be taken.
    Active,
    /// A description is out for markup escaping.
    Escaping,
    /// The picker is running.
    Picking,
    /// The session is over: no request is taken any more.
    Ended,
}

/// A session as the contracts see it.
pub struct SessionView {
    /// The options for the picker.
    pub args: Seq<Entry>,
    /// The surroundings.
    pub env: EnvironmentView,
    /// Everything sent since the session started.
    pub sent: Seq<char>,
    /// Where the session stands.
    pub phase: Phase,
}

/// The phase in which a request leaves an active session: waiting for the
/// caller where the request left work to it, over after any error, and
/// active otherwise.
pub open spec fn phase_after(result: Result<PendingView, CommandErrorView>) -> Phase {
    match result {
        Ok(PendingView::EscapeMarkup { .. }) => Phase::Escaping,
        Ok(PendingView::RunPicker { .. }) => Phase::Picking,
        Ok(_) => Phase::Active,
        Err(_) => Phase::Ended,
    }
}

/// What a request line makes a session send: the reply of the request in
/// an active session, and nothing in any other phase.
pub open spec fn request_output(s: SessionView, request: Seq<char>) -> Seq<char> {
    if s.phase == Phase::Active {
        reaction(before_first(request, ' '), after_first(request, ' '), s.args, s.env).output
    } else {
        Seq::empty()
    }
}

/// What a request line does to a session, and what it returns. Only an
/// active session takes a request: in any other phase the line changes
/// nothing and is turned away.
pub open spec fn after_request(s: SessionView, request: Seq<char>) -> (
    SessionView,
    Result<PendingView, CommandErrorView>,
) {
    if s.phase == Phase::Active {
        let r = reaction(before_first(request, ' '), after_first(request, ' '), s.args, s.env);
        (
            SessionView {
                args: r.args,
                env: r.env,
                sent: s.sent + r.output,
                phase: phase_after(r.result),
            },
            r.result,
        )
    } else {
        (s, Err(CommandErrorView::OutOfTurn))
    }
}

/// One session of the protocol.
pub struct Session {
    args: ArgStore,
    env: Environment,
    writer: Writer,
    phase: Phase,
}

impl View for Session {
    type V = SessionView;

    closed spec fn view(&self) -> SessionView {
        SessionView { args: self.args@, env: self.env@, sent: self.writer@, phase: self.phase }
    }
}

impl Session {
    /// What was sent and has not been taken yet.
    pub closed spec fn pending(&self) -> Seq<char> {
        self.writer.pending()
    }

    /// A session is well formed when no option stands twice and what it has
    /// sent begins with the greeting line.
    pub open spec fn wf(&self) -> bool {
        &&& distinct_keys(self@.args)
        &&& line(GREETING@).is_prefix_of(self@.sent)
    }

    /// Starts a session: the options are the initial ones, and the greeting
    /// line is sent before any request is taken.
    pub fn start(display: &str, prompt: Option<String>, env: Environment) -> (session: Session)
        ensures
            session.wf(),
            session@.args == initial_entries(display@, opt_text(prompt)),
            session@.env == env@,
            session@.sent == line(GREETING@),
            session.pending() == line(GREETING@),
            session@.phase == Phase::Active,
    {
        let args = initial_args(display, prompt);
        let mut writer = Writer::new();
        writer.assuan_send(GREETING);
        assert(writer@ =~= line(GREETING@));
        assert(writer.pending() =~= line(GREETING@));
        Session { args, env, writer, phase: Phase::Active }
    }

    /// Takes one request line, as [`after_request`] says.
    pub fn request(&mut self, request: &str) -> (res: Result<Pending, CommandError>)
        ensures
            old(self).wf() ==> final(self).wf(),
            final(self)@ == after_request(old(self)@, request@).0,
            outcome(res) == after_request(old(self)@, request@).1,
            final(self).pending() == old(self).pending() + request_output(old(self)@, request@),
    {
        match self.phase {
            Phase::Active => {
                let (action, arg) = parse_request(request);
                let res = handle_command(
                    action.as_str(),
                    arg.as_str(),
                    &mut self.args,
                    &mut self.env,
                    &mut self.writer,
                );
                self.phase = match &res {
                    Ok(Pending::EscapeMarkup { .. }) => Phase::Escaping,
                    Ok(Pending::RunPicker { .. }) => Phase::Picking,
                    Ok(_) => Phase::Active,
                    Err(_) => Phase::Ended,
                };
                res
            },
            _ => {
                assert(self.pending() =~= old(self).pending() + Seq::<char>::empty());
                Err(CommandError::OutOfTurn)
            },
        }
    }

    /// Hands in the description as escaped for markup. A session that waits
    /// for it stores the text under the message key, sends the success line
    /// and is active again; any other session stays as it is. Returns
    /// whether the text was taken.
    pub fn escaped(&mut self, text: &str) -> (taken: bool)
        ensures
            old(self).wf() ==> final(self).wf(),
            taken == (old(self)@.phase == Phase::Escaping),
            taken ==> final(self)@ == (SessionView {
                args: assigned(old(self)@.args, MESSAGE_KEY@, Some(text@)),
                env: old(self)@.env,
                sent: old(self)@.sent + line("OK"@),
                phase: Phase::Active,
            }),
            taken ==> final(self).pending() == old(self).pending() + line("OK"@),
            !taken ==> final(self)@ == old(self)@ && final(self).pending() == old(self).pending(),
    {
        match self.phase {
            Phase::Escaping => {
                finish_setdesc(text, &mut self.args, &mut self.writer);
                self.phase = Phase::Active;
                true
            },
            _ => false,
        }
    }

    /// Hands in how the picker ended. A session that waits for it sends what
    /// [`picker_reply`] says and is active again, whether a pin was obtained
    /// or not; any other session stays as it is. Returns whether the outcome
    /// was taken.
    pub fn picker_exited(&mut self, success: bool, stdout: &str, stderr: &str) -> (taken: bool)
        ensures
            old(self).wf() ==> final(self).wf(),
            taken == (old(self)@.phase == Phase::Picking),
            taken ==> final(self)@ == (SessionView {
                args: old(self)@.args,
                env: old(self)@.env,
                sent: old(self)@.sent + picker_reply(success, stdout@, stderr@),
                phase: Phase::Active,
            }),
            taken ==> final(self).pending() == old(self).pending() + picker_reply(
                success,
                stdout@,
                stderr@,
            ),
            !taken ==> final(self)@ == old(self)@ && final(self).pending() == old(self).pending(),
    {
        match self.phase {
            Phase::Picking => {
                let _obtained: bool = finish_getpin(success, stdout, stderr, &mut self.writer);
                self.phase = Phase::Active;
                true
            },
            _ => false,
        }
    }

    /// Hands out what was sent since the last call, for the caller to carry
    /// to the peer.
    pub fn take_pending(&mut self) -> (text: String)
        ensures
            text@ == old(self).pending(),
            final(self).pending() == Seq::<char>::empty(),
            final(self)@ == old(self)@,
    {
        self.writer.take_pending()
    }

    /// Everything sent since the session started.
    pub fn transcript(&self) -> (text: String)
        ensures
            text@ == self@.sent,
    {
        self.writer.transcript()
    }

    /// Where the session stands.
    pub fn phase(&self) -> (phase: Phase)
        ensures
            phase == self@.phase,
    {
        self.phase
    }

    /// The options for the picker.
    pub fn args(&self) -> (args: &ArgStore)
        ensures
            args@ == self@.args,
    {
        &self.args
    }

    /// The surroundings.
    pub fn env(&self) -> (env: &Environment)
        ensures
            env@ == self@.env,
    {
        &self.env
    }
}

} // verus!
