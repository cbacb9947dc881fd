//! What holds of the interpreter across requests.

use crate::command::{
    described, reaction, ttyinfo_line, CommandErrorView, EnvironmentView, PendingView, ERROR_SEPARATOR,
    MESSAGE_KEY, PROMPT_KEY,
};
use crate::session::{after_request, request_output, Phase, SessionView, GREETING};
use crate::store::{
    as_map, assigned, assigned_if_absent, base_of, has_key, lookup, plain, position,
    position_bounds, position_found, stacked, Entry,
};
use crate::text::{
    after_first, before_first, first_index, first_index_bounds, first_index_found, without,
    without_holds_none,
};
use crate::writer::line;
use vstd::prelude::*;

verus! {

/// A text `name=value` whose `name` holds no `=` splits into `name` and `value`.
pub proof fn split_of_assignment(name: Seq<char>, value: Seq<char>)
    requires
        !name.contains('='),
    ensures
        before_first(name + seq!['='] + value, '=') == name,
        after_first(name + seq!['='] + value, '=') == value,
{
    let s = name + seq!['='] + value;
    assert forall|j: int| 0 <= j < name.len() implies s[j] != '=' by {
        assert(s[j] == name[j]);
        assert(name.contains(name[j]));
    }
    assert(s[name.len() as int] == '=');
    first_index_found(s, '=', name.len() as int);
    assert(s.subrange(0, name.len() as int) =~= name);
    assert(s.subrange(name.len() as int + 1, s.len() as int) =~= value);
}

/// The two parts of a split hold everything but the separator at which the
/// text was split: the first part holds no separator; a text with a
/// separator is the first part, the separator and the second part; a text
/// without one is the first part, and the second part is empty.
pub proof fn split_parts(s: Seq<char>, sep: char)
    ensures
        !before_first(s, sep).contains(sep),
        s.contains(sep) ==> s == before_first(s, sep) + seq![sep] + after_first(s, sep),
        !s.contains(sep) ==> before_first(s, sep) == s && after_first(s, sep) == Seq::<
            char,
        >::empty(),
{
    first_index_bounds(s, sep);
    let at = first_index(s, sep);
    let head = before_first(s, sep);
    assert forall|j: int| 0 <= j < head.len() implies head[j] != sep by {
        assert(head[j] == s[j]);
    }
    if at < s.len() {
        assert(s.contains(sep));
        assert(s =~= head + seq![sep] + after_first(s, sep));
    } else {
        assert(head =~= s);
        assert forall|j: int| 0 <= j < s.len() implies s[j] != sep by {}
    }
}

/// Whether `name` is one of the four options that the interpreter records.
pub open spec fn recognized(name: Seq<char>) -> bool {
    name == "ttyname"@ || name == "ttytype"@ || name == "lc-ctype"@ || name == "lc-messages"@
}

/// The verbs of the protocol are pairwise different texts.
pub proof fn verbs_differ()
    ensures
        "OPTION"@ != "GETINFO"@,
        "SETPROMPT"@ != "OPTION"@,
        "SETPROMPT"@ != "GETINFO"@,
        "SETERROR"@ != "OPTION"@,
        "SETERROR"@ != "GETINFO"@,
        "SETERROR"@ != "SETPROMPT"@,
        "SETERROR"@ != "SETDESC"@,
        "SETERROR"@ != "GETPIN"@,
        "ttyinfo"@ != "pid"@,
{
    reveal_strlit("OPTION");
    reveal_strlit("GETINFO");
    reveal_strlit("SETPROMPT");
    reveal_strlit("SETDESC");
    reveal_strlit("GETPIN");
    reveal_strlit("SETERROR");
    reveal_strlit("ttyinfo");
    reveal_strlit("pid");
    assert("OPTION"@.len() == 6);
    assert("GETINFO"@.len() == 7);
    assert("SETPROMPT"@.len() == 9);
    assert("SETDESC"@.len() == 7);
    assert("GETPIN"@.len() == 6);
    assert("SETERROR"@.len() == 8);
    assert("ttyinfo"@.len() == 7);
    assert("pid"@.len() == 3);
}

/// The names of the recorded options are pairwise different texts, and none holds `=`.
pub proof fn option_names_differ()
    ensures
        "ttyname"@ != "ttytype"@,
        "ttyname"@ != "lc-ctype"@,
        "ttyname"@ != "lc-messages"@,
        "ttytype"@ != "lc-ctype"@,
        "ttytype"@ != "lc-messages"@,
        "lc-ctype"@ != "lc-messages"@,
        !"ttyname"@.contains('='),
        !"ttytype"@.contains('='),
        !"lc-ctype"@.contains('='),
        !"lc-messages"@.contains('='),
{
    reveal_strlit("ttyname");
    reveal_strlit("ttytype");
    reveal_strlit("lc-ctype");
    reveal_strlit("lc-messages");
    assert("ttyname"@.len() == 7);
    assert("ttytype"@.len() == 7);
    assert("lc-ctype"@.len() == 8);
    assert("lc-messages"@.len() == 11);
    assert("ttyname"@[3] == 'n');
    assert("ttytype"@[3] == 't');
    assert(!"ttyname"@.contains('=')) by {
        assert forall|i: int| 0 <= i < 7 implies "ttyname"@[i] != '=' by {}
    }
    assert(!"ttytype"@.contains('=')) by {
        assert forall|i: int| 0 <= i < 7 implies "ttytype"@[i] != '=' by {}
    }
    assert(!"lc-ctype"@.contains('=')) by {
        assert forall|i: int| 0 <= i < 8 implies "lc-ctype"@[i] != '=' by {}
    }
    assert(!"lc-messages"@.contains('=')) by {
        assert forall|i: int| 0 <= i < 11 implies "lc-messages"@[i] != '=' by {}
    }
}

/// After `OPTION name=value` with a recorded `name`, `GETINFO ttyinfo`
/// answers with the terminal's name, its type or nothing, and the display,
/// in this order and with single spaces between them, as soon as the
/// terminal's name and the display are known. Each of the three is the
/// value just given where the option set it, and the earlier one otherwise.
pub proof fn ttyinfo_reflects_option(
    args: Seq<Entry>,
    env: EnvironmentView,
    name: Seq<char>,
    value: Seq<char>,
)
    requires
        recognized(name),
    ensures
        ({
            let set = reaction("OPTION"@, name + seq!['='] + value, args, env);
            let tty = if name == "ttyname"@ {
                Some(value)
            } else {
                env.tty_name
            };
            let term = if name == "ttytype"@ {
                Some(value)
            } else {
                env.tty_type
            };
            let asked = reaction("GETINFO"@, "ttyinfo"@, set.args, set.env);
            &&& set.args == args
            &&& set.output == line("OK"@)
            &&& set.env.tty_name == tty
            &&& set.env.tty_type == term
            &&& set.env.display == env.display
            &&& tty is Some && env.display is Some ==> {
                &&& asked.output == line(ttyinfo_line(tty->0, term, env.display->0)) + line("OK"@)
                &&& asked.result is Ok
                &&& asked.args == args
                &&& asked.env == set.env
            }
        }),
{
    verbs_differ();
    option_names_differ();
    split_of_assignment(name, value);
}

/// An entry added under a key that was absent is found under that key.
pub proof fn lookup_after_assignment(s: Seq<Entry>, key: Seq<char>, value: Option<Seq<char>>)
    ensures
        lookup(assigned(s, key, value), key) == Some(value),
        base_of(assigned(s, key, value), key) == Some(value),
        lookup(assigned_if_absent(s, key, value), key) == if has_key(s, key) {
            lookup(s, key)
        } else {
            Some(value)
        },
{
    position_bounds(s, key);
    let i = position(s, key);
    if has_key(s, key) {
        let t = s.update(i, plain(key, value));
        assert forall|j: int| 0 <= j < i implies t[j].key != key by {
            assert(t[j] == s[j]);
        }
        position_found(t, key, i);
    } else {
        let t = s.push(plain(key, value));
        assert forall|j: int| 0 <= j < i implies t[j].key != key by {
            assert(t[j] == s[j]);
        }
        position_found(t, key, i);
    }
}

/// Giving one key a value leaves what stands under every other key.
pub proof fn lookup_elsewhere(
    s: Seq<Entry>,
    key: Seq<char>,
    value: Option<Seq<char>>,
    other: Seq<char>,
)
    requires
        other != key,
    ensures
        lookup(assigned(s, key, value), other) == lookup(s, other),
        lookup(assigned_if_absent(s, key, value), other) == lookup(s, other),
{
    position_bounds(s, key);
    position_bounds(s, other);
    let i = position(s, other);
    if has_key(s, key) {
        let t = s.update(position(s, key), plain(key, value));
        assert forall|j: int| 0 <= j < i implies t[j].key != other by {
            assert(t[j].key == s[j].key);
        }
        if i < s.len() {
            assert(t[i] == s[i]);
        }
        position_found(t, other, i);
    } else {
        let t = s.push(plain(key, value));
        assert forall|j: int| 0 <= j < i implies t[j].key != other by {
            assert(t[j] == s[j]);
        }
        if i < s.len() {
            assert(t[i] == s[i]);
            position_found(t, other, i);
        } else {
            assert(t[i].key == key);
            position_found(t, other, i + 1);
        }
    }
}

/// As a mapping, the options after `key` was given `value` are the options
/// before with `value` put under `key`; and where `key` is given a value
/// only if it is absent, a key that was there keeps what it had.
pub proof fn assignment_is_insert(s: Seq<Entry>, key: Seq<char>, value: Option<Seq<char>>)
    ensures
        as_map(assigned(s, key, value)) == as_map(s).insert(key, value),
        as_map(assigned_if_absent(s, key, value)) == if has_key(s, key) {
            as_map(s)
        } else {
            as_map(s).insert(key, value)
        },
{
    lookup_after_assignment(s, key, value);
    let a = as_map(assigned(s, key, value));
    let b = as_map(s).insert(key, value);
    assert forall|k: Seq<char>| a.dom().contains(k) == b.dom().contains(k) by {
        if k != key {
            lookup_elsewhere(s, key, value, k);
        }
    }
    assert forall|k: Seq<char>| a.dom().contains(k) implies a[k] == b[k] by {
        if k != key {
            lookup_elsewhere(s, key, value, k);
        }
    }
    assert(a =~= b);
    if !has_key(s, key) {
        assert(assigned_if_absent(s, key, value) == assigned(s, key, value));
    }
}

/// The prompt is set once: after a first `SETPROMPT first` the prompt is
/// `first` without its colons wherever none was set before, and a later
/// `SETPROMPT` changes no option.
pub proof fn first_prompt_stays(
    args: Seq<Entry>,
    env: EnvironmentView,
    first: Seq<char>,
    second: Seq<char>,
)
    ensures
        ({
            let once = reaction("SETPROMPT"@, first, args, env);
            let twice = reaction("SETPROMPT"@, second, once.args, once.env);
            &&& !has_key(args, PROMPT_KEY@) ==> lookup(once.args, PROMPT_KEY@) == Some(
                Some(without(first, ':')),
            )
            &&& !without(first, ':').contains(':')
            &&& has_key(args, PROMPT_KEY@) ==> once.args == args
            &&& twice.args == once.args
            &&& once.output == line("OK"@)
            &&& twice.output == line("OK"@)
        }),
{
    verbs_differ();
    without_holds_none(first, ':');
    lookup_after_assignment(args, PROMPT_KEY@, Some(without(first, ':')));
}

/// Replacing the entry under `key` by another entry under `key` leaves
/// every key where it stood.
pub proof fn position_after_update(s: Seq<Entry>, key: Seq<char>, e: Entry, other: Seq<char>)
    requires
        has_key(s, key),
        e.key == key,
    ensures
        position(s.update(position(s, key), e), other) == position(s, other),
{
    position_bounds(s, key);
    position_bounds(s, other);
    let t = s.update(position(s, key), e);
    let i = position(s, other);
    assert forall|j: int| 0 <= j < i implies t[j].key != other by {
        assert(t[j].key == s[j].key);
    }
    if i < s.len() {
        assert(t[i].key == s[i].key);
    }
    position_found(t, other, i);
}

/// The options after the requests `SETERROR e` for each `e` of `errors`, in order.
pub open spec fn after_errors(
    args: Seq<Entry>,
    env: EnvironmentView,
    errors: Seq<Seq<char>>,
) -> Seq<Entry>
    decreases errors.len(),
{
    if errors.len() == 0 {
        args
    } else {
        reaction("SETERROR"@, errors.last(), after_errors(args, env, errors.drop_last()), env).args
    }
}

/// Errors laid over a text that was set leave that text as the base, and
/// the last of them, the separator and the base as the value.
pub proof fn errors_keep_base(
    args: Seq<Entry>,
    env: EnvironmentView,
    base: Seq<char>,
    errors: Seq<Seq<char>>,
)
    requires
        base_of(args, MESSAGE_KEY@) == Some(Some(base)),
    ensures
        base_of(after_errors(args, env, errors), MESSAGE_KEY@) == Some(Some(base)),
        errors.len() > 0 ==> lookup(after_errors(args, env, errors), MESSAGE_KEY@) == Some(
            Some(errors.last() + ERROR_SEPARATOR@ + base),
        ),
        forall|other: Seq<char>|
            other != MESSAGE_KEY@ ==> lookup(after_errors(args, env, errors), other) == lookup(
                args,
                other,
            ),
    decreases errors.len(),
{
    if errors.len() > 0 {
        verbs_differ();
        let before = after_errors(args, env, errors.drop_last());
        errors_keep_base(args, env, base, errors.drop_last());
        position_bounds(before, MESSAGE_KEY@);
        let at = position(before, MESSAGE_KEY@);
        let laid = Entry {
            key: MESSAGE_KEY@,
            value: Some(stacked(errors.last(), ERROR_SEPARATOR@, base)),
            base: Some(base),
        };
        let after = before.update(at, laid);
        assert(after_errors(args, env, errors) == after);
        position_after_update(before, MESSAGE_KEY@, laid, MESSAGE_KEY@);
        assert(after[at] == laid);
        assert forall|other: Seq<char>| other != MESSAGE_KEY@ implies lookup(
            after_errors(args, env, errors),
            other,
        ) == lookup(args, other) by {
            position_after_update(before, MESSAGE_KEY@, laid, other);
            position_bounds(before, other);
            if has_key(before, other) {
                assert(after[position(before, other)] == before[position(before, other)]);
            }
        }
    }
}

/// Errors stack on the description, not on one another: once a description
/// is stored under the message key, then after any number of `SETERROR`
/// requests, at least one, the message is the text of the last of them,
/// the separator and the description, whatever the description holds. The
/// description stays the base, and no other option changes.
pub proof fn errors_stack_on_description(
    args: Seq<Entry>,
    env: EnvironmentView,
    description: Seq<char>,
    errors: Seq<Seq<char>>,
)
    requires
        errors.len() > 0,
    ensures
        ({
            let stored = assigned(args, MESSAGE_KEY@, Some(description));
            let last = after_errors(stored, env, errors);
            &&& lookup(last, MESSAGE_KEY@) == Some(
                Some(errors.last() + ERROR_SEPARATOR@ + description),
            )
            &&& base_of(last, MESSAGE_KEY@) == Some(Some(description))
            &&& forall|other: Seq<char>|
                other != MESSAGE_KEY@ ==> lookup(last, other) == lookup(args, other)
        }),
{
    let stored = assigned(args, MESSAGE_KEY@, Some(description));
    lookup_after_assignment(args, MESSAGE_KEY@, Some(description));
    errors_keep_base(stored, env, description, errors);
    assert forall|other: Seq<char>| other != MESSAGE_KEY@ implies lookup(stored, other) == lookup(
        args,
        other,
    ) by {
        lookup_elsewhere(args, MESSAGE_KEY@, Some(description), other);
    }
}

/// `SETERROR` without a message under the message key changes no option.
pub proof fn error_without_description(args: Seq<Entry>, env: EnvironmentView, error: Seq<char>)
    requires
        !has_key(args, MESSAGE_KEY@),
    ensures
        reaction("SETERROR"@, error, args, env).args == args,
        reaction("SETERROR"@, error, args, env).output == line("OK"@),
{
    verbs_differ();
}

/// A request that the interpreter does not know ends the session: the
/// closing line is sent in place of the success line, and whatever line
/// comes next is turned away, sends nothing and changes nothing.
pub proof fn unknown_action_ends_session(s: SessionView, request: Seq<char>, next: Seq<char>)
    requires
        s.phase == Phase::Active,
        after_request(s, request).1 is Err,
        after_request(s, request).1->Err_0 is UnknownAction,
    ensures
        ({
            let ended = after_request(s, request).0;
            &&& ended.sent == s.sent + line("BYE"@)
            &&& ended.args == s.args
            &&& ended.env == s.env
            &&& ended.phase == Phase::Ended
            &&& after_request(ended, next).0 == ended
            &&& after_request(ended, next).1 == Err::<PendingView, CommandErrorView>(
                CommandErrorView::OutOfTurn,
            )
            &&& request_output(ended, next) == Seq::<char>::empty()
        }),
{
}

/// The greeting stays the first thing sent: no request line changes what
/// a session had sent before it.
pub proof fn greeting_stays_first(s: SessionView, request: Seq<char>)
    requires
        line(GREETING@).is_prefix_of(s.sent),
    ensures
        s.sent.is_prefix_of(after_request(s, request).0.sent),
        line(GREETING@).is_prefix_of(after_request(s, request).0.sent),
{
}

/// A description made ready for escaping is as long as the decoded text,
/// holds a carriage return wherever that text held a line feed, and holds
/// no line feed any more.
pub proof fn description_holds_no_line_feed(decoded: Seq<char>)
    ensures
        described(decoded).len() == decoded.len(),
        !described(decoded).contains('\n'),
        forall|i: int|
            0 <= i < decoded.len() ==> described(decoded)[i] == (if decoded[i] == '\n' {
                '\r'
            } else {
                decoded[i]
            }),
{
}

} // verus!
