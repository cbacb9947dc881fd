use pinentry_rofi::command::{
    description_request, finish_setdesc, handle_command, CommandError, Environment, Pending,
    ERROR_SEPARATOR,
};
use pinentry_rofi::picker::{classify, finish_getpin, send_outcome, PickerOutcome};
use pinentry_rofi::session::initial_args;
use pinentry_rofi::store::ArgStore;
use pinentry_rofi::writer::Writer;

fn bare_env() -> Environment {
    Environment {
        tty_name: None,
        tty_type: None,
        lc_ctype: None,
        lc_messages: None,
        display: None,
        pid: 1,
        version: "1.2.3".to_owned(),
    }
}

fn run(action: &str, arg: &str, args: &mut ArgStore, env: &mut Environment) -> (Result<Pending, CommandError>, String) {
    let mut writer = Writer::new();
    let res = handle_command(action, arg, args, env, &mut writer);
    (res, writer.transcript())
}

#[test]
fn option_sets_the_four_known_names() {
    let mut args = ArgStore::new();
    let mut env = bare_env();
    let (res, out) = run("OPTION", "ttyname=/dev/pts/7", &mut args, &mut env);
    assert_eq!(out, "OK\n");
    match res {
        Ok(Pending::ExportEnv { name, value }) => {
            assert_eq!(name, "GPG_TTY");
            assert_eq!(value, "/dev/pts/7");
        }
        _ => panic!("ttyname is to be exported"),
    }
    let (res, _) = run("OPTION", "ttytype=xterm", &mut args, &mut env);
    assert!(matches!(res, Ok(Pending::ExportEnv { name, value }) if name == "GPG_TERM" && value == "xterm"));
    let (res, _) = run("OPTION", "lc-ctype=en_US.UTF-8", &mut args, &mut env);
    assert!(matches!(res, Ok(Pending::ExportEnv { name, value }) if name == "LC_CTYPE" && value == "en_US.UTF-8"));
    let (res, _) = run("OPTION", "lc-messages=C", &mut args, &mut env);
    assert!(matches!(res, Ok(Pending::ExportEnv { name, value }) if name == "LC_MESSAGES" && value == "C"));
    assert_eq!(env.tty_name, Some("/dev/pts/7".to_owned()));
    assert_eq!(env.tty_type, Some("xterm".to_owned()));
    assert_eq!(env.lc_ctype, Some("en_US.UTF-8".to_owned()));
    assert_eq!(env.lc_messages, Some("C".to_owned()));
    assert_eq!(args.len(), 0);
}

#[test]
fn option_without_value_sets_the_empty_text() {
    let mut args = ArgStore::new();
    let mut env = bare_env();
    let (res, out) = run("OPTION", "ttytype", &mut args, &mut env);
    assert_eq!(out, "OK\n");
    assert!(matches!(res, Ok(Pending::ExportEnv { name, value }) if name == "GPG_TERM" && value.is_empty()));
    assert_eq!(env.tty_type, Some(String::new()));
}

#[test]
fn option_with_unknown_name_is_accepted() {
    let mut args = ArgStore::new();
    let mut env = bare_env();
    let (res, out) = run("OPTION", "grab", &mut args, &mut env);
    assert_eq!(out, "OK\n");
    assert!(matches!(res, Ok(Pending::Nothing)));
    assert_eq!(env.tty_name, None);
    assert_eq!(env.tty_type, None);
}

#[test]
fn ttyinfo_reflects_the_options() {
    let mut args = ArgStore::new();
    let mut env = bare_env();
    env.display = Some(":3".to_owned());
    run("OPTION", "ttyname=/dev/pts/1", &mut args, &mut env);
    let (res, out) = run("GETINFO", "ttyinfo", &mut args, &mut env);
    assert!(matches!(res, Ok(Pending::Nothing)));
    assert_eq!(out, "D /dev/pts/1  :3\nOK\n");
    run("OPTION", "ttytype=tmux-256color", &mut args, &mut env);
    let (_, out) = run("GETINFO", "ttyinfo", &mut args, &mut env);
    assert_eq!(out, "D /dev/pts/1 tmux-256color :3\nOK\n");
}

#[test]
fn ttyinfo_without_tty_name_fails() {
    let mut args = ArgStore::new();
    let mut env = bare_env();
    env.display = Some(":3".to_owned());
    let (res, out) = run("GETINFO", "ttyinfo", &mut args, &mut env);
    assert_eq!(out, "");
    match res {
        Err(CommandError::MissingEnv { name }) => assert_eq!(name, "GPG_TTY"),
        _ => panic!("the terminal's name is missing"),
    }
}

#[test]
fn ttyinfo_without_display_fails() {
    let mut args = ArgStore::new();
    let mut env = bare_env();
    env.tty_name = Some("/dev/pts/1".to_owned());
    let (res, out) = run("GETINFO", "ttyinfo", &mut args, &mut env);
    assert_eq!(out, "");
    match res {
        Err(e) => {
            assert!(matches!(&e, CommandError::MissingEnv { name } if name == "DISPLAY"));
            assert_eq!(e.message(), "environment value not set: DISPLAY");
        }
        _ => panic!("the display is missing"),
    }
}

#[test]
fn getinfo_answers() {
    let mut args = ArgStore::new();
    let mut env = bare_env();
    env.pid = 4294967295;
    assert_eq!(run("GETINFO", "pid", &mut args, &mut env).1, "D 4294967295\nOK\n");
    assert_eq!(run("GETINFO", "flavor", &mut args, &mut env).1, "D keyring\nOK\n");
    assert_eq!(run("GETINFO", "version", &mut args, &mut env).1, "D 1.2.3\nOK\n");
}

#[test]
fn getinfo_with_unknown_subject_ends_the_session() {
    let mut args = ArgStore::new();
    let mut env = bare_env();
    let (res, out) = run("GETINFO", "colour", &mut args, &mut env);
    assert_eq!(out, "BYE\n");
    assert!(matches!(res, Err(CommandError::UnknownAction { action, arg }) if action == "GETINFO" && arg == "colour"));
}

#[test]
fn setprompt_strips_colons_and_first_wins() {
    let mut args = ArgStore::new();
    let mut env = bare_env();
    let (res, out) = run("SETPROMPT", "a:b:c", &mut args, &mut env);
    assert!(matches!(res, Ok(Pending::Nothing)));
    assert_eq!(out, "OK\n");
    assert_eq!(args.get("-p"), Some(Some("abc".to_owned())));
    let (_, out) = run("SETPROMPT", "other:", &mut args, &mut env);
    assert_eq!(out, "OK\n");
    assert_eq!(args.get("-p"), Some(Some("abc".to_owned())));
    assert_eq!(args.len(), 1);
}

#[test]
fn setdesc_decodes_and_maps_line_feeds() {
    let mut args = ArgStore::new();
    let mut env = bare_env();
    let (res, out) = run("SETDESC", "first%0Asecond %22quoted%22 100%25", &mut args, &mut env);
    assert_eq!(out, "");
    let text = match res {
        Ok(Pending::EscapeMarkup { text }) => text,
        _ => panic!("the description is to be escaped"),
    };
    assert_eq!(text, "first\rsecond \"quoted\" 100%");
    assert_eq!(args.len(), 0);
    let mut writer = Writer::new();
    finish_setdesc("first\rsecond &quot;quoted&quot; 100%", &mut args, &mut writer);
    assert_eq!(writer.transcript(), "OK\n");
    assert_eq!(args.get("-mesg"), Some(Some("first\rsecond &quot;quoted&quot; 100%".to_owned())));
}

#[test]
fn setdesc_replaces_the_description() {
    let mut args = ArgStore::new();
    let mut writer = Writer::new();
    finish_setdesc("one", &mut args, &mut writer);
    finish_setdesc("two", &mut args, &mut writer);
    assert_eq!(args.len(), 1);
    assert_eq!(args.get("-mesg"), Some(Some("two".to_owned())));
    assert_eq!(writer.transcript(), "OK\nOK\n");
}

#[test]
fn setdesc_with_bad_encoding_fails() {
    let mut args = ArgStore::new();
    let mut env = bare_env();
    let (res, out) = run("SETDESC", "broken %FF text", &mut args, &mut env);
    assert_eq!(out, "");
    assert!(matches!(res, Err(CommandError::InvalidEncoding)));
    assert_eq!(args.len(), 0);
}

#[test]
fn seterror_stacks_on_the_description() {
    let mut args = ArgStore::new();
    let mut env = bare_env();
    let mut writer = Writer::new();
    finish_setdesc("Y", &mut args, &mut writer);
    let (res, out) = run("SETERROR", "X", &mut args, &mut env);
    assert!(matches!(res, Ok(Pending::Nothing)));
    assert_eq!(out, "OK\n");
    assert_eq!(args.get("-mesg"), Some(Some(format!("X{}Y", ERROR_SEPARATOR))));
    run("SETERROR", "Z", &mut args, &mut env);
    assert_eq!(args.get("-mesg"), Some(Some(format!("Z{}Y", ERROR_SEPARATOR))));
    assert_eq!(ERROR_SEPARATOR, "\r***************************\r");
}

#[test]
fn seterror_without_description_changes_nothing() {
    let mut args = ArgStore::new();
    let mut env = bare_env();
    let (_, out) = run("SETERROR", "X", &mut args, &mut env);
    assert_eq!(out, "OK\n");
    assert_eq!(args.len(), 0);
}

#[test]
fn getpin_hands_out_the_argument_list() {
    let mut args = initial_args(":0", Some("pin".to_owned()));
    let mut env = bare_env();
    let (res, out) = run("GETPIN", "ignored", &mut args, &mut env);
    assert_eq!(out, "");
    match res {
        Ok(Pending::RunPicker { args }) => assert_eq!(
            args,
            vec![
                "-dmenu",
                "-display",
                ":0",
                "-input",
                "/dev/null",
                "-password",
                "-disable-history",
                "-l",
                "0",
                "-p",
                "pin"
            ]
        ),
        _ => panic!("the picker is to be run"),
    }
}

#[test]
fn picker_cancelled_sends_one_error_line() {
    let mut writer = Writer::new();
    assert!(!finish_getpin(false, "", "cancelled", &mut writer));
    assert_eq!(writer.transcript(), "ERR 83886179 Operation cancelled <cancelled>\n");
}

#[test]
fn picker_cancelled_without_diagnostic_names_the_picker() {
    let mut writer = Writer::new();
    assert!(!finish_getpin(false, "ignored", "", &mut writer));
    assert_eq!(writer.transcript(), "ERR 83886179 Operation cancelled <rofi>\n");
}

#[test]
fn picker_diagnostic_is_trimmed() {
    let mut writer = Writer::new();
    assert!(!finish_getpin(false, "", "no display\n", &mut writer));
    assert_eq!(writer.transcript(), "ERR 83886179 Operation cancelled <no display>\n");
}

#[test]
fn picker_success_sends_the_pin() {
    let mut writer = Writer::new();
    assert!(finish_getpin(true, "secret\n", "", &mut writer));
    assert_eq!(writer.transcript(), "D secret\nOK\n");
}

#[test]
fn picker_success_without_output_sends_ok_only() {
    let mut writer = Writer::new();
    assert!(finish_getpin(true, "\n", "noise", &mut writer));
    assert_eq!(writer.transcript(), "OK\n");
}

#[test]
fn setkeyinfo_and_bye_are_acknowledged() {
    let mut args = ArgStore::new();
    let mut env = bare_env();
    assert_eq!(run("SETKEYINFO", "n/ABCDEF", &mut args, &mut env).1, "OK\n");
    assert_eq!(run("BYE", "", &mut args, &mut env).1, "OK\n");
    assert_eq!(args.len(), 0);
}

#[test]
fn unknown_action_ends_with_bye() {
    let mut args = ArgStore::new();
    let mut env = bare_env();
    let (res, out) = run("FOO", "bar", &mut args, &mut env);
    assert_eq!(out, "BYE\n");
    match res {
        Err(e) => {
            assert!(matches!(&e, CommandError::UnknownAction { action, arg } if action == "FOO" && arg == "bar"));
            assert_eq!(e.message(), "Unknown assuan command. Action `FOO`. Argument `bar`");
        }
        Ok(_) => panic!("FOO is no action"),
    }
}

#[test]
fn actions_are_case_sensitive() {
    let mut args = ArgStore::new();
    let mut env = bare_env();
    let (res, out) = run("getpin", "", &mut args, &mut env);
    assert_eq!(out, "BYE\n");
    assert!(matches!(res, Err(CommandError::UnknownAction { .. })));
}

#[test]
fn description_request_from_decoded_text() {
    let res = description_request(Ok("one\ntwo\n".to_owned()));
    assert!(matches!(res, Ok(Pending::EscapeMarkup { text }) if text == "one\rtwo\r"));
}

#[test]
fn description_request_from_failed_decoding() {
    let failed = String::from_utf8(vec![0xff]);
    assert!(failed.is_err());
    let res = description_request(failed);
    assert!(matches!(res, Err(CommandError::InvalidEncoding)));
    assert_eq!(
        CommandError::InvalidEncoding.message(),
        "argument is not validly percent-encoded"
    );
}

#[test]
fn classify_tells_the_three_outcomes() {
    assert!(matches!(classify(true, "secret\n", "warn"), PickerOutcome::Pin { text } if text == "secret"));
    assert!(matches!(classify(true, " pass phrase  ", ""), PickerOutcome::Pin { text } if text == " pass phrase"));
    assert!(matches!(classify(true, "", ""), PickerOutcome::NoPin));
    assert!(matches!(classify(true, "\n\n", ""), PickerOutcome::NoPin));
    assert!(matches!(classify(false, "secret", "cancelled"), PickerOutcome::Cancelled { diagnostic } if diagnostic == "cancelled"));
    assert!(matches!(classify(false, "secret", ""), PickerOutcome::Cancelled { diagnostic } if diagnostic == "rofi"));
}

#[test]
fn send_outcome_writes_the_reply() {
    let mut writer = Writer::new();
    assert!(send_outcome(&PickerOutcome::Pin { text: "1234".to_owned() }, &mut writer));
    assert!(send_outcome(&PickerOutcome::NoPin, &mut writer));
    assert!(!send_outcome(&PickerOutcome::Cancelled { diagnostic: "why".to_owned() }, &mut writer));
    assert_eq!(
        writer.transcript(),
        "D 1234\nOK\nOK\nERR 83886179 Operation cancelled <why>\n"
    );
}

#[test]
fn seterror_keeps_a_description_that_holds_the_separator() {
    let mut args = ArgStore::new();
    let mut env = bare_env();
    let mut writer = Writer::new();
    let description = format!("above{}below", ERROR_SEPARATOR);
    finish_setdesc(&description, &mut args, &mut writer);
    run("SETERROR", "X", &mut args, &mut env);
    assert_eq!(args.get("-mesg"), Some(Some(format!("X{}{}", ERROR_SEPARATOR, description))));
    run("SETERROR", "Z", &mut args, &mut env);
    assert_eq!(args.get("-mesg"), Some(Some(format!("Z{}{}", ERROR_SEPARATOR, description))));
    assert_eq!(args.get_base("-mesg"), Some(Some(description)));
}

#[test]
fn seterror_with_an_error_that_holds_the_separator() {
    let mut args = ArgStore::new();
    let mut env = bare_env();
    let mut writer = Writer::new();
    finish_setdesc("Y", &mut args, &mut writer);
    let first = format!("one{}two", ERROR_SEPARATOR);
    run("SETERROR", &first, &mut args, &mut env);
    assert_eq!(args.get("-mesg"), Some(Some(format!("{}{}Y", first, ERROR_SEPARATOR))));
    run("SETERROR", "Z", &mut args, &mut env);
    assert_eq!(args.get("-mesg"), Some(Some(format!("Z{}Y", ERROR_SEPARATOR))));
}

#[test]
fn setdesc_after_seterror_starts_afresh() {
    let mut args = ArgStore::new();
    let mut env = bare_env();
    let mut writer = Writer::new();
    finish_setdesc("Y", &mut args, &mut writer);
    run("SETERROR", "X", &mut args, &mut env);
    finish_setdesc("W", &mut args, &mut writer);
    assert_eq!(args.get("-mesg"), Some(Some("W".to_owned())));
    run("SETERROR", "Z", &mut args, &mut env);
    assert_eq!(args.get("-mesg"), Some(Some(format!("Z{}W", ERROR_SEPARATOR))));
}
