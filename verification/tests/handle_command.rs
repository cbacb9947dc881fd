use pinentry_rofi::command::{
    finish_setdesc, handle_command, CommandError, Environment, Pending,
};
use pinentry_rofi::picker::finish_getpin;
use pinentry_rofi::session::{initial_args, parse_request};
use pinentry_rofi::store::ArgStore;
use pinentry_rofi::writer::Writer;

const DISPLAY: &str = ":0";
const PID: u32 = 40213;
const VERSION: &str = "0.5.0";

struct AssuanEntry {
    cmd: String,
    etalon_output: String,
    etalon_rofi_args: Option<Vec<(String, Option<String>)>>,
}

fn entry(cmd: &str, output: &str) -> AssuanEntry {
    AssuanEntry { cmd: cmd.to_owned(), etalon_output: output.to_owned(), etalon_rofi_args: None }
}

fn base_args(prompt: Option<&str>, mesg: Option<&str>) -> Vec<(String, Option<String>)> {
    let mut args = vec![
        ("-dmenu".to_owned(), None),
        ("-display".to_owned(), Some(":0".to_owned())),
        ("-input".to_owned(), Some("/dev/null".to_owned())),
        ("-password".to_owned(), None),
        ("-disable-history".to_owned(), None),
        ("-l".to_owned(), Some("0".to_owned())),
    ];
    if let Some(p) = prompt {
        args.push(("-p".to_owned(), Some(p.to_owned())));
    }
    if let Some(m) = mesg {
        args.push(("-mesg".to_owned(), Some(m.to_owned())));
    }
    args
}

fn assert_same_args(etalon: &[(String, Option<String>)], store: &ArgStore, action: &str, arg: &str) {
    assert_eq!(etalon.len(), store.len(), "Action: {action}. Arg: {arg}");
    for (key, value) in etalon {
        assert_eq!(Some(value.clone()), store.get(key), "Action: {action}. Arg: {arg}");
    }
}

// What the interpreter hands out for escaping at SETDESC, and the text as
// the markup escaper gives it back.
const DECODED_DESC: &str = "Please enter the passphrase for the ssh key\r  \
                            ke:yf:in:ge:rp:ri:nt \"<email@yhoo.com>\"";
const ESCAPED_DESC: &str = "Please enter the passphrase for the ssh key\r  \
                            ke:yf:in:ge:rp:ri:nt &quot;&lt;email@yhoo.com&gt;&quot;";

fn prepare_test_handle_command(custom_prompt: Option<String>) -> (ArgStore, Vec<AssuanEntry>) {
    let desc = ESCAPED_DESC;
    let stacked = "Bad Passphrase (try 2 of 3)\r***************************\r\
                   Please enter the passphrase for the ssh key\r  \
                   ke:yf:in:ge:rp:ri:nt &quot;&lt;email@yhoo.com&gt;&quot;";
    let prompt = custom_prompt.clone().unwrap_or("Passphrase".to_owned());
    let mut assuan_mapping = vec![
        entry("OPTION grab", "OK"),
        entry("OPTION ttyname=/dev/pts/1", "OK"),
        entry("OPTION ttytype=tmux-256color", "OK"),
        entry("OPTION lc-messages=C", "OK"),
        entry("OPTION allow-external-password-cache", "OK"),
        entry("OPTION default-ok=_OK", "OK"),
        entry("OPTION default-cancel=_Cancel", "OK"),
        entry("OPTION default-yes=_Yes", "OK"),
        entry("OPTION default-no=_No", "OK"),
        entry("OPTION default-prompt=PIN:", "OK"),
        entry("OPTION default-pwmngr=_Save in password manager", "OK"),
        entry(
            "OPTION default-cf-visi=Do you really want to make your \
             passphrase visible on the screen?",
            "OK",
        ),
        entry("OPTION default-tt-visi=Make passphrase visible", "OK"),
        entry("OPTION default-tt-hide=Hide passphrase", "OK"),
        entry("OPTION touch-file=/run/user/1000/gnupg/S.gpg-agent", "OK"),
        entry("GETINFO pid", &format!("D {}\nOK", PID)),
        entry("GETINFO ttyinfo", &format!("D /dev/pts/1 tmux-256color {0}\nOK", DISPLAY)),
        entry("GETINFO flavor", "D keyring\nOK"),
        entry("GETINFO version", &format!("D {}\nOK", VERSION)),
        entry("SETPROMPT Passphrase:", "OK"),
        entry(
            "SETDESC Please enter the passphrase for the ssh key%0A  \
             ke:yf:in:ge:rp:ri:nt %22<email@yhoo.com>%22",
            "OK",
        ),
        entry("GETPIN", "OK"),
        entry("SETERROR Bad Passphrase (try 2 of 3)", "OK"),
        entry("SETKEYINFO", "OK"),
        entry("BYE", "OK"),
        entry("error", "BYE"),
    ];
    assuan_mapping[19].etalon_rofi_args = Some(base_args(Some(&prompt), None));
    assuan_mapping[20].etalon_rofi_args = Some(base_args(Some(&prompt), Some(desc)));
    assuan_mapping[21].etalon_rofi_args = Some(base_args(Some(&prompt), Some(desc)));
    assuan_mapping[22].etalon_rofi_args = Some(base_args(Some(&prompt), Some(stacked)));
    let rofi_args = initial_args(DISPLAY, custom_prompt);
    (rofi_args, assuan_mapping)
}

fn process_test_handle_command(custom_prompt: Option<String>) {
    let (mut rofi_args, assuan_mapping) = prepare_test_handle_command(custom_prompt);
    let mut env = Environment {
        tty_name: None,
        tty_type: None,
        lc_ctype: None,
        lc_messages: None,
        display: Some(DISPLAY.to_owned()),
        pid: PID,
        version: VERSION.to_owned(),
    };
    let mut writer = Writer::new();
    let mut etalon_output = String::new();
    for entry in assuan_mapping.iter() {
        let (action, arg) = parse_request(&entry.cmd);
        match handle_command(&action, &arg, &mut rofi_args, &mut env, &mut writer) {
            Ok(Pending::EscapeMarkup { text }) => {
                assert_eq!(DECODED_DESC, text);
                finish_setdesc(ESCAPED_DESC, &mut rofi_args, &mut writer)
            }
            Ok(Pending::RunPicker { .. }) => {
                assert!(finish_getpin(true, "", "", &mut writer));
            }
            Ok(_) => {}
            Err(e) => {
                assert!(matches!(e, CommandError::UnknownAction { .. }));
                assert!(e.message().contains("Unknown assuan command"))
            }
        }

        etalon_output.push_str(&entry.etalon_output);
        etalon_output.push_str("\n");

        if let Some(etalon) = &entry.etalon_rofi_args {
            assert_same_args(etalon, &rofi_args, &action, &arg);
        }
    }
    let output = writer.transcript();
    assert_eq!(etalon_output, output);
}

#[test]
fn test_handle_command() {
    process_test_handle_command(None);
}

#[test]
fn test_handle_command_custom_prompt() {
    process_test_handle_command(Some("custom-prompt".to_owned()));
}
