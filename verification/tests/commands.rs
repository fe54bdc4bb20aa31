use sniffer::command::{command_from_args, flags_from_args, has_details, Command, Flag};

fn words(list: &[&str]) -> Vec<String> {
    list.iter().map(|w| w.to_string()).collect()
}

#[test]
fn flags_parse_in_order_with_interface_name() {
    let args = words(&["-i", "eth0", "-d"]);
    let flags = flags_from_args(&args).unwrap();
    assert_eq!(flags.len(), 2);
    assert!(matches!(&flags[0], Flag::Interface(name) if name == "eth0"));
    assert!(matches!(flags[1], Flag::Details));
}

#[test]
fn long_flag_spellings_parse_too() {
    let args = words(&["--help", "--watch", "--details"]);
    let flags = flags_from_args(&args).unwrap();
    assert_eq!(flags.len(), 3);
    assert!(matches!(flags[0], Flag::Help));
    assert!(matches!(flags[1], Flag::Watch));
    assert!(matches!(flags[2], Flag::Details));
}

#[test]
fn unknown_words_are_skipped() {
    let args = words(&["eth0", "-w", "junk"]);
    let flags = flags_from_args(&args).unwrap();
    assert_eq!(flags.len(), 1);
    assert!(matches!(flags[0], Flag::Watch));
}

#[test]
fn command_needs_a_dash_word() {
    let args = words(&["prog", "hello"]);
    assert!(command_from_args(&args).is_none());
}

#[test]
fn command_takes_words_from_first_dash() {
    let args = words(&["prog", "-i", "wlan0", "-d"]);
    let cmd = command_from_args(&args).unwrap();
    assert!(matches!(&cmd.main_flag, Flag::Interface(name) if name == "wlan0"));
    assert_eq!(cmd.flags.len(), 2);
    assert_eq!(cmd.args, words(&["-i", "wlan0", "-d"]));
}

#[test]
fn details_flag_selects_hex_dumps() {
    let cmd = command_from_args(&words(&["prog", "-i", "eth0", "-d"])).unwrap();
    assert!(has_details(&cmd.flags));
    let plain = command_from_args(&words(&["prog", "-i", "eth0"])).unwrap();
    assert!(!has_details(&plain.flags));
}

#[test]
fn command_new_takes_first_flag_as_main() {
    let cmd = Command::new(vec![Flag::Watch, Flag::Details]);
    assert!(matches!(cmd.main_flag, Flag::Watch));
    assert_eq!(cmd.flags.len(), 2);
    assert!(cmd.args.is_empty());
}

#[test]
fn with_args_keeps_flags_and_words() {
    let args = words(&["-w"]);
    let cmd = Command::with_args(vec![Flag::Watch], args.clone());
    assert!(matches!(cmd.main_flag, Flag::Watch));
    assert_eq!(cmd.args, args);
}

#[test]
fn duplicate_preserves_the_flag() {
    let flag = Flag::Interface("eth1".to_string());
    assert!(matches!(flag.duplicate(), Flag::Interface(name) if name == "eth1"));
    assert!(matches!(Flag::Details.duplicate(), Flag::Details));
}

#[test]
fn all_flags_and_their_usage_lines() {
    let flags = Flag::all();
    assert_eq!(flags.len(), 4);
    assert!(matches!(flags[0], Flag::Help));
    assert!(matches!(&flags[1], Flag::Interface(name) if name.is_empty()));
    assert!(matches!(flags[2], Flag::Watch));
    assert!(matches!(flags[3], Flag::Details));

    assert_eq!(Flag::get_flag_usage(&Flag::Help), ("h", "help"));
    assert_eq!(Flag::get_flag_usage(&Flag::Details), ("d", "details"));
    assert_eq!(Flag::description(&Flag::Watch), "Monitor network packets");
}
