use wc::{Config, Flag, NOT_ENOUGH_ARGUMENTS, TOO_MANY_ARGUMENTS, UNRECOGNIZED_FLAG};

fn args(items: &[&str]) -> Vec<String> {
    items.iter().map(|s| s.to_string()).collect()
}

#[test]
fn program_name_alone_is_not_enough() {
    assert_eq!(Some(NOT_ENOUGH_ARGUMENTS), Config::build(&args(&["prog"])).err());
    assert_eq!(Some(NOT_ENOUGH_ARGUMENTS), Config::build(&args(&[])).err());
}

#[test]
fn flag_alone_reads_standard_input() {
    let config = Config::build(&args(&["prog", "-l"])).unwrap();
    assert_eq!(Flag::Line, config.command());
    assert!(config.is_stdin());
    assert_eq!("", config.file_path());
}

#[test]
fn each_flag_selects_its_mode() {
    for (token, mode) in [("-l", Flag::Line), ("-c", Flag::Size), ("-w", Flag::Word), ("-m", Flag::Char)] {
        let config = Config::build(&args(&["prog", token])).unwrap();
        assert_eq!(mode, config.command());
        assert!(config.is_stdin());
    }
}

#[test]
fn path_alone_reads_the_file_in_default_mode() {
    let config = Config::build(&args(&["prog", "notes.txt"])).unwrap();
    assert_eq!(Flag::Default, config.command());
    assert!(!config.is_stdin());
    assert_eq!("notes.txt", config.file_path());
}

#[test]
fn unknown_token_alone_is_a_path() {
    let config = Config::build(&args(&["prog", "-L"])).unwrap();
    assert_eq!(Flag::Default, config.command());
    assert!(!config.is_stdin());
    assert_eq!("-L", config.file_path());

    let config = Config::build(&args(&["prog", ""])).unwrap();
    assert_eq!(Flag::Default, config.command());
    assert!(!config.is_stdin());
    assert_eq!("", config.file_path());
}

#[test]
fn flag_and_path_read_the_file_in_that_mode() {
    let config = Config::build(&args(&["prog", "-w", "notes.txt"])).unwrap();
    assert_eq!(Flag::Word, config.command());
    assert!(!config.is_stdin());
    assert_eq!("notes.txt", config.file_path());
}

#[test]
fn unknown_flag_before_a_path_is_refused() {
    assert_eq!(Some(UNRECOGNIZED_FLAG), Config::build(&args(&["prog", "-z", "notes.txt"])).err());
    assert_eq!(Some(UNRECOGNIZED_FLAG), Config::build(&args(&["prog", "-lw", "notes.txt"])).err());
    assert_eq!(Some(UNRECOGNIZED_FLAG), Config::build(&args(&["prog", "", "notes.txt"])).err());
}

#[test]
fn more_than_two_arguments_are_refused() {
    assert_eq!(Some(TOO_MANY_ARGUMENTS), Config::build(&args(&["prog", "a", "b", "c"])).err());
    assert_eq!(Some(TOO_MANY_ARGUMENTS), Config::build(&args(&["prog", "-l", "b", "c", "d"])).err());
}

#[test]
fn flag_tokens_read_back() {
    assert_eq!(Some(Flag::Line), Flag::from_str("-l"));
    assert_eq!(Some(Flag::Size), Flag::from_str("-c"));
    assert_eq!(Some(Flag::Word), Flag::from_str("-w"));
    assert_eq!(Some(Flag::Char), Flag::from_str("-m"));
    assert_eq!(Some(Flag::Default), Flag::from_str(""));
    assert_eq!(None, Flag::from_str("-L"));
    assert_eq!(None, Flag::from_str("l"));
    assert_eq!(None, Flag::from_str("-lw"));
}
