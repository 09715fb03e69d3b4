use brew::arguments::{parse_arguments, Command, Error};

fn args(words: &[&str]) -> Vec<String> {
    words.iter().map(|w| w.to_string()).collect()
}

#[test]
fn arguments_defaults() {
    let o = parse_arguments(args(&["brew"])).ok().unwrap();
    assert_eq!(*o.command(), Command::Build);
    assert!(!o.verbose());
    assert!(!o.quiet());
    assert_eq!(o.sysroot(), "/");
    assert_eq!(o.prefix(), "/los/");
}

#[test]
fn arguments_empty_line() {
    let o = parse_arguments(Vec::new()).ok().unwrap();
    assert_eq!(*o.command(), Command::Build);
}

#[test]
fn arguments_all_given() {
    let o = parse_arguments(args(&["brew", "install", "-v", "--quiet", "--sysroot", "sys", "--prefix", "/p"]))
        .ok()
        .unwrap();
    assert_eq!(*o.command(), Command::Install);
    assert!(o.verbose());
    assert!(o.quiet());
    assert_eq!(o.sysroot(), "sys");
    assert_eq!(o.prefix(), "/p");
}

#[test]
fn arguments_first_word_is_skipped() {
    let o = parse_arguments(args(&["clean"])).ok().unwrap();
    assert_eq!(*o.command(), Command::Build);
}

#[test]
fn arguments_errors() {
    assert_eq!(parse_arguments(args(&["b", "build", "clean"])).err().unwrap(), Error::TwoCommands);
    assert_eq!(
        parse_arguments(args(&["b", "--sysroot", "a", "--sysroot", "b"])).err().unwrap(),
        Error::TwoSysroots
    );
    assert_eq!(
        parse_arguments(args(&["b", "--prefix", "a", "--prefix", "b"])).err().unwrap(),
        Error::TwoPrefixes
    );
    assert_eq!(parse_arguments(args(&["b", "--sysroot"])).err().unwrap(), Error::NoSysrootAfterOption);
    assert_eq!(parse_arguments(args(&["b", "--prefix"])).err().unwrap(), Error::NoPrefixAfterOption);
    assert_eq!(
        parse_arguments(args(&["b", "make"])).err().unwrap(),
        Error::InvalidCommand("make".to_string())
    );
}

#[test]
fn command_words() {
    assert_eq!(Command::parse("clean").unwrap(), Command::Clean);
    assert_eq!(Command::parse("build").unwrap(), Command::Build);
    assert_eq!(Command::parse("install").unwrap(), Command::Install);
    assert_eq!(Command::Install.name(), "install");
    assert_eq!(Command::parse("Build").unwrap_err(), Error::InvalidCommand("Build".to_string()));
}
