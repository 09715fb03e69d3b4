use brew::brewfile::BrewType;
use brew::error::{BrewfileError, Error, Expected};
use brew::language::Language;
use brew::lexer::{tokenize, tokenize_with_letters, Token, TokenClass};
use brew::brewfile::Brewfile;
use brew::parser::parse_command;
use brew::parser::parse_brewfile;

fn word(s: &str) -> TokenClass {
    TokenClass::String(s.to_string())
}

fn classes(text: &str) -> Vec<TokenClass> {
    tokenize(text).unwrap().into_iter().map(|t| t.class).collect()
}

#[test]
fn lexing_elides_comments() {
    assert_eq!(
        classes("name = foo # comment\n"),
        vec![word("name"), TokenClass::Equals, word("foo"), TokenClass::Newline, TokenClass::EndOfFile]
    );
}

#[test]
fn lexing_records_positions() {
    let tokens = tokenize("name = foo # comment\n").unwrap();
    let positions: Vec<(usize, usize)> = tokens.iter().map(|t| (t.line, t.column)).collect();
    assert_eq!(positions, vec![(1, 1), (1, 6), (1, 8), (1, 21), (2, 1)]);
}

#[test]
fn lexing_words_take_path_characters() {
    assert_eq!(
        classes("a = src/x.c, c++, ..\\y_z-1"),
        vec![
            word("a"),
            TokenClass::Equals,
            word("src/x.c"),
            TokenClass::Comma,
            word("c++"),
            TokenClass::Comma,
            word("..\\y_z-1"),
            TokenClass::EndOfFile
        ]
    );
}

#[test]
fn lexing_empty_text_gives_end_only() {
    assert_eq!(classes(""), vec![TokenClass::EndOfFile]);
    assert_eq!(classes(" \t\r"), vec![TokenClass::EndOfFile]);
}

#[test]
fn lexing_comment_at_end_of_text() {
    assert_eq!(classes("# only a comment"), vec![TokenClass::EndOfFile]);
    assert_eq!(classes("#x\n#y\n"), vec![TokenClass::Newline, TokenClass::Newline, TokenClass::EndOfFile]);
}

#[test]
fn lexing_unknown_character() {
    assert_eq!(tokenize("name = a\nb ; c").unwrap_err(), BrewfileError::UnknownCharacter(';', 2, 3));
}

#[test]
fn parsing_library_with_languages() {
    let b = parse_brewfile("type = library\nlanguages = c, assembly\n").unwrap();
    assert_eq!(b.brew_type(), BrewType::Library);
    assert_eq!(b.languages(), &vec![Language::C, Language::Assembly]);
    assert!(b.name().is_none());
}

#[test]
fn parsing_duplicate_kind_fails() {
    assert_eq!(
        parse_brewfile("type = library\ntype = executable\n").unwrap_err(),
        BrewfileError::BrewfileError(Error::BrewTypeDefinedTwice)
    );
}

#[test]
fn parsing_duplicate_name_fails() {
    assert_eq!(
        parse_brewfile("name = a\nname = b").unwrap_err(),
        BrewfileError::BrewfileError(Error::NameDefinedTwice)
    );
}

#[test]
fn parsing_wrong_arity_fails() {
    assert_eq!(
        parse_brewfile("name = a, b").unwrap_err(),
        BrewfileError::InvalidNumberOfParameters("name".to_string(), 1, 2)
    );
}

#[test]
fn parsing_command_without_parameters_fails_arity() {
    assert_eq!(
        parse_brewfile("languages\n").unwrap_err(),
        BrewfileError::AtleastParameters("languages".to_string(), 1, 0)
    );
    assert_eq!(
        parse_brewfile("thing").unwrap_err(),
        BrewfileError::InvalidNumberOfParameters("object thing".to_string(), 3, 0)
    );
}

#[test]
fn parsing_unknown_command_declares_object() {
    let b = parse_brewfile("mything = c, src/x.c, lib/x").unwrap();
    assert_eq!(b.objects().len(), 1);
    let o = &b.objects()[0];
    assert_eq!(o.output_filename(), "mything");
    assert_eq!(o.input_filename(), "src/x.c");
    assert_eq!(o.language(), Language::C);
    assert_eq!(o.install_target(), "lib/x");
}

#[test]
fn parsing_object_with_two_parameters_fails() {
    assert_eq!(
        parse_brewfile("mything = c, src/x.c").unwrap_err(),
        BrewfileError::InvalidNumberOfParameters("object mything".to_string(), 3, 2)
    );
}

#[test]
fn parsing_full_manifest() {
    let text = "# a program\nname = hello\ntype = executable\n\nlanguages = c, cpp\ndependencies = m, k\npriority = b, a\n";
    let b = parse_brewfile(text).unwrap();
    assert_eq!(b.name().unwrap(), "hello");
    assert_eq!(b.brew_type(), BrewType::Executable);
    assert_eq!(b.languages(), &vec![Language::C, Language::CPlusPlus]);
    assert_eq!(b.dependencies(), &vec!["m".to_string(), "k".to_string()]);
    assert_eq!(b.priority(), &vec!["b".to_string(), "a".to_string()]);
}

#[test]
fn parsing_kind_names() {
    assert_eq!(parse_brewfile("type = group").unwrap().brew_type(), BrewType::Group);
    assert_eq!(parse_brewfile("type = executable").unwrap().brew_type(), BrewType::Executable);
    assert_eq!(parse_brewfile("").unwrap().brew_type(), BrewType::Unset);
}

#[test]
fn parsing_unknown_kind_fails() {
    assert_eq!(
        parse_brewfile("type = program").unwrap_err(),
        BrewfileError::UnknownBrewType("program".to_string())
    );
}

#[test]
fn parsing_unknown_language_fails() {
    assert_eq!(
        parse_brewfile("languages = c, rust").unwrap_err(),
        BrewfileError::BrewfileError(Error::UnknownLanguage("rust".to_string()))
    );
}

#[test]
fn parsing_duplicate_language_fails() {
    assert_eq!(
        parse_brewfile("languages = c, asm\nlanguages = assembly").unwrap_err(),
        BrewfileError::BrewfileError(Error::LanguageDefinedTwice(Language::Assembly))
    );
}

#[test]
fn parsing_duplicate_dependency_fails() {
    assert_eq!(
        parse_brewfile("dependencies = m, m").unwrap_err(),
        BrewfileError::BrewfileError(Error::DependencyDefinedTwice("m".to_string()))
    );
}

#[test]
fn parsing_unexpected_tokens() {
    assert_eq!(
        parse_brewfile("= a").unwrap_err(),
        BrewfileError::UnexpectedToken(Expected::Command, Token { class: TokenClass::Equals, line: 1, column: 1 })
    );
    assert_eq!(
        parse_brewfile("name a").unwrap_err(),
        BrewfileError::UnexpectedToken(Expected::EqualsOrNewline, Token { class: word("a"), line: 1, column: 6 })
    );
    assert_eq!(
        parse_brewfile("name = ,").unwrap_err(),
        BrewfileError::UnexpectedToken(Expected::Parameter, Token { class: TokenClass::Comma, line: 1, column: 8 })
    );
    assert_eq!(
        parse_brewfile("name =").unwrap_err(),
        BrewfileError::UnexpectedToken(Expected::Parameter, Token { class: TokenClass::EndOfFile, line: 1, column: 7 })
    );
    assert_eq!(
        parse_brewfile("name = a b").unwrap_err(),
        BrewfileError::UnexpectedToken(Expected::CommaOrNewline, Token { class: word("b"), line: 1, column: 10 })
    );
}

#[test]
fn language_names() {
    assert_eq!(Language::parse("asm").unwrap(), Language::Assembly);
    assert_eq!(Language::parse("assembly").unwrap(), Language::Assembly);
    assert_eq!(Language::parse("c").unwrap(), Language::C);
    assert_eq!(Language::parse("c++").unwrap(), Language::CPlusPlus);
    assert_eq!(Language::parse("cplusplus").unwrap(), Language::CPlusPlus);
    assert_eq!(Language::parse("C").unwrap_err(), Error::UnknownLanguage("C".to_string()));
}

#[test]
fn lexing_unicode_letters_and_digits() {
    assert_eq!(
        classes("naïve = ü2, 3d"),
        vec![word("naïve"), TokenClass::Equals, word("ü2"), TokenClass::Comma, word("3d"), TokenClass::EndOfFile]
    );
    assert_eq!(tokenize("a = b\u{00A0}c").unwrap().len(), 5);
}

#[test]
fn lexing_with_given_letters() {
    let text = "ab = c9";
    let all = vec![true, true, false, false, false, true, true];
    let classes: Vec<TokenClass> = tokenize_with_letters(text, &all).unwrap().into_iter().map(|t| t.class).collect();
    assert_eq!(classes, vec![word("ab"), TokenClass::Equals, word("c9"), TokenClass::EndOfFile]);
    let no_digit = vec![true, true, false, false, false, true, false];
    assert_eq!(tokenize_with_letters(text, &no_digit).unwrap_err(), BrewfileError::UnknownCharacter('9', 1, 7));
    let none = vec![false; 7];
    assert_eq!(tokenize_with_letters(text, &none).unwrap_err(), BrewfileError::UnknownCharacter('a', 1, 1));
}

fn strings(words: &[&str]) -> Vec<String> {
    words.iter().map(|w| w.to_string()).collect()
}

#[test]
fn failed_commands_leave_manifest_unchanged() {
    let mut b = parse_brewfile("name = x
languages = c
dependencies = m
priority = p
obj = c, o.c, lib/o").unwrap();
    let before = format!("{:?}", b);
    assert_eq!(
        parse_command("name", strings(&["a", "b"]), &mut b).unwrap_err(),
        BrewfileError::InvalidNumberOfParameters("name".to_string(), 1, 2)
    );
    assert_eq!(
        parse_command("type", strings(&["app"]), &mut b).unwrap_err(),
        BrewfileError::UnknownBrewType("app".to_string())
    );
    for command in ["languages", "dependencies", "priority"] {
        assert_eq!(
            parse_command(command, Vec::new(), &mut b).unwrap_err(),
            BrewfileError::AtleastParameters(command.to_string(), 1, 0)
        );
    }
    assert_eq!(
        parse_command("obj2", strings(&["c", "a.c"]), &mut b).unwrap_err(),
        BrewfileError::InvalidNumberOfParameters("object obj2".to_string(), 3, 2)
    );
    assert_eq!(
        parse_command("obj2", strings(&["rust", "a.rs", "lib/a"]), &mut b).unwrap_err(),
        BrewfileError::BrewfileError(Error::UnknownLanguage("rust".to_string()))
    );
    assert_eq!(
        parse_command("languages", strings(&["asm", "fortran"]), &mut b).unwrap_err(),
        BrewfileError::BrewfileError(Error::UnknownLanguage("fortran".to_string()))
    );
    assert_eq!(
        parse_command("languages", strings(&["asm", "cpp", "asm"]), &mut b).unwrap_err(),
        BrewfileError::BrewfileError(Error::LanguageDefinedTwice(Language::Assembly))
    );
    assert_eq!(
        parse_command("dependencies", strings(&["k", "m"]), &mut b).unwrap_err(),
        BrewfileError::BrewfileError(Error::DependencyDefinedTwice("m".to_string()))
    );
    assert_eq!(format!("{:?}", b), before);
    assert_eq!(b.languages(), &vec![Language::C]);
    assert_eq!(b.dependencies(), &strings(&["m"]));
}

#[test]
fn successful_commands_extend_manifest() {
    let mut b = Brewfile::new();
    parse_command("languages", strings(&["asm", "c"]), &mut b).unwrap();
    parse_command("dependencies", strings(&["m", "k"]), &mut b).unwrap();
    assert_eq!(b.languages(), &vec![Language::Assembly, Language::C]);
    assert_eq!(b.dependencies(), &strings(&["m", "k"]));
}
