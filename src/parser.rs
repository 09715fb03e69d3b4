//! The manifest parser: tokens to a build manifest.
//!
//! A manifest is a sequence of lines. A line is empty, a command alone, or a
//! command followed by `=` and a comma-separated list of parameters.

use vstd::prelude::*;
use crate::arguments::texts;
use crate::brewfile::{BrewType, Brewfile, BrewfileView, empty_manifest};
use crate::error::{BrewfileError, Expected, ParseFault};
use crate::language::{Language, language_named};
use crate::lexer::{Token, TokenClass, TokenKind, TokenView, lexed, tok, token_views, tokenize};
use crate::object::{Object, ObjectView};
use crate::error::Error;
use crate::text::{contains_text, joined, text_eq};

verus! {

/// The project kind that a manifest word names, if any.
pub open spec fn brew_type_named(s: Seq<char>) -> Option<BrewType> {
    if s == "executable"@ {
        Some(BrewType::Executable)
    } else if s == "library"@ {
        Some(BrewType::Library)
    } else if s == "group"@ {
        Some(BrewType::Group)
    } else {
        None
    }
}

/// Adds the languages named in `ps` from index `k` on, in order.
pub open spec fn add_languages(bf: BrewfileView, ps: Seq<Seq<char>>, k: int) -> Result<BrewfileView, ParseFault>
    decreases ps.len() - k,
{
    if k < 0 || k >= ps.len() {
        Ok(bf)
    } else {
        match language_named(ps[k]) {
            None => Err(ParseFault::Manifest(crate::error::BuildFault::UnknownLanguage(ps[k]))),
            Some(l) => match bf.with_language(l) {
                Err(f) => Err(ParseFault::Manifest(f)),
                Ok(b) => add_languages(b, ps, k + 1),
            },
        }
    }
}

/// Adds the dependencies in `ps` from index `k` on, in order.
pub open spec fn add_dependencies(bf: BrewfileView, ps: Seq<Seq<char>>, k: int) -> Result<BrewfileView, ParseFault>
    decreases ps.len() - k,
{
    if k < 0 || k >= ps.len() {
        Ok(bf)
    } else {
        match bf.with_dependency(ps[k]) {
            Err(f) => Err(ParseFault::Manifest(f)),
            Ok(b) => add_dependencies(b, ps, k + 1),
        }
    }
}

/// What the command `cmd` with parameters `ps` does to the manifest `bf`.
pub open spec fn apply_command(cmd: Seq<char>, ps: Seq<Seq<char>>, bf: BrewfileView) -> Result<BrewfileView, ParseFault> {
    if cmd == "name"@ {
        if ps.len() != 1 {
            Err(ParseFault::InvalidNumberOfParameters(cmd, 1, ps.len()))
        } else {
            match bf.with_name(ps[0]) {
                Ok(b) => Ok(b),
                Err(f) => Err(ParseFault::Manifest(f)),
            }
        }
    } else if cmd == "type"@ {
        if ps.len() != 1 {
            Err(ParseFault::InvalidNumberOfParameters(cmd, 1, ps.len()))
        } else {
            match brew_type_named(ps[0]) {
                None => Err(ParseFault::UnknownBrewType(ps[0])),
                Some(t) => match bf.with_brew_type(t) {
                    Ok(b) => Ok(b),
                    Err(f) => Err(ParseFault::Manifest(f)),
                },
            }
        }
    } else if cmd == "languages"@ {
        if ps.len() == 0 {
            Err(ParseFault::AtleastParameters(cmd, 1, 0))
        } else {
            add_languages(bf, ps, 0)
        }
    } else if cmd == "dependencies"@ {
        if ps.len() == 0 {
            Err(ParseFault::AtleastParameters(cmd, 1, 0))
        } else {
            add_dependencies(bf, ps, 0)
        }
    } else if cmd == "priority"@ {
        if ps.len() == 0 {
            Err(ParseFault::AtleastParameters(cmd, 1, 0))
        } else {
            Ok(BrewfileView { priority: bf.priority + ps, ..bf })
        }
    } else if ps.len() != 3 {
        Err(ParseFault::InvalidNumberOfParameters("object "@ + cmd, 3, ps.len()))
    } else {
        match language_named(ps[0]) {
            None => Err(ParseFault::Manifest(crate::error::BuildFault::UnknownLanguage(ps[0]))),
            Some(l) => Ok(
                bf.with_object(ObjectView { output: cmd, input: ps[1], language: l, install_target: ps[2] }),
            ),
        }
    }
}

/// Where the parser stands between tokens.
pub enum ParseMode {
    /// At the start of a line.
    Line,
    /// After a command word.
    Named(Seq<char>),
    /// Where a parameter of a command must come, after those read.
    Param(Seq<char>, Seq<Seq<char>>),
    /// After a parameter.
    Sep(Seq<char>, Seq<Seq<char>>),
}

/// The token at index `i`, or the end of the input past the last token.
pub open spec fn token_at(ts: Seq<TokenView>, i: int) -> TokenView {
    if 0 <= i < ts.len() {
        ts[i]
    } else {
        tok(TokenKind::EndOfFile, 0, 0)
    }
}

/// Parses `ts` from index `i` in mode `mode` into the manifest `bf`.
pub open spec fn parse_from(ts: Seq<TokenView>, i: int, mode: ParseMode, bf: BrewfileView) -> Result<BrewfileView, ParseFault>
    decreases ts.len() - i,
{
    let t = token_at(ts, i);
    match mode {
        ParseMode::Line => match t.class {
            TokenKind::EndOfFile => Ok(bf),
            TokenKind::Newline => parse_from(ts, i + 1, ParseMode::Line, bf),
            TokenKind::Word(c) => parse_from(ts, i + 1, ParseMode::Named(c), bf),
            _ => Err(ParseFault::UnexpectedToken(Expected::Command, t)),
        },
        ParseMode::Named(c) => match t.class {
            TokenKind::Equals => parse_from(ts, i + 1, ParseMode::Param(c, Seq::empty()), bf),
            TokenKind::Newline => match apply_command(c, Seq::empty(), bf) {
                Ok(b) => parse_from(ts, i + 1, ParseMode::Line, b),
                Err(e) => Err(e),
            },
            TokenKind::EndOfFile => apply_command(c, Seq::empty(), bf),
            _ => Err(ParseFault::UnexpectedToken(Expected::EqualsOrNewline, t)),
        },
        ParseMode::Param(c, ps) => match t.class {
            TokenKind::Word(p) => parse_from(ts, i + 1, ParseMode::Sep(c, ps.push(p)), bf),
            _ => Err(ParseFault::UnexpectedToken(Expected::Parameter, t)),
        },
        ParseMode::Sep(c, ps) => match t.class {
            TokenKind::Comma => parse_from(ts, i + 1, ParseMode::Param(c, ps), bf),
            TokenKind::Newline => match apply_command(c, ps, bf) {
                Ok(b) => parse_from(ts, i + 1, ParseMode::Line, b),
                Err(e) => Err(e),
            },
            TokenKind::EndOfFile => apply_command(c, ps, bf),
            _ => Err(ParseFault::UnexpectedToken(Expected::CommaOrNewline, t)),
        },
    }
}

/// The manifest that a token sequence describes.
pub open spec fn parsed(ts: Seq<TokenView>) -> Result<BrewfileView, ParseFault> {
    parse_from(ts, 0, ParseMode::Line, empty_manifest())
}

/// The manifest that a text describes.
pub open spec fn parsed_text(cs: Seq<char>) -> Result<BrewfileView, ParseFault> {
    match lexed(cs) {
        Ok(ts) => parsed(ts),
        Err(e) => Err(e),
    }
}

proof fn lemma_push_distinct<A>(s: Seq<A>, x: A)
    requires
        s.no_duplicates(),
        !s.contains(x),
    ensures
        s.push(x).no_duplicates(),
{
    let t = s.push(x);
    assert forall|i: int, j: int| 0 <= i < t.len() && 0 <= j < t.len() && i != j implies t[i] != t[j] by {
        if i < s.len() && j < s.len() {
            assert(t[i] == s[i] && t[j] == s[j]);
        } else if i < s.len() {
            assert(t[i] == s[i]);
        } else if j < s.len() {
            assert(t[j] == s[j]);
        }
    }
}

fn contains_language(v: &Vec<Language>, l: Language) -> (r: bool)
    ensures
        r == v@.contains(l),
{
    let n = v.len();
    let mut i: usize = 0;
    while i < n
        invariant
            n == v@.len(),
            i <= n,
            forall|k: int| 0 <= k < i ==> v@[k] != l,
        decreases n - i,
    {
        if v[i] == l {
            return true;
        }
        i = i + 1;
    }
    false
}

fn brew_type_of(s: &str) -> (r: Option<BrewType>)
    ensures
        r == brew_type_named(s@),
{
    if text_eq(s, "executable") {
        Some(BrewType::Executable)
    } else if text_eq(s, "library") {
        Some(BrewType::Library)
    } else if text_eq(s, "group") {
        Some(BrewType::Group)
    } else {
        None
    }
}

/// Applies the command `command` with `parameters` to `brewfile`.
pub fn parse_command(command: &str, parameters: Vec<String>, brewfile: &mut Brewfile) -> (r: Result<(), BrewfileError>)
    requires
        old(brewfile).wf(),
    ensures
        final(brewfile).wf(),
        r is Err ==> final(brewfile)@ == old(brewfile)@,
        match apply_command(command@, texts(parameters@), old(brewfile)@) {
            Ok(b) => r is Ok && final(brewfile)@ == b,
            Err(e) => r is Err && r->Err_0@ == e,
        },
{
    let ghost ps = texts(parameters@);
    let n = parameters.len();
    assert(ps.len() == n);
    if text_eq(command, "name") {
        if n != 1 {
            return Err(BrewfileError::InvalidNumberOfParameters(command.to_owned(), 1, n));
        }
        assert(parameters[0]@ == ps[0]);
        match brewfile.set_name(parameters[0].clone()) {
            Ok(()) => Ok(()),
            Err(e) => Err(BrewfileError::from_manifest(e)),
        }
    } else if text_eq(command, "type") {
        if n != 1 {
            return Err(BrewfileError::InvalidNumberOfParameters(command.to_owned(), 1, n));
        }
        assert(parameters[0]@ == ps[0]);
        match brew_type_of(parameters[0].as_str()) {
            None => Err(BrewfileError::UnknownBrewType(parameters[0].clone())),
            Some(t) => match brewfile.set_brew_type(t) {
                Ok(()) => Ok(()),
                Err(e) => Err(BrewfileError::from_manifest(e)),
            },
        }
    } else if text_eq(command, "languages") {
        if n == 0 {
            return Err(BrewfileError::AtleastParameters(command.to_owned(), 1, 0));
        }
        let ghost start = brewfile@;
        let mut chosen: Vec<Language> = Vec::new();
        let mut k: usize = 0;
        assert(start.languages + chosen@ =~= start.languages);
        while k < n
            invariant
                n == parameters@.len(),
                ps == texts(parameters@),
                k <= n,
                start == old(brewfile)@,
                brewfile@ == start,
                brewfile.wf(),
                (BrewfileView { languages: start.languages + chosen@, ..start }).wf(),
                add_languages(BrewfileView { languages: start.languages + chosen@, ..start }, ps, k as int)
                    == add_languages(start, ps, 0),
                apply_command(command@, ps, start) == add_languages(start, ps, 0),
            decreases n - k,
        {
            assert(parameters[k as int]@ == ps[k as int]);
            let language = match Language::parse(parameters[k].as_str()) {
                Ok(l) => l,
                Err(e) => {
                    return Err(BrewfileError::from_manifest(e));
                },
            };
            let ghost before = start.languages + chosen@;
            if contains_language(brewfile.languages(), language) || contains_language(&chosen, language) {
                assert(before.contains(language)) by {
                    if start.languages.contains(language) {
                        let i = choose|i: int| 0 <= i < start.languages.len() && start.languages[i] == language;
                        assert(before[i] == language);
                    } else {
                        let i = choose|i: int| 0 <= i < chosen@.len() && chosen@[i] == language;
                        assert(before[start.languages.len() + i] == language);
                    }
                }
                return Err(BrewfileError::from_manifest(Error::LanguageDefinedTwice(language)));
            }
            assert(!before.contains(language)) by {
                if before.contains(language) {
                    let i = choose|i: int| 0 <= i < before.len() && before[i] == language;
                    if i < start.languages.len() {
                        assert(start.languages[i] == language);
                    } else {
                        assert(chosen@[i - start.languages.len()] == language);
                    }
                }
            }
            proof {
                lemma_push_distinct(before, language);
            }
            chosen.push(language);
            assert(start.languages + chosen@ =~= before.push(language));
            k = k + 1;
        }
        let ghost whole = start.languages + chosen@;
        let m = chosen.len();
        let mut j: usize = 0;
        assert(start.languages + chosen@.subrange(0, 0) =~= start.languages);
        while j < m
            invariant
                m == chosen@.len(),
                j <= m,
                whole == start.languages + chosen@,
                whole.no_duplicates(),
                brewfile.wf(),
                brewfile@ == (BrewfileView { languages: start.languages + chosen@.subrange(0, j as int), ..start }),
            decreases m - j,
        {
            let language = chosen[j];
            let ghost prefix = start.languages + chosen@.subrange(0, j as int);
            assert(!prefix.contains(language)) by {
                if prefix.contains(language) {
                    let i = choose|i: int| 0 <= i < prefix.len() && prefix[i] == language;
                    assert(whole[i] == prefix[i]);
                    assert(whole[start.languages.len() + j] == language);
                }
            }
            match brewfile.add_language(language) {
                Ok(()) => {},
                Err(e) => {
                    return Err(BrewfileError::from_manifest(e));
                },
            }
            assert(start.languages + chosen@.subrange(0, j + 1) =~= prefix.push(language));
            j = j + 1;
        }
        assert(chosen@.subrange(0, m as int) =~= chosen@);
        Ok(())
    } else if text_eq(command, "dependencies") {
        if n == 0 {
            return Err(BrewfileError::AtleastParameters(command.to_owned(), 1, 0));
        }
        let ghost start = brewfile@;
        let mut chosen: Vec<String> = Vec::new();
        let mut k: usize = 0;
        assert(start.dependencies + texts(chosen@) =~= start.dependencies);
        while k < n
            invariant
                n == parameters@.len(),
                ps == texts(parameters@),
                k <= n,
                start == old(brewfile)@,
                brewfile@ == start,
                brewfile.wf(),
                (BrewfileView { dependencies: start.dependencies + texts(chosen@), ..start }).wf(),
                add_dependencies(BrewfileView { dependencies: start.dependencies + texts(chosen@), ..start }, ps, k as int)
                    == add_dependencies(start, ps, 0),
                apply_command(command@, ps, start) == add_dependencies(start, ps, 0),
            decreases n - k,
        {
            let dependency = &parameters[k];
            assert(dependency@ == ps[k as int]);
            let ghost before = start.dependencies + texts(chosen@);
            if contains_text(brewfile.dependencies(), dependency.as_str()) || contains_text(&chosen, dependency.as_str()) {
                assert(before.contains(dependency@)) by {
                    if start.dependencies.contains(dependency@) {
                        let i = choose|i: int| 0 <= i < start.dependencies.len() && start.dependencies[i] == dependency@;
                        assert(before[i] == dependency@);
                    } else {
                        let i = choose|i: int| 0 <= i < texts(chosen@).len() && texts(chosen@)[i] == dependency@;
                        assert(before[start.dependencies.len() + i] == dependency@);
                    }
                }
                return Err(BrewfileError::from_manifest(Error::DependencyDefinedTwice(dependency.clone())));
            }
            assert(!before.contains(dependency@)) by {
                if before.contains(dependency@) {
                    let i = choose|i: int| 0 <= i < before.len() && before[i] == dependency@;
                    if i < start.dependencies.len() {
                        assert(start.dependencies[i] == dependency@);
                    } else {
                        assert(texts(chosen@)[i - start.dependencies.len()] == dependency@);
                    }
                }
            }
            proof {
                lemma_push_distinct(before, dependency@);
            }
            chosen.push(dependency.clone());
            assert(start.dependencies + texts(chosen@) =~= before.push(dependency@));
            k = k + 1;
        }
        let ghost whole = start.dependencies + texts(chosen@);
        let m = chosen.len();
        let mut j: usize = 0;
        assert(start.dependencies + texts(chosen@).subrange(0, 0) =~= start.dependencies);
        while j < m
            invariant
                m == chosen@.len(),
                j <= m,
                whole == start.dependencies + texts(chosen@),
                whole.no_duplicates(),
                brewfile.wf(),
                brewfile@ == (BrewfileView { dependencies: start.dependencies + texts(chosen@).subrange(0, j as int), ..start }),
            decreases m - j,
        {
            let dependency = chosen[j].clone();
            let ghost prefix = start.dependencies + texts(chosen@).subrange(0, j as int);
            assert(whole[start.dependencies.len() + j] == dependency@);
            assert(!prefix.contains(dependency@)) by {
                if prefix.contains(dependency@) {
                    let i = choose|i: int| 0 <= i < prefix.len() && prefix[i] == dependency@;
                    assert(whole[i] == prefix[i]);
                }
            }
            match brewfile.add_dependency(dependency) {
                Ok(()) => {},
                Err(e) => {
                    return Err(BrewfileError::from_manifest(e));
                },
            }
            assert(start.dependencies + texts(chosen@).subrange(0, j + 1) =~= prefix.push(chosen@[j as int]@));
            j = j + 1;
        }
        assert(texts(chosen@).subrange(0, m as int) =~= texts(chosen@));
        Ok(())
    } else if text_eq(command, "priority") {
        if n == 0 {
            return Err(BrewfileError::AtleastParameters(command.to_owned(), 1, 0));
        }
        let ghost start = brewfile@;
        let mut k: usize = 0;
        while k < n
            invariant
                n == parameters@.len(),
                ps == texts(parameters@),
                k <= n,
                brewfile.wf(),
                brewfile@ == (BrewfileView { priority: start.priority + ps.subrange(0, k as int), ..start }),
            decreases n - k,
        {
            assert(parameters[k as int]@ == ps[k as int]);
            brewfile.add_priority(parameters[k].clone());
            assert(start.priority + ps.subrange(0, k + 1) =~= (start.priority + ps.subrange(0, k as int)).push(ps[k as int]));
            k = k + 1;
        }
        assert(ps.subrange(0, n as int) =~= ps);
        Ok(())
    } else {
        if n != 3 {
            return Err(BrewfileError::InvalidNumberOfParameters(joined("object ", command), 3, n));
        }
        assert(parameters[0]@ == ps[0]);
        assert(parameters[1]@ == ps[1]);
        assert(parameters[2]@ == ps[2]);
        let language = match Language::parse(parameters[0].as_str()) {
            Ok(l) => l,
            Err(e) => {
                return Err(BrewfileError::from_manifest(e));
            },
        };
        let object = Object::new(command.to_owned(), language, parameters[1].clone(), parameters[2].clone());
        brewfile.add_object(object);
        Ok(())
    }
}

enum Mode {
    Line,
    Named,
    Param,
    Sep,
}

spec fn mode_of(m: Mode, command: Seq<char>, ps: Seq<Seq<char>>) -> ParseMode {
    match m {
        Mode::Line => ParseMode::Line,
        Mode::Named => ParseMode::Named(command),
        Mode::Param => ParseMode::Param(command, ps),
        Mode::Sep => ParseMode::Sep(command, ps),
    }
}

/// Builds a manifest from tokens.
pub fn parse_tokens(tokens: &Vec<Token>) -> (r: Result<Brewfile, BrewfileError>)
    ensures
        match parsed(token_views(tokens@)) {
            Ok(b) => r is Ok && r->Ok_0@ == b && r->Ok_0.wf(),
            Err(e) => r is Err && r->Err_0@ == e,
        },
{
    let ghost ts = token_views(tokens@);
    let n = tokens.len();
    let mut brewfile = Brewfile::new();
    let mut mode = Mode::Line;
    let mut command = String::new();
    let mut parameters: Vec<String> = Vec::new();
    let mut i: usize = 0;
    let end = Token { class: TokenClass::EndOfFile, line: 0, column: 0 };
    loop
        invariant
            ts == token_views(tokens@),
            n == tokens@.len(),
            end@ == tok(TokenKind::EndOfFile, 0, 0),
            brewfile.wf(),
            parse_from(ts, i as int, mode_of(mode, command@, texts(parameters@)), brewfile@)
                == parsed(ts),
        decreases n - i,
    {
        let t = if i < n { &tokens[i] } else { &end };
        assert(t@ == token_at(ts, i as int));
        let ghost ps = texts(parameters@);
        match mode {
            Mode::Line => match &t.class {
                TokenClass::EndOfFile => {
                    return Ok(brewfile);
                },
                TokenClass::Newline => {},
                TokenClass::String(c) => {
                    command = c.clone();
                    mode = Mode::Named;
                },
                _ => {
                    return Err(BrewfileError::UnexpectedToken(Expected::Command, t.duplicate()));
                },
            },
            Mode::Named => match &t.class {
                TokenClass::Equals => {
                    parameters = Vec::new();
                    assert(texts(parameters@) =~= Seq::<Seq<char>>::empty());
                    mode = Mode::Param;
                },
                TokenClass::Newline => {
                    let none: Vec<String> = Vec::new();
                    assert(texts(none@) =~= Seq::<Seq<char>>::empty());
                    parse_command(command.as_str(), none, &mut brewfile)?;
                    mode = Mode::Line;
                },
                TokenClass::EndOfFile => {
                    let none: Vec<String> = Vec::new();
                    assert(texts(none@) =~= Seq::<Seq<char>>::empty());
                    parse_command(command.as_str(), none, &mut brewfile)?;
                    return Ok(brewfile);
                },
                _ => {
                    return Err(BrewfileError::UnexpectedToken(Expected::EqualsOrNewline, t.duplicate()));
                },
            },
            Mode::Param => match &t.class {
                TokenClass::String(p) => {
                    parameters.push(p.clone());
                    assert(texts(parameters@) =~= ps.push(p@));
                    mode = Mode::Sep;
                },
                _ => {
                    return Err(BrewfileError::UnexpectedToken(Expected::Parameter, t.duplicate()));
                },
            },
            Mode::Sep => match &t.class {
                TokenClass::Comma => {
                    mode = Mode::Param;
                },
                TokenClass::Newline => {
                    let taken = parameters;
                    parameters = Vec::new();
                    assert(texts(parameters@) =~= Seq::<Seq<char>>::empty());
                    parse_command(command.as_str(), taken, &mut brewfile)?;
                    mode = Mode::Line;
                },
                TokenClass::EndOfFile => {
                    parse_command(command.as_str(), parameters, &mut brewfile)?;
                    return Ok(brewfile);
                },
                _ => {
                    return Err(BrewfileError::UnexpectedToken(Expected::CommaOrNewline, t.duplicate()));
                },
            },
        }
        i = i + 1;
    }
}

/// Builds a manifest from its text.
pub fn parse_brewfile(source: &str) -> (r: Result<Brewfile, BrewfileError>)
    requires
        source@.len() < usize::MAX,
    ensures
        match parsed_text(source@) {
            Ok(b) => r is Ok && r->Ok_0@ == b && r->Ok_0.wf(),
            Err(e) => r is Err && r->Err_0@ == e,
        },
{
    let tokens = tokenize(source)?;
    parse_tokens(&tokens)
}

} // verus!
