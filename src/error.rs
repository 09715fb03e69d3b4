//! The errors of the manifest front-end and of the build.

use vstd::prelude::*;
use crate::language::Language;
use crate::lexer::{Token, TokenView};

verus! {

/// A manifest or build error. Operating-system failures carry the system's message.
#[derive(Debug, Clone, PartialEq, Eq)]
pub enum Error {
    NoBrewType,
    NameDefinedTwice,
    BrewTypeDefinedTwice,
    LanguageDefinedTwice(Language),
    DependencyDefinedTwice(String),
    UnknownLanguage(String),
    DirectoryCreationError(String, String),
    DirectoryReadError(String, String),
    UncompiledFile(String),
    RemoveObjectsDirectoryError(String),
    RemoveTargetError(String, String),
    RunCompilerError(String, String),
    CompileError(String),
    RunLinkerError(String),
    LinkerError,
    RunBrewError(String),
    BrewError(String),
    NoName,
    InstallTargetError(String, String),
}

/// The mathematical form of [`Error`].
pub enum BuildFault {
    NoBrewType,
    NameDefinedTwice,
    BrewTypeDefinedTwice,
    LanguageDefinedTwice(Language),
    DependencyDefinedTwice(Seq<char>),
    UnknownLanguage(Seq<char>),
    DirectoryCreationError(Seq<char>, Seq<char>),
    DirectoryReadError(Seq<char>, Seq<char>),
    UncompiledFile(Seq<char>),
    RemoveObjectsDirectoryError(Seq<char>),
    RemoveTargetError(Seq<char>, Seq<char>),
    RunCompilerError(Seq<char>, Seq<char>),
    CompileError(Seq<char>),
    RunLinkerError(Seq<char>),
    LinkerError,
    RunBrewError(Seq<char>),
    BrewError(Seq<char>),
    NoName,
    InstallTargetError(Seq<char>, Seq<char>),
}

impl View for Error {
    type V = BuildFault;

    open spec fn view(&self) -> BuildFault {
        match self {
            Error::NoBrewType => BuildFault::NoBrewType,
            Error::NameDefinedTwice => BuildFault::NameDefinedTwice,
            Error::BrewTypeDefinedTwice => BuildFault::BrewTypeDefinedTwice,
            Error::LanguageDefinedTwice(l) => BuildFault::LanguageDefinedTwice(*l),
            Error::DependencyDefinedTwice(d) => BuildFault::DependencyDefinedTwice(d@),
            Error::UnknownLanguage(l) => BuildFault::UnknownLanguage(l@),
            Error::DirectoryCreationError(p, e) => BuildFault::DirectoryCreationError(p@, e@),
            Error::DirectoryReadError(p, e) => BuildFault::DirectoryReadError(p@, e@),
            Error::UncompiledFile(p) => BuildFault::UncompiledFile(p@),
            Error::RemoveObjectsDirectoryError(e) => BuildFault::RemoveObjectsDirectoryError(e@),
            Error::RemoveTargetError(t, e) => BuildFault::RemoveTargetError(t@, e@),
            Error::RunCompilerError(l, e) => BuildFault::RunCompilerError(l@, e@),
            Error::CompileError(p) => BuildFault::CompileError(p@),
            Error::RunLinkerError(e) => BuildFault::RunLinkerError(e@),
            Error::LinkerError => BuildFault::LinkerError,
            Error::RunBrewError(e) => BuildFault::RunBrewError(e@),
            Error::BrewError(p) => BuildFault::BrewError(p@),
            Error::NoName => BuildFault::NoName,
            Error::InstallTargetError(t, e) => BuildFault::InstallTargetError(t@, e@),
        }
    }
}

/// What the parser expected where it found another token.
#[derive(Debug, Clone, Copy, PartialEq, Eq, Structural)]
pub enum Expected {
    Command,
    EqualsOrNewline,
    Parameter,
    CommaOrNewline,
}

/// An error in reading a manifest.
#[derive(Debug, Clone, PartialEq, Eq)]
pub enum BrewfileError {
    ReadBrewfileError(String),
    UnknownCharacter(char, usize, usize),
    UnexpectedToken(Expected, Token),
    InvalidNumberOfParameters(String, usize, usize),
    AtleastParameters(String, usize, usize),
    UnknownBrewType(String),
    BrewfileError(Error),
}

/// The mathematical form of [`BrewfileError`].
pub enum ParseFault {
    ReadBrewfileError(Seq<char>),
    UnknownCharacter(char, nat, nat),
    UnexpectedToken(Expected, TokenView),
    InvalidNumberOfParameters(Seq<char>, nat, nat),
    AtleastParameters(Seq<char>, nat, nat),
    UnknownBrewType(Seq<char>),
    Manifest(BuildFault),
}

impl View for BrewfileError {
    type V = ParseFault;

    open spec fn view(&self) -> ParseFault {
        match self {
            BrewfileError::ReadBrewfileError(e) => ParseFault::ReadBrewfileError(e@),
            BrewfileError::UnknownCharacter(c, l, k) => ParseFault::UnknownCharacter(
                *c,
                *l as nat,
                *k as nat,
            ),
            BrewfileError::UnexpectedToken(x, t) => ParseFault::UnexpectedToken(*x, t@),
            BrewfileError::InvalidNumberOfParameters(c, x, a) => ParseFault::InvalidNumberOfParameters(
                c@,
                *x as nat,
                *a as nat,
            ),
            BrewfileError::AtleastParameters(c, x, a) => ParseFault::AtleastParameters(
                c@,
                *x as nat,
                *a as nat,
            ),
            BrewfileError::UnknownBrewType(t) => ParseFault::UnknownBrewType(t@),
            BrewfileError::BrewfileError(e) => ParseFault::Manifest(e@),
        }
    }
}

impl BrewfileError {
    /// Wraps a manifest error.
    pub fn from_manifest(error: Error) -> (r: BrewfileError)
        ensures
            r@ == ParseFault::Manifest(error@),
    {
        BrewfileError::BrewfileError(error)
    }
}

} // verus!
