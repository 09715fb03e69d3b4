//! Source languages and the rules by which each claims a file.

use vstd::prelude::*;
use crate::error::Error;
use crate::text::{owned, text_eq};

verus! {

/// A source language of the toolchain.
#[derive(Debug, Clone, Copy, PartialEq, Eq, Hash, Structural)]
pub enum Language {
    Assembly,
    C,
    CPlusPlus,
}

/// How a language treats one file, before any tool is run.
#[derive(Debug, Clone, Copy, PartialEq, Eq, Structural)]
pub enum Claim {
    /// The file is not of this language.
    NotMine,
    /// The file is of this language but is not compiled (a header).
    Ignore,
    /// The file is compiled by this language's tool.
    Compile,
}

/// What one language resolver made of a file.
#[derive(Debug, Clone, Copy, PartialEq, Eq, Structural)]
pub enum CompileStatus {
    NotMine,
    Ignore,
    Complete,
}

/// The language that a manifest word names, if any.
pub open spec fn language_named(s: Seq<char>) -> Option<Language> {
    if s == "assembly"@ || s == "asm"@ {
        Some(Language::Assembly)
    } else if s == "c"@ {
        Some(Language::C)
    } else if s == "cpp"@ || s == "c++"@ || s == "cplusplus"@ {
        Some(Language::CPlusPlus)
    } else {
        None
    }
}

/// How `lang` treats a file whose extension is `ext`.
pub open spec fn claim_of(lang: Language, ext: Seq<char>) -> Claim {
    match lang {
        Language::Assembly => if ext == "asm"@ || ext == "s"@ {
            Claim::Compile
        } else {
            Claim::NotMine
        },
        Language::C => if ext == "c"@ {
            Claim::Compile
        } else if ext == "h"@ {
            Claim::Ignore
        } else {
            Claim::NotMine
        },
        Language::CPlusPlus => if ext == "cpp"@ {
            Claim::Compile
        } else if ext == "h"@ || ext == "hpp"@ {
            Claim::Ignore
        } else {
            Claim::NotMine
        },
    }
}

/// The name of a language for people.
pub open spec fn display_name_of(lang: Language) -> Seq<char> {
    match lang {
        Language::Assembly => "Assembly"@,
        Language::C => "C"@,
        Language::CPlusPlus => "C++"@,
    }
}

impl Language {
    /// Reads a language name of the manifest.
    pub fn parse(name: &str) -> (r: Result<Self, Error>)
        ensures
            match language_named(name@) {
                Some(l) => r == Ok::<Language, Error>(l),
                None => r is Err && r->Err_0 is UnknownLanguage && r->Err_0->UnknownLanguage_0@
                    == name@,
            },
    {
        if text_eq(name, "assembly") || text_eq(name, "asm") {
            Ok(Language::Assembly)
        } else if text_eq(name, "c") {
            Ok(Language::C)
        } else if text_eq(name, "cpp") || text_eq(name, "c++") || text_eq(name, "cplusplus") {
            Ok(Language::CPlusPlus)
        } else {
            Err(Error::UnknownLanguage(owned(name)))
        }
    }

    /// How this language treats a file with extension `extension`.
    pub fn claim(&self, extension: &str) -> (r: Claim)
        ensures
            r == claim_of(*self, extension@),
    {
        match self {
            Language::Assembly => if text_eq(extension, "asm") || text_eq(extension, "s") {
                Claim::Compile
            } else {
                Claim::NotMine
            },
            Language::C => if text_eq(extension, "c") {
                Claim::Compile
            } else if text_eq(extension, "h") {
                Claim::Ignore
            } else {
                Claim::NotMine
            },
            Language::CPlusPlus => if text_eq(extension, "cpp") {
                Claim::Compile
            } else if text_eq(extension, "h") || text_eq(extension, "hpp") {
                Claim::Ignore
            } else {
                Claim::NotMine
            },
        }
    }

    /// The name of the language for people.
    pub fn display_name(&self) -> (r: &'static str)
        ensures
            r@ == display_name_of(*self),
    {
        match self {
            Language::Assembly => "Assembly",
            Language::C => "C",
            Language::CPlusPlus => "C++",
        }
    }
}

} // verus!
