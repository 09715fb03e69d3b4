//! Explicitly declared build objects.

use vstd::prelude::*;
use crate::language::Language;

verus! {

/// An artifact declared by name in the manifest: its output, its source, its
/// language and where it is installed below the prefix.
#[derive(Debug, Clone)]
pub struct Object {
    input_filename: String,
    output_filename: String,
    language: Language,
    install_target: String,
}

/// The mathematical form of [`Object`].
pub struct ObjectView {
    pub output: Seq<char>,
    pub input: Seq<char>,
    pub language: Language,
    pub install_target: Seq<char>,
}

impl View for Object {
    type V = ObjectView;

    closed spec fn view(&self) -> ObjectView {
        ObjectView {
            output: self.output_filename@,
            input: self.input_filename@,
            language: self.language,
            install_target: self.install_target@,
        }
    }
}

impl Object {
    /// The object `name`, built from `source` in `language` and installed to `install_target`.
    pub fn new(name: String, language: Language, source: String, install_target: String) -> (r: Self)
        ensures
            r@ == (ObjectView { output: name@, input: source@, language, install_target: install_target@ }),
    {
        Object { input_filename: source, output_filename: name, language, install_target }
    }

    pub fn input_filename(&self) -> (r: &String)
        ensures
            r@ == self@.input,
    {
        &self.input_filename
    }

    pub fn output_filename(&self) -> (r: &String)
        ensures
            r@ == self@.output,
    {
        &self.output_filename
    }

    pub fn language(&self) -> (r: Language)
        ensures
            r == self@.language,
    {
        self.language
    }

    pub fn install_target(&self) -> (r: &String)
        ensures
            r@ == self@.install_target,
    {
        &self.install_target
    }
}

} // verus!
