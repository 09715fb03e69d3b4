//! The build manifest: what the parser builds and the orchestrator reads.

use vstd::prelude::*;
use crate::error::{BuildFault, Error};
use crate::language::Language;
use crate::object::{Object, ObjectView};
use crate::arguments::texts;
use crate::text::text_eq;

verus! {

/// The kind of project that a manifest describes.
#[derive(Debug, Clone, Copy, PartialEq, Eq, Structural)]
pub enum BrewType {
    Executable,
    Library,
    Group,
    Unset,
}

/// A build manifest. Its languages are distinct and kept in the order of
/// declaration, which is the order in which they are offered each file; its
/// dependencies are distinct.
#[derive(Debug)]
pub struct Brewfile {
    name: Option<String>,
    brew_type: BrewType,
    languages: Vec<Language>,
    dependencies: Vec<String>,
    objects: Vec<Object>,
    priority: Vec<String>,
}

/// The mathematical form of [`Brewfile`].
pub struct BrewfileView {
    pub name: Option<Seq<char>>,
    pub brew_type: BrewType,
    pub languages: Seq<Language>,
    pub dependencies: Seq<Seq<char>>,
    pub objects: Seq<ObjectView>,
    pub priority: Seq<Seq<char>>,
}

impl View for Brewfile {
    type V = BrewfileView;

    closed spec fn view(&self) -> BrewfileView {
        BrewfileView {
            name: match self.name {
                Some(n) => Some(n@),
                None => None,
            },
            brew_type: self.brew_type,
            languages: self.languages@,
            dependencies: texts(self.dependencies@),
            objects: self.objects@.map_values(|o: Object| o@),
            priority: texts(self.priority@),
        }
    }
}

/// The manifest with nothing declared.
pub open spec fn empty_manifest() -> BrewfileView {
    BrewfileView {
        name: None,
        brew_type: BrewType::Unset,
        languages: Seq::empty(),
        dependencies: Seq::empty(),
        objects: Seq::empty(),
        priority: Seq::empty(),
    }
}

impl BrewfileView {
    pub open spec fn wf(self) -> bool {
        self.languages.no_duplicates() && self.dependencies.no_duplicates()
    }

    /// Names the project; a name is given once.
    pub open spec fn with_name(self, name: Seq<char>) -> Result<BrewfileView, BuildFault> {
        if self.name is Some {
            Err(BuildFault::NameDefinedTwice)
        } else {
            Ok(BrewfileView { name: Some(name), ..self })
        }
    }

    /// Sets the kind of project; a kind is given once.
    pub open spec fn with_brew_type(self, brew_type: BrewType) -> Result<BrewfileView, BuildFault> {
        if self.brew_type != BrewType::Unset {
            Err(BuildFault::BrewTypeDefinedTwice)
        } else {
            Ok(BrewfileView { brew_type, ..self })
        }
    }

    /// Adds a language that is not declared yet.
    pub open spec fn with_language(self, language: Language) -> Result<BrewfileView, BuildFault> {
        if self.languages.contains(language) {
            Err(BuildFault::LanguageDefinedTwice(language))
        } else {
            Ok(BrewfileView { languages: self.languages.push(language), ..self })
        }
    }

    /// Adds a dependency that is not declared yet.
    pub open spec fn with_dependency(self, dependency: Seq<char>) -> Result<BrewfileView, BuildFault> {
        if self.dependencies.contains(dependency) {
            Err(BuildFault::DependencyDefinedTwice(dependency))
        } else {
            Ok(BrewfileView { dependencies: self.dependencies.push(dependency), ..self })
        }
    }

    pub open spec fn with_object(self, object: ObjectView) -> BrewfileView {
        BrewfileView { objects: self.objects.push(object), ..self }
    }

    pub open spec fn with_priority(self, priority: Seq<char>) -> BrewfileView {
        BrewfileView { priority: self.priority.push(priority), ..self }
    }
}

/// Whether a change left `after` as the outcome `step` says, with `before` kept on error.
pub open spec fn follows(
    step: Result<BrewfileView, BuildFault>,
    before: BrewfileView,
    after: BrewfileView,
    r: Result<(), Error>,
) -> bool {
    match step {
        Ok(v) => r is Ok && after == v,
        Err(f) => r is Err && r->Err_0@ == f && after == before,
    }
}

impl Brewfile {
    pub open spec fn wf(&self) -> bool {
        self@.wf()
    }

    /// A manifest with nothing declared.
    pub fn new() -> (r: Self)
        ensures
            r@ == empty_manifest(),
            r.wf(),
    {
        let r = Brewfile {
            name: None,
            brew_type: BrewType::Unset,
            languages: Vec::new(),
            dependencies: Vec::new(),
            objects: Vec::new(),
            priority: Vec::new(),
        };
        assert(r@.dependencies =~= Seq::<Seq<char>>::empty());
        assert(r@.objects =~= Seq::<ObjectView>::empty());
        assert(r@.priority =~= Seq::<Seq<char>>::empty());
        r
    }

    pub fn set_name(&mut self, name: String) -> (r: Result<(), Error>)
        requires
            old(self).wf(),
        ensures
            final(self).wf(),
            follows(old(self)@.with_name(name@), old(self)@, final(self)@, r),
    {
        if self.name.is_some() {
            Err(Error::NameDefinedTwice)
        } else {
            self.name = Some(name);
            assert(self@.dependencies == old(self)@.dependencies);
            assert(self@.objects == old(self)@.objects);
            assert(self@.priority == old(self)@.priority);
            Ok(())
        }
    }

    pub fn set_brew_type(&mut self, brew_type: BrewType) -> (r: Result<(), Error>)
        requires
            old(self).wf(),
        ensures
            final(self).wf(),
            follows(old(self)@.with_brew_type(brew_type), old(self)@, final(self)@, r),
    {
        match self.brew_type {
            BrewType::Unset => {
                self.brew_type = brew_type;
                assert(self@.dependencies == old(self)@.dependencies);
                assert(self@.objects == old(self)@.objects);
                assert(self@.priority == old(self)@.priority);
                Ok(())
            },
            _ => Err(Error::BrewTypeDefinedTwice),
        }
    }

    pub fn add_language(&mut self, language: Language) -> (r: Result<(), Error>)
        requires
            old(self).wf(),
        ensures
            final(self).wf(),
            follows(old(self)@.with_language(language), old(self)@, final(self)@, r),
    {
        let n = self.languages.len();
        let mut i: usize = 0;
        while i < n
            invariant
                n == self.languages@.len(),
                self@ == old(self)@,
                self.wf(),
                i <= n,
                forall|k: int| 0 <= k < i ==> self.languages@[k] != language,
            decreases n - i,
        {
            if self.languages[i] == language {
                return Err(Error::LanguageDefinedTwice(language));
            }
            i = i + 1;
        }
        self.languages.push(language);
        assert(self@.dependencies == old(self)@.dependencies);
        assert(self@.objects == old(self)@.objects);
        assert(self@.priority == old(self)@.priority);
        Ok(())
    }

    pub fn add_dependency(&mut self, dependency: String) -> (r: Result<(), Error>)
        requires
            old(self).wf(),
        ensures
            final(self).wf(),
            follows(old(self)@.with_dependency(dependency@), old(self)@, final(self)@, r),
    {
        let ghost deps = self@.dependencies;
        let n = self.dependencies.len();
        let mut i: usize = 0;
        while i < n
            invariant
                n == self.dependencies@.len(),
                deps == self@.dependencies,
                self@ == old(self)@,
                self.wf(),
                i <= n,
                forall|k: int| 0 <= k < i ==> deps[k] != dependency@,
            decreases n - i,
        {
            if text_eq(self.dependencies[i].as_str(), dependency.as_str()) {
                assert(deps[i as int] == dependency@);
                return Err(Error::DependencyDefinedTwice(dependency));
            }
            i = i + 1;
        }
        self.dependencies.push(dependency);
        assert(self@.dependencies =~= deps.push(dependency@));
        assert(self@.objects == old(self)@.objects);
        assert(self@.priority == old(self)@.priority);
        Ok(())
    }

    pub fn add_object(&mut self, object: Object)
        requires
            old(self).wf(),
        ensures
            final(self).wf(),
            final(self)@ == old(self)@.with_object(object@),
    {
        self.objects.push(object);
        assert(self@.objects =~= old(self)@.objects.push(object@));
        assert(self@.dependencies == old(self)@.dependencies);
        assert(self@.priority == old(self)@.priority);
    }

    pub fn add_priority(&mut self, priority: String)
        requires
            old(self).wf(),
        ensures
            final(self).wf(),
            final(self)@ == old(self)@.with_priority(priority@),
    {
        self.priority.push(priority);
        assert(self@.priority =~= old(self)@.priority.push(priority@));
        assert(self@.dependencies == old(self)@.dependencies);
        assert(self@.objects == old(self)@.objects);
    }

    pub fn name(&self) -> (r: Option<&String>)
        ensures
            match r {
                Some(n) => self@.name == Some(n@),
                None => self@.name is None,
            },
    {
        match &self.name {
            Some(n) => Some(n),
            None => None,
        }
    }

    pub fn brew_type(&self) -> (r: BrewType)
        ensures
            r == self@.brew_type,
    {
        self.brew_type
    }

    pub fn languages(&self) -> (r: &Vec<Language>)
        ensures
            r@ == self@.languages,
    {
        &self.languages
    }

    pub fn dependencies(&self) -> (r: &Vec<String>)
        ensures
            texts(r@) == self@.dependencies,
    {
        &self.dependencies
    }

    pub fn objects(&self) -> (r: &Vec<Object>)
        ensures
            r@.map_values(|o: Object| o@) == self@.objects,
    {
        &self.objects
    }

    pub fn priority(&self) -> (r: &Vec<String>)
        ensures
            texts(r@) == self@.priority,
    {
        &self.priority
    }
}

} // verus!
