//! The decisions of the build orchestrator. Each function here computes what
//! is to be run or where an artifact goes from plain values; whoever drives the
//! build performs the action and hands the outcome back.

use vstd::prelude::*;
use crate::arguments::{Command, Options, OptionsView, command_word, texts};
use crate::brewfile::{BrewType, Brewfile, BrewfileView};
use crate::error::{BuildFault, Error};
use crate::language::{Claim, CompileStatus, Language, claim_of};
use crate::object::Object;
use crate::paths::{hidden, is_hidden, join_path, joined_path, object_name, object_name_of, path_extension, path_extension_of};
use crate::text::{contains_text, joined, owned, starts_with_char};

verus! {

/// The manifest's file name, in the project directory.
pub const BREWFILE_NAME: &'static str = "./brewfile";

/// The root of the source tree.
pub const SOURCES_PATH: &'static str = "./src";

/// The root of the object tree, which mirrors the source tree.
pub const OBJECTS_PATH: &'static str = "./obj";

/// The header directory of a library, installed with it.
pub const INCLUDE_PATH: &'static str = "./include";

/// The program run for each subproject of a group.
pub const BREW_PROGRAM: &'static str = "brew";

/// An external program and its arguments.
#[derive(Debug, Clone)]
pub struct Invocation {
    pub program: String,
    pub arguments: Vec<String>,
}

/// The mathematical form of [`Invocation`].
pub struct InvocationView {
    pub program: Seq<char>,
    pub arguments: Seq<Seq<char>>,
}

impl View for Invocation {
    type V = InvocationView;

    open spec fn view(&self) -> InvocationView {
        InvocationView { program: self.program@, arguments: texts(self.arguments@) }
    }
}

/// How an external program ended: it could not be started, or it exited
/// with success or failure.
#[derive(Debug, Clone)]
pub enum ToolOutcome {
    SpawnFailed(String),
    Exited(bool),
}

/// What a language resolver decided for one file.
#[derive(Debug, Clone)]
pub enum CompileAction {
    /// Nothing is to be run: the file is not this language's, is ignored,
    /// or its object is up to date.
    Status(CompileStatus),
    /// The tool is to be run.
    Run(Invocation),
}

/// The mathematical form of [`CompileAction`].
pub enum ActionView {
    Status(CompileStatus),
    Run(InvocationView),
}

impl View for CompileAction {
    type V = ActionView;

    open spec fn view(&self) -> ActionView {
        match self {
            CompileAction::Status(s) => ActionView::Status(*s),
            CompileAction::Run(i) => ActionView::Run(i@),
        }
    }
}

/// Whether a source must be compiled again: unless both modification times
/// are known and the object's is not earlier than the source's.
pub open spec fn needs_rebuild(source_time: Option<u128>, object_time: Option<u128>) -> bool {
    match (source_time, object_time) {
        (Some(s), Some(o)) => s > o,
        _ => true,
    }
}

/// Whether a source must be compiled again, given the modification times
/// that could be read (in nanoseconds since the epoch).
pub fn check_date(source_time: Option<u128>, object_time: Option<u128>) -> (r: bool)
    ensures
        r == needs_rebuild(source_time, object_time),
{
    match (source_time, object_time) {
        (Some(s), Some(o)) => s > o,
        _ => true,
    }
}

/// The tool of a language.
pub open spec fn tool_of(l: Language) -> Seq<char> {
    match l {
        Language::Assembly => "nasm"@,
        Language::C => "clang"@,
        Language::CPlusPlus => "clang++"@,
    }
}

/// The fixed flags of a language's tool.
pub open spec fn flags_of(l: Language) -> Seq<Seq<char>> {
    match l {
        Language::Assembly => seq!["-f"@, "elf64"@, "-g"@, "-F"@, "dwarf"@],
        _ => seq!["--target=x86_64-los"@, "-Wall"@, "-g"@, "-c"@, "-I./include"@],
    }
}

/// The name of a language in error reports.
pub open spec fn label_of(l: Language) -> Seq<char> {
    match l {
        Language::Assembly => "assembly"@,
        Language::C => "c"@,
        Language::CPlusPlus => "c++"@,
    }
}

/// The arguments that compile `src` to `dst`.
pub open spec fn compile_arguments(l: Language, src: Seq<char>, dst: Seq<char>, sysroot: Seq<char>) -> Seq<Seq<char>> {
    flags_of(l) + seq!["-o"@, dst, src, "--sysroot="@ + sysroot]
}

/// What language `l` does with the source `src`, whose object is `dst`.
pub open spec fn compile_plan(
    l: Language,
    src: Seq<char>,
    dst: Seq<char>,
    source_time: Option<u128>,
    object_time: Option<u128>,
    sysroot: Seq<char>,
) -> ActionView {
    match claim_of(l, path_extension(src)) {
        Claim::NotMine => ActionView::Status(CompileStatus::NotMine),
        Claim::Ignore => ActionView::Status(CompileStatus::Ignore),
        Claim::Compile => if needs_rebuild(source_time, object_time) {
            ActionView::Run(InvocationView { program: tool_of(l), arguments: compile_arguments(l, src, dst, sysroot) })
        } else {
            ActionView::Status(CompileStatus::Complete)
        },
    }
}

fn strings3(a: &str, b: &str, c: &str) -> (r: Vec<String>)
    ensures
        texts(r@) == seq![a@, b@, c@],
{
    let r = vec![owned(a), owned(b), owned(c)];
    assert(texts(r@) =~= seq![a@, b@, c@]);
    r
}

fn append_texts(v: &mut Vec<String>, w: &Vec<String>)
    ensures
        texts(final(v)@) == texts(old(v)@) + texts(w@),
{
    let ghost start = texts(v@);
    let n = w.len();
    let mut i: usize = 0;
    while i < n
        invariant
            n == w@.len(),
            i <= n,
            texts(v@) == start + texts(w@).subrange(0, i as int),
        decreases n - i,
    {
        let ghost before = texts(v@);
        v.push(w[i].clone());
        assert(texts(v@) =~= before.push(w@[i as int]@));
        assert(texts(w@).subrange(0, i + 1) =~= texts(w@).subrange(0, i as int).push(w@[i as int]@));
        i = i + 1;
    }
    assert(texts(w@).subrange(0, n as int) =~= texts(w@));
}

fn push_text(v: &mut Vec<String>, s: String)
    ensures
        texts(final(v)@) == texts(old(v)@).push(s@),
{
    v.push(s);
    assert(texts(v@) =~= texts(old(v)@).push(s@));
}

fn tool_flags(l: Language) -> (r: Vec<String>)
    ensures
        texts(r@) == flags_of(l),
{
    let r = match l {
        Language::Assembly => vec![owned("-f"), owned("elf64"), owned("-g"), owned("-F"), owned("dwarf")],
        _ => vec![owned("--target=x86_64-los"), owned("-Wall"), owned("-g"), owned("-c"), owned("-I./include")],
    };
    assert(texts(r@) =~= flags_of(l));
    r
}

impl Language {
    /// The tool of this language.
    pub fn tool(&self) -> (r: &'static str)
        ensures
            r@ == tool_of(*self),
    {
        match self {
            Language::Assembly => "nasm",
            Language::C => "clang",
            Language::CPlusPlus => "clang++",
        }
    }

    /// The name of this language in error reports.
    pub fn label(&self) -> (r: &'static str)
        ensures
            r@ == label_of(*self),
    {
        match self {
            Language::Assembly => "assembly",
            Language::C => "c",
            Language::CPlusPlus => "c++",
        }
    }

    /// Decides what this language does with the source `source_path`, whose
    /// object is `destination_path`: leave it (not this language's, or a
    /// header), keep an object that is up to date, or run the tool.
    pub fn compile(
        &self,
        source_path: &str,
        destination_path: &str,
        source_time: Option<u128>,
        object_time: Option<u128>,
        sysroot: &str,
    ) -> (r: CompileAction)
        ensures
            r@ == compile_plan(*self, source_path@, destination_path@, source_time, object_time, sysroot@),
    {
        let extension = path_extension_of(source_path);
        match self.claim(extension.as_str()) {
            Claim::NotMine => CompileAction::Status(CompileStatus::NotMine),
            Claim::Ignore => CompileAction::Status(CompileStatus::Ignore),
            Claim::Compile => {
                if !check_date(source_time, object_time) {
                    return CompileAction::Status(CompileStatus::Complete);
                }
                let mut arguments = tool_flags(*self);
                let tail = strings3("-o", destination_path, source_path);
                append_texts(&mut arguments, &tail);
                push_text(&mut arguments, joined("--sysroot=", sysroot));
                assert(texts(arguments@) =~= compile_arguments(*self, source_path@, destination_path@, sysroot@));
                CompileAction::Run(Invocation { program: owned(self.tool()), arguments })
            },
        }
    }

    /// What the run of this language's tool on `source_path` came to.
    pub fn compile_outcome(&self, source_path: &str, outcome: ToolOutcome) -> (r: Result<CompileStatus, Error>)
        ensures
            match outcome {
                ToolOutcome::SpawnFailed(m) => r is Err && r->Err_0@ == BuildFault::RunCompilerError(label_of(*self), m@),
                ToolOutcome::Exited(true) => r == Ok::<CompileStatus, Error>(CompileStatus::Complete),
                ToolOutcome::Exited(false) => r is Err && r->Err_0@ == BuildFault::CompileError(source_path@),
            },
    {
        match outcome {
            ToolOutcome::SpawnFailed(m) => Err(Error::RunCompilerError(owned(self.label()), m)),
            ToolOutcome::Exited(true) => Ok(CompileStatus::Complete),
            ToolOutcome::Exited(false) => Err(Error::CompileError(owned(source_path))),
        }
    }
}

/// An object that is up to date is kept, and no tool is run for it; one whose
/// object file is missing is always compiled.
pub proof fn lemma_fresh_object_skips_tool(
    l: Language,
    src: Seq<char>,
    dst: Seq<char>,
    source_time: u128,
    object_time: u128,
    sysroot: Seq<char>,
)
    requires
        claim_of(l, path_extension(src)) == Claim::Compile,
    ensures
        source_time <= object_time ==> compile_plan(l, src, dst, Some(source_time), Some(object_time), sysroot)
            == ActionView::Status(CompileStatus::Complete),
        compile_plan(l, src, dst, Some(source_time), None, sysroot) is Run,
        compile_plan(l, src, dst, None, None, sysroot) is Run,
{
}

/// What the walk of the source tree does with one entry of a directory.
#[derive(Debug, Clone)]
pub enum EntryStep {
    /// A hidden entry is passed over.
    Skip,
    /// A directory is walked, its objects going below `objects`.
    Descend { source: String, objects: String },
    /// A file is offered to the languages, with its object at `object`.
    File { source: String, object: String },
}

pub enum EntryStepView {
    Skip,
    Descend { source: Seq<char>, objects: Seq<char> },
    File { source: Seq<char>, object: Seq<char> },
}

impl View for EntryStep {
    type V = EntryStepView;

    open spec fn view(&self) -> EntryStepView {
        match self {
            EntryStep::Skip => EntryStepView::Skip,
            EntryStep::Descend { source, objects } => EntryStepView::Descend { source: source@, objects: objects@ },
            EntryStep::File { source, object } => EntryStepView::File { source: source@, object: object@ },
        }
    }
}

/// The step for the entry `name` of the source directory `source_dir`,
/// whose objects go to `object_dir`: the object tree mirrors the source
/// tree, and an object's name is its source's with the extension `o`.
pub open spec fn entry_plan_of(source_dir: Seq<char>, object_dir: Seq<char>, name: Seq<char>, is_dir: bool) -> EntryStepView {
    if hidden(name) {
        EntryStepView::Skip
    } else if is_dir {
        EntryStepView::Descend { source: joined_path(source_dir, name), objects: joined_path(object_dir, name) }
    } else {
        EntryStepView::File { source: joined_path(source_dir, name), object: joined_path(object_dir, object_name_of(name)) }
    }
}

/// The step for one entry of a source directory.
pub fn entry_step(source_dir: &str, object_dir: &str, name: &str, is_dir: bool) -> (r: EntryStep)
    ensures
        r@ == entry_plan_of(source_dir@, object_dir@, name@, is_dir),
{
    if is_hidden(name) {
        EntryStep::Skip
    } else if is_dir {
        EntryStep::Descend { source: join_path(source_dir, name), objects: join_path(object_dir, name) }
    } else {
        let object = object_name(name);
        EntryStep::File { source: join_path(source_dir, name), object: join_path(object_dir, object.as_str()) }
    }
}

/// The first of `langs` that claims files with extension `ext`.
pub open spec fn first_claimant(langs: Seq<Language>, ext: Seq<char>) -> Option<Language>
    decreases langs.len(),
{
    if langs.len() == 0 {
        None
    } else if claim_of(langs[0], ext) != Claim::NotMine {
        Some(langs[0])
    } else {
        first_claimant(langs.drop_first(), ext)
    }
}

/// What a manifest does with one source file: the first declared language
/// that claims it decides; a file that none claims stops the build.
pub open spec fn resolve_plan(
    bf: BrewfileView,
    src: Seq<char>,
    dst: Seq<char>,
    source_time: Option<u128>,
    object_time: Option<u128>,
    sysroot: Seq<char>,
) -> Result<(Language, ActionView), BuildFault> {
    match first_claimant(bf.languages, path_extension(src)) {
        None => Err(BuildFault::UncompiledFile(src)),
        Some(l) => Ok((l, compile_plan(l, src, dst, source_time, object_time, sysroot))),
    }
}

/// A source file found by the walk of the source tree, with its object path
/// and the modification times that could be read.
#[derive(Debug, Clone)]
pub struct SourceFile {
    pub source: String,
    pub object: String,
    pub source_time: Option<u128>,
    pub object_time: Option<u128>,
}

pub struct SourceFileView {
    pub source: Seq<char>,
    pub object: Seq<char>,
    pub source_time: Option<u128>,
    pub object_time: Option<u128>,
}

impl View for SourceFile {
    type V = SourceFileView;

    open spec fn view(&self) -> SourceFileView {
        SourceFileView { source: self.source@, object: self.object@, source_time: self.source_time, object_time: self.object_time }
    }
}

pub open spec fn source_file_views(fs: Seq<SourceFile>) -> Seq<SourceFileView> {
    fs.map_values(|f: SourceFile| f@)
}

/// What the manifest does with one found file.
pub open spec fn file_plan(bf: BrewfileView, f: SourceFileView, sysroot: Seq<char>) -> Result<(Language, ActionView), BuildFault> {
    resolve_plan(bf, f.source, f.object, f.source_time, f.object_time, sysroot)
}

/// Whether a plan is a decision by language `l` to do `a`.
pub open spec fn decided(plan: Result<(Language, ActionView), BuildFault>, l: Language, a: ActionView) -> bool {
    match plan {
        Ok((pl, pa)) => pl == l && pa == a,
        Err(_) => false,
    }
}

/// The index of the first file from `i` on that no declared language claims,
/// or the number of files when every one is claimed.
pub open spec fn first_unclaimed(bf: BrewfileView, files: Seq<SourceFileView>, i: int) -> int
    decreases files.len() - i,
{
    if i < 0 || i >= files.len() {
        files.len() as int
    } else if first_claimant(bf.languages, path_extension(files[i].source)) is None {
        i
    } else {
        first_unclaimed(bf, files, i + 1)
    }
}

/// The file that a manifest's link step produces.
pub open spec fn target_of(bf: BrewfileView) -> Result<Seq<char>, BuildFault> {
    match bf.name {
        None => Err(BuildFault::NoName),
        Some(n) => Ok(
            if bf.brew_type == BrewType::Executable {
                n + ".app"@
            } else {
                "lib"@ + n + ".a"@
            },
        ),
    }
}

/// How the objects are linked: an executable by the linker, anything else
/// into a static library by the archiver.
pub open spec fn link_plan(bf: BrewfileView, objects: Seq<Seq<char>>, sysroot: Seq<char>) -> Result<InvocationView, BuildFault> {
    match target_of(bf) {
        Err(f) => Err(f),
        Ok(t) => Ok(
            if bf.brew_type == BrewType::Executable {
                InvocationView {
                    program: "clang"@,
                    arguments: seq!["--target=x86_64-los"@, "-o"@, t] + objects + seq!["--sysroot="@ + sysroot],
                }
            } else {
                InvocationView { program: "ar"@, arguments: seq!["rcs"@, t] + objects }
            },
        ),
    }
}

/// Where the linked target is installed below `prefix`.
pub open spec fn install_plan(bf: BrewfileView, prefix: Seq<char>) -> Result<Seq<char>, BuildFault> {
    match target_of(bf) {
        Err(f) => Err(f),
        Ok(t) => Ok(
            joined_path(
                joined_path(prefix, if bf.brew_type == BrewType::Executable { "bin"@ } else { "lib"@ }),
                t,
            ),
        ),
    }
}

/// What the driver does for a manifest and a command.
#[derive(Debug, Clone, Copy, PartialEq, Eq, Structural)]
pub enum Workflow {
    /// Build each subproject of a group.
    SubBuilds,
    /// Compile and link.
    Build,
    /// Compile, link and install.
    Install,
    /// Remove what a build produced.
    Clean,
}

pub open spec fn workflow_of(t: BrewType, c: Command) -> Result<Workflow, BuildFault> {
    match t {
        BrewType::Group => Ok(Workflow::SubBuilds),
        BrewType::Unset => Err(BuildFault::NoBrewType),
        _ => match c {
            Command::Build => Ok(Workflow::Build),
            Command::Install => Ok(Workflow::Install),
            Command::Clean => Ok(Workflow::Clean),
        },
    }
}

/// One step of a workflow, in the order in which the driver performs them.
#[derive(Debug, Clone, Copy, PartialEq, Eq, Structural)]
pub enum Step {
    /// Build each subproject of the group.
    SubBuilds,
    /// Compile the source tree into the object tree.
    CompileSources,
    /// Link the objects of the source tree into the target.
    Link,
    /// Compile each declared object.
    CompileObjects,
    /// Copy each declared object to its place below the prefix.
    InstallObjects,
    /// Copy the target to its place below the prefix.
    InstallTarget,
    /// Copy the header tree below the prefix.
    InstallHeaders,
    /// Remove the object tree, the declared objects and the target.
    Clean,
}

/// Whether an install copies the header tree: only for a library that has one.
pub open spec fn installs_headers_of(brew_type: BrewType, include_exists: bool) -> bool {
    brew_type == BrewType::Library && include_exists
}

/// The steps of a workflow.
pub open spec fn steps_of(workflow: Workflow, brew_type: BrewType, include_exists: bool) -> Seq<Step> {
    match workflow {
        Workflow::SubBuilds => seq![Step::SubBuilds],
        Workflow::Clean => seq![Step::Clean],
        Workflow::Build => seq![Step::CompileSources, Step::Link, Step::CompileObjects],
        Workflow::Install => seq![
            Step::CompileSources,
            Step::Link,
            Step::CompileObjects,
            Step::InstallObjects,
            Step::InstallTarget,
        ] + if installs_headers_of(brew_type, include_exists) {
            seq![Step::InstallHeaders]
        } else {
            Seq::empty()
        },
    }
}

/// Whether an install copies the header tree, given whether the project has one.
pub fn installs_headers(brew_type: BrewType, include_exists: bool) -> (r: bool)
    ensures
        r == installs_headers_of(brew_type, include_exists),
{
    match brew_type {
        BrewType::Library => include_exists,
        _ => false,
    }
}

/// The steps of a workflow for a project of kind `brew_type`, given whether
/// the project has a header tree.
pub fn workflow_steps(workflow: Workflow, brew_type: BrewType, include_exists: bool) -> (r: Vec<Step>)
    ensures
        r@ == steps_of(workflow, brew_type, include_exists),
{
    match workflow {
        Workflow::SubBuilds => {
            let r = vec![Step::SubBuilds];
            assert(r@ =~= steps_of(workflow, brew_type, include_exists));
            r
        },
        Workflow::Clean => {
            let r = vec![Step::Clean];
            assert(r@ =~= steps_of(workflow, brew_type, include_exists));
            r
        },
        Workflow::Build => {
            let r = vec![Step::CompileSources, Step::Link, Step::CompileObjects];
            assert(r@ =~= steps_of(workflow, brew_type, include_exists));
            r
        },
        Workflow::Install => {
            let mut r = vec![
                Step::CompileSources,
                Step::Link,
                Step::CompileObjects,
                Step::InstallObjects,
                Step::InstallTarget,
            ];
            if installs_headers(brew_type, include_exists) {
                r.push(Step::InstallHeaders);
            }
            assert(r@ =~= steps_of(workflow, brew_type, include_exists));
            r
        },
    }
}

/// The object that a source file adds to the link, given what its language
/// made of it: its object when compiled or up to date, nothing when ignored.
pub open spec fn linked_object_of(status: CompileStatus, object_path: Seq<char>) -> Option<Seq<char>> {
    match status {
        CompileStatus::Complete => Some(object_path),
        _ => None,
    }
}

/// The object that a source file adds to the link.
pub fn linked_object(status: CompileStatus, object_path: String) -> (r: Option<String>)
    ensures
        match linked_object_of(status, object_path@) {
            Some(p) => r is Some && r->Some_0@ == p,
            None => r is None,
        },
{
    match status {
        CompileStatus::Complete => Some(object_path),
        _ => None,
    }
}

/// A directory entry: its name and whether it is a directory.
#[derive(Debug, Clone)]
pub struct DirEntry {
    pub name: String,
    pub is_dir: bool,
}

pub struct EntryView {
    pub name: Seq<char>,
    pub is_dir: bool,
}

impl View for DirEntry {
    type V = EntryView;

    open spec fn view(&self) -> EntryView {
        EntryView { name: self.name@, is_dir: self.is_dir }
    }
}

pub open spec fn entry_views(es: Seq<DirEntry>) -> Seq<EntryView> {
    es.map_values(|e: DirEntry| e@)
}

/// Whether a group builds the entry `e` after its priority list.
pub open spec fn runs_after_priority(e: EntryView, priority: Seq<Seq<char>>) -> bool {
    e.is_dir && !hidden(e.name) && !priority.contains(e.name)
}

/// The subprojects that a group builds after its priority list, in the
/// order of the directory listing.
pub open spec fn fallback_dirs(entries: Seq<EntryView>, priority: Seq<Seq<char>>) -> Seq<Seq<char>>
    decreases entries.len(),
{
    if entries.len() == 0 {
        Seq::empty()
    } else {
        let rest = fallback_dirs(entries.drop_last(), priority);
        if runs_after_priority(entries.last(), priority) {
            rest.push(entries.last().name)
        } else {
            rest
        }
    }
}

/// The order in which a group builds its subprojects.
pub open spec fn sub_build_order_of(priority: Seq<Seq<char>>, entries: Seq<EntryView>) -> Seq<Seq<char>> {
    priority + fallback_dirs(entries, priority)
}

/// A path as seen from one directory deeper: a rooted path stays.
pub open spec fn relocated(p: Seq<char>) -> Seq<char> {
    if p.len() > 0 && p[0] == '/' {
        p
    } else {
        joined_path(".."@, p)
    }
}

/// The run of the driver in a subproject, with the same command and flags
/// and the paths seen from the subproject.
pub open spec fn sub_build_plan(o: OptionsView) -> InvocationView {
    InvocationView {
        program: BREW_PROGRAM@,
        arguments: seq![command_word(o.command), "--sysroot"@, relocated(o.sysroot), "--prefix"@, relocated(o.prefix)]
            + (if o.verbose { seq!["-v"@] } else { Seq::empty() }) + (if o.quiet { seq!["-q"@] } else { Seq::empty() }),
    }
}

fn relocate(p: &str) -> (r: String)
    ensures
        r@ == relocated(p@),
{
    if starts_with_char(p, '/') {
        owned(p)
    } else {
        join_path("..", p)
    }
}

/// The run of the driver in a subproject.
pub fn sub_build_invocation(options: &Options) -> (r: Invocation)
    ensures
        r@ == sub_build_plan(options@),
{
    let mut arguments = vec![owned(options.command().name())];
    assert(texts(arguments@) =~= seq![command_word(options@.command)]);
    push_text(&mut arguments, owned("--sysroot"));
    push_text(&mut arguments, relocate(options.sysroot().as_str()));
    push_text(&mut arguments, owned("--prefix"));
    push_text(&mut arguments, relocate(options.prefix().as_str()));
    let ghost base = texts(arguments@);
    assert(base =~= seq![command_word(options@.command), "--sysroot"@, relocated(options@.sysroot), "--prefix"@, relocated(options@.prefix)]);
    if options.verbose() {
        push_text(&mut arguments, owned("-v"));
    }
    let ghost mid = texts(arguments@);
    assert(mid =~= base + (if options@.verbose { seq!["-v"@] } else { Seq::empty() }));
    if options.quiet() {
        push_text(&mut arguments, owned("-q"));
    }
    assert(texts(arguments@) =~= mid + (if options@.quiet { seq!["-q"@] } else { Seq::empty() }));
    Invocation { program: owned(BREW_PROGRAM), arguments }
}

/// What the run of the driver in the subproject `directory` came to.
pub fn sub_build_outcome(directory: &str, outcome: ToolOutcome) -> (r: Result<(), Error>)
    ensures
        match outcome {
            ToolOutcome::SpawnFailed(m) => r is Err && r->Err_0@ == BuildFault::RunBrewError(m@),
            ToolOutcome::Exited(true) => r is Ok,
            ToolOutcome::Exited(false) => r is Err && r->Err_0@ == BuildFault::BrewError(directory@),
        },
{
    match outcome {
        ToolOutcome::SpawnFailed(m) => Err(Error::RunBrewError(m)),
        ToolOutcome::Exited(true) => Ok(()),
        ToolOutcome::Exited(false) => Err(Error::BrewError(owned(directory))),
    }
}

/// What the run of the linker or archiver came to.
pub fn link_outcome(outcome: ToolOutcome) -> (r: Result<(), Error>)
    ensures
        match outcome {
            ToolOutcome::SpawnFailed(m) => r is Err && r->Err_0@ == BuildFault::RunLinkerError(m@),
            ToolOutcome::Exited(true) => r is Ok,
            ToolOutcome::Exited(false) => r is Err && r->Err_0@ == BuildFault::LinkerError,
        },
{
    match outcome {
        ToolOutcome::SpawnFailed(m) => Err(Error::RunLinkerError(m)),
        ToolOutcome::Exited(true) => Ok(()),
        ToolOutcome::Exited(false) => Err(Error::LinkerError),
    }
}

impl Brewfile {
    /// What the driver does for this manifest and `command`; a manifest
    /// without a kind is refused before anything is done.
    pub fn workflow(&self, command: Command) -> (r: Result<Workflow, Error>)
        ensures
            match workflow_of(self@.brew_type, command) {
                Ok(w) => r == Ok::<Workflow, Error>(w),
                Err(f) => r is Err && r->Err_0@ == f,
            },
    {
        match self.brew_type() {
            BrewType::Group => Ok(Workflow::SubBuilds),
            BrewType::Unset => Err(Error::NoBrewType),
            _ => match command {
                Command::Build => Ok(Workflow::Build),
                Command::Install => Ok(Workflow::Install),
                Command::Clean => Ok(Workflow::Clean),
            },
        }
    }

    /// Offers the source `source_path`, whose object is `object_path`, to each
    /// declared language in order; the first that claims it decides.
    pub fn resolve_file(
        &self,
        source_path: &str,
        object_path: &str,
        source_time: Option<u128>,
        object_time: Option<u128>,
        sysroot: &str,
    ) -> (r: Result<(Language, CompileAction), Error>)
        ensures
            match resolve_plan(self@, source_path@, object_path@, source_time, object_time, sysroot@) {
                Ok((l, a)) => r is Ok && r->Ok_0.0 == l && r->Ok_0.1@ == a,
                Err(f) => r is Err && r->Err_0@ == f,
            },
    {
        let languages = self.languages();
        let ghost langs = languages@;
        let ghost ext = path_extension(source_path@);
        let n = languages.len();
        let mut i: usize = 0;
        assert(langs.subrange(0, n as int) =~= langs);
        while i < n
            invariant
                langs == languages@,
                langs == self@.languages,
                ext == path_extension(source_path@),
                n == langs.len(),
                i <= n,
                first_claimant(langs, ext) == first_claimant(langs.subrange(i as int, n as int), ext),
            decreases n - i,
        {
            let language = languages[i];
            let ghost sub = langs.subrange(i as int, n as int);
            assert(sub[0] == language);
            let action = language.compile(source_path, object_path, source_time, object_time, sysroot);
            match action {
                CompileAction::Status(CompileStatus::NotMine) => {},
                _ => {
                    return Ok((language, action));
                },
            }
            assert(langs.subrange(i as int, n as int).drop_first() =~= langs.subrange(i + 1, n as int));
            i = i + 1;
        }
        Err(Error::UncompiledFile(owned(source_path)))
    }

    /// Resolves the files of the source tree in the order of the walk. The
    /// files before the first one that no language claims get their
    /// decisions, in order; that file stops the build with an error naming
    /// it, and no file after it is offered to any language.
    pub fn resolve_files(&self, files: &Vec<SourceFile>, sysroot: &str) -> (r: (Vec<(Language, CompileAction)>, Option<Error>))
        ensures
            ({
                let fs = source_file_views(files@);
                let k = first_unclaimed(self@, fs, 0);
                &&& r.0@.len() == k
                &&& forall|i: int| 0 <= i < k ==> decided(file_plan(self@, fs[i], sysroot@), r.0@[i].0, r.0@[i].1@)
                &&& k < fs.len() ==> r.1 is Some && r.1->Some_0@ == BuildFault::UncompiledFile(fs[k].source)
                &&& k == fs.len() ==> r.1 is None
            }),
    {
        let ghost fs = source_file_views(files@);
        let n = files.len();
        let mut resolved: Vec<(Language, CompileAction)> = Vec::new();
        let mut i: usize = 0;
        while i < n
            invariant
                fs == source_file_views(files@),
                n == fs.len(),
                i <= n,
                first_unclaimed(self@, fs, 0) == first_unclaimed(self@, fs, i as int),
                resolved@.len() == i,
                forall|j: int| 0 <= j < i ==> decided(file_plan(self@, fs[j], sysroot@), resolved@[j].0, resolved@[j].1@),
            decreases n - i,
        {
            let file = &files[i];
            assert(file@ == fs[i as int]);
            assert(file_plan(self@, fs[i as int], sysroot@) == resolve_plan(
                self@,
                file.source@,
                file.object@,
                file.source_time,
                file.object_time,
                sysroot@,
            ));
            match self.resolve_file(file.source.as_str(), file.object.as_str(), file.source_time, file.object_time, sysroot) {
                Ok(step) => {
                    let ghost before = resolved@;
                    resolved.push(step);
                    assert(resolved@ == before.push(step));
                    assert forall|j: int| 0 <= j < i + 1 implies decided(file_plan(self@, fs[j], sysroot@), resolved@[j].0, resolved@[j].1@) by {
                        if j < i {
                            assert(resolved@[j] == before[j]);
                        }
                    }
                    assert(first_unclaimed(self@, fs, i as int) == first_unclaimed(self@, fs, i + 1));
                },
                Err(e) => {
                    assert(first_claimant(self@.languages, path_extension(fs[i as int].source)) is None);
                    assert(first_unclaimed(self@, fs, i as int) == i);
                    return (resolved, Some(e));
                },
            }
            i = i + 1;
        }
        assert(first_unclaimed(self@, fs, n as int) == n);
        (resolved, None)
    }

    /// The file that the link step produces: `<name>.app` for an executable,
    /// `lib<name>.a` otherwise.
    pub fn target_name(&self) -> (r: Result<String, Error>)
        ensures
            match target_of(self@) {
                Ok(t) => r is Ok && r->Ok_0@ == t,
                Err(f) => r is Err && r->Err_0@ == f,
            },
    {
        match self.name() {
            None => Err(Error::NoName),
            Some(n) => match self.brew_type() {
                BrewType::Executable => Ok(joined(n.as_str(), ".app")),
                _ => {
                    let mut t = joined("lib", n.as_str());
                    t.append(".a");
                    Ok(t)
                },
            },
        }
    }

    /// The run that links `objects` into the target.
    pub fn link_invocation(&self, objects: &Vec<String>, sysroot: &str) -> (r: Result<Invocation, Error>)
        ensures
            match link_plan(self@, texts(objects@), sysroot@) {
                Ok(i) => r is Ok && r->Ok_0@ == i,
                Err(f) => r is Err && r->Err_0@ == f,
            },
    {
        let target = self.target_name()?;
        match self.brew_type() {
            BrewType::Executable => {
                let mut arguments = strings3("--target=x86_64-los", "-o", target.as_str());
                append_texts(&mut arguments, objects);
                push_text(&mut arguments, joined("--sysroot=", sysroot));
                assert(texts(arguments@) =~= seq!["--target=x86_64-los"@, "-o"@, target@] + texts(objects@)
                    + seq!["--sysroot="@ + sysroot@]);
                Ok(Invocation { program: owned("clang"), arguments })
            },
            _ => {
                let mut arguments = vec![owned("rcs"), target];
                assert(texts(arguments@) =~= seq!["rcs"@, target_of(self@)->Ok_0]);
                append_texts(&mut arguments, objects);
                Ok(Invocation { program: owned("ar"), arguments })
            },
        }
    }

    /// Where the linked target is installed below `prefix`.
    pub fn install_destination(&self, prefix: &str) -> (r: Result<String, Error>)
        ensures
            match install_plan(self@, prefix@) {
                Ok(p) => r is Ok && r->Ok_0@ == p,
                Err(f) => r is Err && r->Err_0@ == f,
            },
    {
        let target = self.target_name()?;
        let directory = match self.brew_type() {
            BrewType::Executable => join_path(prefix, "bin"),
            _ => join_path(prefix, "lib"),
        };
        Ok(join_path(directory.as_str(), target.as_str()))
    }

    /// The order in which this group builds its subprojects: the priority
    /// list first, in its order, then each other directory of `entries` that
    /// is not hidden, in the order of the listing.
    pub fn sub_build_order(&self, entries: &Vec<DirEntry>) -> (r: Vec<String>)
        ensures
            texts(r@) == sub_build_order_of(self@.priority, entry_views(entries@)),
    {
        let priority = self.priority();
        let ghost pr = self@.priority;
        let mut order: Vec<String> = Vec::new();
        assert(texts(order@) =~= Seq::<Seq<char>>::empty());
        append_texts(&mut order, priority);
        let ghost es = entry_views(entries@);
        let n = entries.len();
        let mut i: usize = 0;
        assert(es.subrange(0, 0) =~= Seq::<EntryView>::empty());
        while i < n
            invariant
                n == entries@.len(),
                es == entry_views(entries@),
                texts(priority@) == pr,
                i <= n,
                texts(order@) == pr + fallback_dirs(es.subrange(0, i as int), pr),
            decreases n - i,
        {
            let entry = &entries[i];
            assert(es.subrange(0, i + 1).drop_last() =~= es.subrange(0, i as int));
            assert(es.subrange(0, i + 1).last() == entry@);
            if entry.is_dir && !is_hidden(entry.name.as_str()) && !contains_text(priority, entry.name.as_str()) {
                push_text(&mut order, entry.name.clone());
            }
            i = i + 1;
        }
        assert(es.subrange(0, n as int) =~= es);
        order
    }
}

impl Object {
    /// Decides what this object's language does with its source.
    pub fn compile(&self, source_time: Option<u128>, object_time: Option<u128>, sysroot: &str) -> (r: CompileAction)
        ensures
            r@ == compile_plan(self@.language, self@.input, self@.output, source_time, object_time, sysroot@),
    {
        self.language().compile(self.input_filename().as_str(), self.output_filename().as_str(), source_time, object_time, sysroot)
    }

    /// Where this object is installed below `prefix`.
    pub fn install_path(&self, prefix: &str) -> (r: String)
        ensures
            r@ == joined_path(prefix@, self@.install_target),
    {
        join_path(prefix, self.install_target().as_str())
    }
}

/// A source file that none of the declared languages claims stops the build
/// with an error that names that file.
pub proof fn lemma_unclaimed_file_stops_build(
    bf: BrewfileView,
    src: Seq<char>,
    dst: Seq<char>,
    source_time: Option<u128>,
    object_time: Option<u128>,
    sysroot: Seq<char>,
)
    requires
        forall|k: int| 0 <= k < bf.languages.len() ==> claim_of(bf.languages[k], path_extension(src)) == Claim::NotMine,
    ensures
        resolve_plan(bf, src, dst, source_time, object_time, sysroot) == Err::<(Language, ActionView), BuildFault>(
            BuildFault::UncompiledFile(src),
        ),
{
    lemma_no_claimant(bf.languages, path_extension(src));
}

proof fn lemma_no_claimant(langs: Seq<Language>, ext: Seq<char>)
    requires
        forall|k: int| 0 <= k < langs.len() ==> claim_of(langs[k], ext) == Claim::NotMine,
    ensures
        first_claimant(langs, ext) is None,
    decreases langs.len(),
{
    if langs.len() > 0 {
        assert forall|k: int| 0 <= k < langs.drop_first().len() implies claim_of(langs.drop_first()[k], ext)
            == Claim::NotMine by {
            assert(langs.drop_first()[k] == langs[k + 1]);
        }
        lemma_no_claimant(langs.drop_first(), ext);
    }
}

/// Whether `name` is the name of an entry that runs after the priority list.
pub open spec fn names_later_entry(entries: Seq<EntryView>, priority: Seq<Seq<char>>, name: Seq<char>) -> bool {
    exists|j: int| 0 <= j < entries.len() && entries[j].name == name && runs_after_priority(entries[j], priority)
}

proof fn lemma_fallback_dirs(entries: Seq<EntryView>, priority: Seq<Seq<char>>)
    ensures
        forall|k: int| 0 <= k < fallback_dirs(entries, priority).len() ==> names_later_entry(
            entries,
            priority,
            #[trigger] fallback_dirs(entries, priority)[k],
        ),
        forall|j: int| 0 <= j < entries.len() && runs_after_priority(#[trigger] entries[j], priority)
            ==> fallback_dirs(entries, priority).contains(entries[j].name),
        entries.map_values(|e: EntryView| e.name).no_duplicates() ==> fallback_dirs(entries, priority).no_duplicates(),
    decreases entries.len(),
{
    if entries.len() > 0 {
        let init = entries.drop_last();
        let e = entries.last();
        lemma_fallback_dirs(init, priority);
        let rest = fallback_dirs(init, priority);
        let all = fallback_dirs(entries, priority);
        assert forall|k: int| 0 <= k < all.len() implies names_later_entry(entries, priority, #[trigger] all[k]) by {
            if k < rest.len() {
                assert(all[k] == rest[k]);
                assert(names_later_entry(init, priority, rest[k]));
                let j = choose|j: int| 0 <= j < init.len() && init[j].name == rest[k] && runs_after_priority(init[j], priority);
                assert(entries[j] == init[j]);
            } else {
                let j = entries.len() - 1;
                assert(entries[j] == e);
                assert(all[k] == e.name);
                assert(0 <= j < entries.len() && entries[j].name == all[k] && runs_after_priority(entries[j], priority));
            }
        }
        assert forall|j: int| 0 <= j < entries.len() && runs_after_priority(#[trigger] entries[j], priority)
            implies all.contains(entries[j].name) by {
            if j < init.len() {
                assert(init[j] == entries[j]);
                assert(rest.contains(init[j].name));
                let k = choose|k: int| 0 <= k < rest.len() && rest[k] == init[j].name;
                assert(all[k] == rest[k]);
            } else {
                assert(all[all.len() - 1] == e.name);
            }
        }
        let names = entries.map_values(|x: EntryView| x.name);
        let init_names = init.map_values(|x: EntryView| x.name);
        if names.no_duplicates() {
            assert forall|a: int, b: int| 0 <= a < b < init_names.len() implies init_names[a] != init_names[b] by {
                assert(init_names[a] == names[a]);
                assert(init_names[b] == names[b]);
            }
            if runs_after_priority(e, priority) {
                assert forall|k: int| 0 <= k < rest.len() implies rest[k] != e.name by {
                    assert(names_later_entry(init, priority, rest[k]));
                    let j = choose|j: int| 0 <= j < init.len() && init[j].name == rest[k] && runs_after_priority(init[j], priority);
                    assert(names[j] == init[j].name);
                    assert(names[entries.len() - 1] == e.name);
                }
                assert forall|a: int, b: int| 0 <= a < b < all.len() implies all[a] != all[b] by {
                    if b < rest.len() {
                        assert(all[a] == rest[a]);
                        assert(all[b] == rest[b]);
                    } else {
                        assert(all[a] == rest[a]);
                    }
                }
            }
        }
    }
}

/// A group builds its priority list first, in its order. After it, it builds
/// each directory of the listing that is neither hidden nor in the priority
/// list, and nothing else; when the listing names each entry once, each such
/// directory is built once.
pub proof fn lemma_sub_build_order(priority: Seq<Seq<char>>, entries: Seq<EntryView>)
    ensures
        sub_build_order_of(priority, entries).subrange(0, priority.len() as int) == priority,
        forall|k: int| priority.len() <= k < sub_build_order_of(priority, entries).len()
            ==> !priority.contains(#[trigger] sub_build_order_of(priority, entries)[k]),
        forall|k: int| priority.len() <= k < sub_build_order_of(priority, entries).len()
            ==> exists|j: int| 0 <= j < entries.len() && entries[j].name == #[trigger] sub_build_order_of(priority, entries)[k]
                && entries[j].is_dir && !hidden(entries[j].name),
        forall|j: int| 0 <= j < entries.len() && runs_after_priority(#[trigger] entries[j], priority)
            ==> sub_build_order_of(priority, entries).contains(entries[j].name),
        entries.map_values(|e: EntryView| e.name).no_duplicates() ==> fallback_dirs(entries, priority).no_duplicates(),
{
    lemma_fallback_dirs(entries, priority);
    let tail = fallback_dirs(entries, priority);
    let order = sub_build_order_of(priority, entries);
    assert(order.subrange(0, priority.len() as int) =~= priority);
    assert forall|k: int| priority.len() <= k < order.len() implies !priority.contains(#[trigger] order[k]) && exists|j: int|
        0 <= j < entries.len() && entries[j].name == order[k] && entries[j].is_dir && !hidden(entries[j].name) by {
        assert(order[k] == tail[k - priority.len()]);
    }
    assert forall|j: int| 0 <= j < entries.len() && runs_after_priority(#[trigger] entries[j], priority) implies order.contains(
        entries[j].name,
    ) by {
        let k = choose|k: int| 0 <= k < tail.len() && tail[k] == entries[j].name;
        assert(order[k + priority.len()] == tail[k]);
    }
}

proof fn lemma_first_unclaimed_from(bf: BrewfileView, files: Seq<SourceFileView>, i: int, k: int)
    requires
        0 <= i <= k < files.len(),
        forall|j: int| i <= j < k ==> first_claimant(bf.languages, path_extension(#[trigger] files[j].source)) is Some,
        first_claimant(bf.languages, path_extension(files[k].source)) is None,
    ensures
        first_unclaimed(bf, files, i) == k,
    decreases k - i,
{
    if i < k {
        lemma_first_unclaimed_from(bf, files, i + 1, k);
    }
}

/// When the files before `files[k]` are each claimed by a declared language
/// and `files[k]` is claimed by none, the walk stops at `files[k]`: exactly
/// the files before it are resolved (see `Brewfile::resolve_files`), and the
/// build fails with an error naming `files[k]`.
pub proof fn lemma_unclaimed_file_stops_walk(bf: BrewfileView, files: Seq<SourceFileView>, k: int)
    requires
        0 <= k < files.len(),
        forall|j: int| 0 <= j < k ==> first_claimant(bf.languages, path_extension(#[trigger] files[j].source)) is Some,
        first_claimant(bf.languages, path_extension(files[k].source)) is None,
    ensures
        first_unclaimed(bf, files, 0) == k,
{
    lemma_first_unclaimed_from(bf, files, 0, k);
}

} // verus!
