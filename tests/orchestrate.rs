use brew::arguments::parse_arguments;
use brew::error::Error;
use brew::language::{Claim, CompileStatus, Language};
use brew::orchestrate::{
    check_date, entry_step, link_outcome, sub_build_invocation, sub_build_outcome, CompileAction, DirEntry, EntryStep, ToolOutcome,
    Workflow, Step, SourceFile, installs_headers, linked_object, workflow_steps,
};
use brew::brewfile::BrewType;
use brew::arguments::Command;
use brew::parser::parse_brewfile;
use brew::paths::{get_extension, is_hidden, join_path, object_name, path_extension_of};

fn strings(words: &[&str]) -> Vec<String> {
    words.iter().map(|w| w.to_string()).collect()
}

fn run_of(action: CompileAction) -> (String, Vec<String>) {
    match action {
        CompileAction::Run(i) => (i.program, i.arguments),
        CompileAction::Status(s) => panic!("expected a run, found {:?}", s),
    }
}

fn status_of(action: CompileAction) -> CompileStatus {
    match action {
        CompileAction::Status(s) => s,
        CompileAction::Run(i) => panic!("expected no run, found {:?}", i),
    }
}

#[test]
fn fresh_object_is_kept_without_tool() {
    let a = Language::C.compile("./src/a.c", "./obj/a.o", Some(10), Some(20), "/");
    assert_eq!(status_of(a), CompileStatus::Complete);
    let a = Language::C.compile("./src/a.c", "./obj/a.o", Some(20), Some(20), "/");
    assert_eq!(status_of(a), CompileStatus::Complete);
}

#[test]
fn missing_object_runs_tool() {
    let (program, arguments) = run_of(Language::C.compile("./src/a.c", "./obj/a.o", Some(10), None, "/sys"));
    assert_eq!(program, "clang");
    assert_eq!(
        arguments,
        strings(&["--target=x86_64-los", "-Wall", "-g", "-c", "-I./include", "-o", "./obj/a.o", "./src/a.c", "--sysroot=/sys"])
    );
}

#[test]
fn stale_or_unreadable_object_runs_tool() {
    let (program, _) = run_of(Language::CPlusPlus.compile("x.cpp", "x.o", Some(30), Some(20), "/"));
    assert_eq!(program, "clang++");
    let (_, _) = run_of(Language::CPlusPlus.compile("x.cpp", "x.o", None, Some(20), "/"));
}

#[test]
fn assembly_runs_assembler_with_sysroot() {
    let (program, arguments) = run_of(Language::Assembly.compile("boot.s", "boot.o", None, None, "/sys"));
    assert_eq!(program, "nasm");
    assert_eq!(arguments, strings(&["-f", "elf64", "-g", "-F", "dwarf", "-o", "boot.o", "boot.s", "--sysroot=/sys"]));
}

#[test]
fn headers_are_ignored_and_others_not_mine() {
    assert_eq!(status_of(Language::C.compile("a.h", "a.o", None, None, "/")), CompileStatus::Ignore);
    assert_eq!(status_of(Language::CPlusPlus.compile("a.hpp", "a.o", None, None, "/")), CompileStatus::Ignore);
    assert_eq!(status_of(Language::Assembly.compile("a.h", "a.o", None, None, "/")), CompileStatus::NotMine);
    assert_eq!(status_of(Language::C.compile("a.C", "a.o", None, None, "/")), CompileStatus::NotMine);
    assert_eq!(Language::C.claim("c"), Claim::Compile);
    assert_eq!(Language::Assembly.claim("asm"), Claim::Compile);
}

#[test]
fn freshness_rule() {
    assert!(!check_date(Some(1), Some(2)));
    assert!(!check_date(Some(2), Some(2)));
    assert!(check_date(Some(3), Some(2)));
    assert!(check_date(Some(3), None));
    assert!(check_date(None, Some(2)));
}

#[test]
fn unclaimed_file_stops_build() {
    let b = parse_brewfile("type = executable\nlanguages = c, asm").unwrap();
    let r = b.resolve_file("./src/dir/x.rs", "./obj/dir/x.o", None, None, "/");
    assert_eq!(r.err().unwrap(), Error::UncompiledFile("./src/dir/x.rs".to_string()));
}

#[test]
fn first_claiming_language_decides() {
    let b = parse_brewfile("type = executable\nlanguages = asm, cpp, c").unwrap();
    let (l, a) = b.resolve_file("./src/x.h", "./obj/x.o", None, None, "/").ok().unwrap();
    assert_eq!(l, Language::CPlusPlus);
    assert_eq!(status_of(a), CompileStatus::Ignore);
    let (l, a) = b.resolve_file("./src/x.c", "./obj/x.o", None, None, "/").ok().unwrap();
    assert_eq!(l, Language::C);
    assert_eq!(run_of(a).0, "clang");
}

#[test]
fn compile_outcomes() {
    assert_eq!(Language::C.compile_outcome("a.c", ToolOutcome::Exited(true)).unwrap(), CompileStatus::Complete);
    assert_eq!(
        Language::C.compile_outcome("a.c", ToolOutcome::Exited(false)).unwrap_err(),
        Error::CompileError("a.c".to_string())
    );
    assert_eq!(
        Language::CPlusPlus.compile_outcome("a.cpp", ToolOutcome::SpawnFailed("gone".to_string())).unwrap_err(),
        Error::RunCompilerError("c++".to_string(), "gone".to_string())
    );
}

#[test]
fn link_outcomes() {
    assert!(link_outcome(ToolOutcome::Exited(true)).is_ok());
    assert_eq!(link_outcome(ToolOutcome::Exited(false)).unwrap_err(), Error::LinkerError);
    assert_eq!(
        link_outcome(ToolOutcome::SpawnFailed("no".to_string())).unwrap_err(),
        Error::RunLinkerError("no".to_string())
    );
    assert_eq!(
        sub_build_outcome("lib", ToolOutcome::Exited(false)).unwrap_err(),
        Error::BrewError("lib".to_string())
    );
    assert_eq!(
        sub_build_outcome("lib", ToolOutcome::SpawnFailed("x".to_string())).unwrap_err(),
        Error::RunBrewError("x".to_string())
    );
    assert!(sub_build_outcome("lib", ToolOutcome::Exited(true)).is_ok());
}

#[test]
fn link_executable_and_library() {
    let objects = strings(&["./obj/a.o", "./obj/b.o"]);
    let exe = parse_brewfile("name = hello\ntype = executable").unwrap();
    let i = exe.link_invocation(&objects, "/sys").ok().unwrap();
    assert_eq!(i.program, "clang");
    assert_eq!(
        i.arguments,
        strings(&["--target=x86_64-los", "-o", "hello.app", "./obj/a.o", "./obj/b.o", "--sysroot=/sys"])
    );
    let lib = parse_brewfile("name = util\ntype = library").unwrap();
    let i = lib.link_invocation(&objects, "/sys").ok().unwrap();
    assert_eq!(i.program, "ar");
    assert_eq!(i.arguments, strings(&["rcs", "libutil.a", "./obj/a.o", "./obj/b.o"]));
}

#[test]
fn link_without_name_fails() {
    let b = parse_brewfile("type = executable").unwrap();
    assert_eq!(b.link_invocation(&Vec::new(), "/").err().unwrap(), Error::NoName);
    assert_eq!(b.target_name().unwrap_err(), Error::NoName);
    assert_eq!(b.install_destination("/los").unwrap_err(), Error::NoName);
}

#[test]
fn install_destinations() {
    let exe = parse_brewfile("name = hello\ntype = executable").unwrap();
    assert_eq!(exe.install_destination("/los/").unwrap(), "/los/bin/hello.app");
    let lib = parse_brewfile("name = util\ntype = library\nkern = asm, boot.s, boot/kern.o").unwrap();
    assert_eq!(lib.install_destination("stage").unwrap(), "stage/lib/libutil.a");
    assert_eq!(lib.target_name().unwrap(), "libutil.a");
    assert_eq!(lib.objects()[0].install_path("/los/"), "/los/boot/kern.o");
}

#[test]
fn object_compile_uses_its_language() {
    let b = parse_brewfile("kern = asm, boot.s, boot/kern.o").unwrap();
    let (program, arguments) = run_of(b.objects()[0].compile(None, None, "/"));
    assert_eq!(program, "nasm");
    assert_eq!(arguments, strings(&["-f", "elf64", "-g", "-F", "dwarf", "-o", "kern", "boot.s", "--sysroot=/"]));
}

fn entry(name: &str, is_dir: bool) -> DirEntry {
    DirEntry { name: name.to_string(), is_dir }
}

#[test]
fn group_builds_priority_first() {
    let b = parse_brewfile("type = group\npriority = b").unwrap();
    let order = b.sub_build_order(&vec![entry("a", true), entry("b", true), entry("c", true)]);
    assert_eq!(order[0], "b");
    assert_eq!(order.len(), 3);
    assert_eq!(order.iter().filter(|n| *n == "a").count(), 1);
    assert_eq!(order.iter().filter(|n| *n == "c").count(), 1);
}

#[test]
fn group_skips_hidden_files_and_listed() {
    let b = parse_brewfile("type = group\npriority = z, x").unwrap();
    let order = b.sub_build_order(&vec![
        entry(".git", true),
        entry("x", true),
        entry("brewfile", false),
        entry("y", true),
    ]);
    assert_eq!(order, strings(&["z", "x", "y"]));
}

#[test]
fn sub_build_paths_move_one_level_down() {
    let o = parse_arguments(strings(&["brew", "install", "--sysroot", "sys", "-q"])).ok().unwrap();
    let i = sub_build_invocation(&o);
    assert_eq!(i.program, "brew");
    assert_eq!(i.arguments, strings(&["install", "--sysroot", "../sys", "--prefix", "/los/", "-q"]));
    let o = parse_arguments(strings(&["brew", "-v", "--prefix", "out/"])).ok().unwrap();
    let i = sub_build_invocation(&o);
    assert_eq!(i.arguments, strings(&["build", "--sysroot", "/", "--prefix", "../out/", "-v"]));
}

#[test]
fn workflows() {
    let unset = parse_brewfile("name = a").unwrap();
    assert_eq!(unset.workflow(Command::Build).unwrap_err(), Error::NoBrewType);
    let group = parse_brewfile("type = group").unwrap();
    assert_eq!(group.workflow(Command::Clean).unwrap(), Workflow::SubBuilds);
    let lib = parse_brewfile("type = library").unwrap();
    assert_eq!(lib.workflow(Command::Build).unwrap(), Workflow::Build);
    assert_eq!(lib.workflow(Command::Install).unwrap(), Workflow::Install);
    assert_eq!(lib.workflow(Command::Clean).unwrap(), Workflow::Clean);
}

#[test]
fn path_helpers() {
    assert_eq!(get_extension("a.tar.gz"), "gz");
    assert_eq!(get_extension(".hidden"), "");
    assert_eq!(get_extension("noext"), "");
    assert_eq!(get_extension("a."), "");
    assert_eq!(path_extension_of("./dir.d/file"), "");
    assert_eq!(path_extension_of("./src/a.cpp"), "cpp");
    assert_eq!(object_name("a.c"), "a.o");
    assert_eq!(object_name("Makefile"), "Makefile.o");
    assert_eq!(object_name(".rc"), ".rc.o");
    assert_eq!(join_path("./obj", "a.o"), "./obj/a.o");
    assert_eq!(join_path("/los/", "bin"), "/los/bin");
    assert_eq!(join_path("/los", "/abs"), "/abs");
    assert_eq!(join_path("", "x"), "x");
    assert!(is_hidden(".git"));
    assert!(!is_hidden("src"));
}

#[test]
fn source_tree_is_mirrored() {
    assert!(matches!(entry_step("./src", "./obj", ".cache", true), EntryStep::Skip));
    assert!(matches!(entry_step("./src", "./obj", ".x.c", false), EntryStep::Skip));
    match entry_step("./src", "./obj", "lib", true) {
        EntryStep::Descend { source, objects } => {
            assert_eq!(source, "./src/lib");
            assert_eq!(objects, "./obj/lib");
        }
        other => panic!("unexpected {:?}", other),
    }
    match entry_step("./src/lib", "./obj/lib", "main.cpp", false) {
        EntryStep::File { source, object } => {
            assert_eq!(source, "./src/lib/main.cpp");
            assert_eq!(object, "./obj/lib/main.o");
        }
        other => panic!("unexpected {:?}", other),
    }
}

#[test]
fn workflow_step_order() {
    assert_eq!(workflow_steps(Workflow::SubBuilds, BrewType::Group, true), vec![Step::SubBuilds]);
    assert_eq!(workflow_steps(Workflow::Clean, BrewType::Library, true), vec![Step::Clean]);
    assert_eq!(
        workflow_steps(Workflow::Build, BrewType::Library, true),
        vec![Step::CompileSources, Step::Link, Step::CompileObjects]
    );
    assert_eq!(
        workflow_steps(Workflow::Install, BrewType::Library, true),
        vec![
            Step::CompileSources,
            Step::Link,
            Step::CompileObjects,
            Step::InstallObjects,
            Step::InstallTarget,
            Step::InstallHeaders
        ]
    );
    assert_eq!(workflow_steps(Workflow::Install, BrewType::Library, false).len(), 5);
    assert_eq!(workflow_steps(Workflow::Install, BrewType::Executable, true).len(), 5);
}

#[test]
fn headers_install_only_for_libraries_with_headers() {
    assert!(installs_headers(BrewType::Library, true));
    assert!(!installs_headers(BrewType::Library, false));
    assert!(!installs_headers(BrewType::Executable, true));
}

#[test]
fn linked_objects_by_status() {
    assert_eq!(linked_object(CompileStatus::Complete, "./obj/a.o".to_string()), Some("./obj/a.o".to_string()));
    assert_eq!(linked_object(CompileStatus::Ignore, "./obj/a.o".to_string()), None);
    assert_eq!(linked_object(CompileStatus::NotMine, "./obj/a.o".to_string()), None);
}

fn source(path: &str, object: &str) -> SourceFile {
    SourceFile { source: path.to_string(), object: object.to_string(), source_time: None, object_time: None }
}

#[test]
fn walk_stops_at_first_unclaimed_file() {
    let b = parse_brewfile("type = executable\nlanguages = c").unwrap();
    let files = vec![
        source("./src/a.c", "./obj/a.o"),
        source("./src/a.h", "./obj/a.o"),
        source("./src/notes.txt", "./obj/notes.o"),
        source("./src/b.c", "./obj/b.o"),
    ];
    let (resolved, stop) = b.resolve_files(&files, "/");
    assert_eq!(resolved.len(), 2);
    assert_eq!(resolved[0].0, Language::C);
    assert_eq!(run_of(resolved[0].1.clone()).0, "clang");
    assert_eq!(status_of(resolved[1].1.clone()), CompileStatus::Ignore);
    assert_eq!(stop, Some(Error::UncompiledFile("./src/notes.txt".to_string())));
}

#[test]
fn walk_without_unclaimed_files_resolves_all() {
    let b = parse_brewfile("type = executable\nlanguages = c").unwrap();
    let files = vec![source("./src/a.c", "./obj/a.o"), source("./src/b.c", "./obj/b.o")];
    let (resolved, stop) = b.resolve_files(&files, "/");
    assert_eq!(resolved.len(), 2);
    assert!(stop.is_none());
}
