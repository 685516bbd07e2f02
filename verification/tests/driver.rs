use alya::codegen::target::{Architecture, OperatingSystem};
use alya::driver::{
    choose_output_files, gcc_link_args, gcc_object_args, parse_cli, trim_digits, CBuildPlan,
    CliRequest,
};

fn args(list: &[&str]) -> Vec<String> {
    list.iter().map(|s| s.to_string()).collect()
}

#[test]
fn link_arguments_per_target() {
    assert_eq!(
        gcc_link_args("out.s", "prog", Architecture::X64, OperatingSystem::Linux),
        args(&["out.s", "-o", "prog", "-no-pie"])
    );
    assert_eq!(
        gcc_link_args("out.s", "prog.exe", Architecture::X86, OperatingSystem::Windows),
        args(&["-m32", "out.s", "-o", "prog.exe"])
    );
    assert_eq!(
        gcc_link_args("a.s", "b", Architecture::ARM64, OperatingSystem::MacOS),
        args(&["a.s", "-o", "b", "-no-pie"])
    );
}

#[test]
fn output_file_names() {
    assert_eq!(choose_output_files(false, None, false), ("output.s".to_string(), None));
    assert_eq!(
        choose_output_files(true, None, false),
        ("temp_alya_output.s".to_string(), Some("program".to_string()))
    );
    assert_eq!(
        choose_output_files(true, None, true),
        ("temp_alya_output.s".to_string(), Some("program.exe".to_string()))
    );
    assert_eq!(
        choose_output_files(false, Some("x.s".to_string()), true),
        ("x.s".to_string(), None)
    );
}

#[test]
fn object_arguments() {
    assert_eq!(
        gcc_object_args(
            "/p/sqlite3.c",
            "/c/sqlite3_1.o",
            Architecture::X86,
            &args(&["/p/include"]),
            &args(&["-O2", "-DX"]),
        ),
        args(&["-c", "/p/sqlite3.c", "-o", "/c/sqlite3_1.o", "-m32", "-I/p/include", "-O2", "-DX"])
    );
}

#[test]
fn build_plan_lists_each_item_once() {
    let mut plan = CBuildPlan::new();
    plan.add_source("/p/a.c".to_string());
    plan.add_source("/p/a.c".to_string());
    plan.add_flag("-O2".to_string());
    plan.add_flag("-O2".to_string());
    plan.add_include_dir("/p/inc".to_string());
    plan.add_provided_libs("sqlite3");
    plan.add_provided_libs("sqlite");
    plan.add_provided_libs("42");
    assert_eq!(plan.sources, args(&["/p/a.c"]));
    assert_eq!(plan.flags, args(&["-O2"]));
    assert_eq!(plan.include_dirs, args(&["/p/inc"]));
    assert_eq!(plan.provided_libs, args(&["sqlite3", "sqlite", "42"]));
}

#[test]
fn trailing_digits_are_trimmed() {
    assert_eq!(trim_digits("sqlite3"), "sqlite");
    assert_eq!(trim_digits("lib2x10"), "lib2x");
    assert_eq!(trim_digits("123"), "");
    assert_eq!(trim_digits("zlib"), "zlib");
}

fn compile(request: CliRequest) -> (String, Option<String>, bool, Architecture, OperatingSystem) {
    match request {
        CliRequest::Compile(a) => (a.input_file, a.output_file, a.output_binary, a.arch, a.os),
        _ => panic!("expected a compile request"),
    }
}

#[test]
fn command_line_options() {
    assert_eq!(
        compile(parse_cli(&args(&["alyac", "hello.alya"]), OperatingSystem::Linux)),
        ("hello.alya".to_string(), None, false, Architecture::X64, OperatingSystem::Linux)
    );
    assert_eq!(
        compile(parse_cli(
            &args(&["alyac", "hello.alya", "-o", "hello.s", "--arch", "arm64", "--os", "macos"]),
            OperatingSystem::Linux
        )),
        (
            "hello.alya".to_string(),
            Some("hello.s".to_string()),
            false,
            Architecture::ARM64,
            OperatingSystem::MacOS
        )
    );
    assert_eq!(
        compile(parse_cli(&args(&["alyac", "--output-binary", "a.alya", "-o"]), OperatingSystem::Windows)),
        ("a.alya".to_string(), None, true, Architecture::X64, OperatingSystem::Windows)
    );
}

#[test]
fn command_line_help_and_errors() {
    assert!(matches!(parse_cli(&args(&["alyac"]), OperatingSystem::Linux), CliRequest::Fail { message: None, show_usage: true }));
    assert!(matches!(parse_cli(&args(&["alyac", "x.alya", "-h", "--bogus"]), OperatingSystem::Linux), CliRequest::Help));
    match parse_cli(&args(&["alyac", "x.alya", "--arch", "mips"]), OperatingSystem::Linux) {
        CliRequest::Fail { message, show_usage } => {
            assert_eq!(message, Some("Error: Unknown architecture 'mips'".to_string()));
            assert!(!show_usage);
        }
        _ => panic!("expected a failure"),
    }
    match parse_cli(&args(&["alyac", "x.alya", "--os", "beos"]), OperatingSystem::Linux) {
        CliRequest::Fail { message, show_usage } => {
            assert_eq!(message, Some("Error: Unknown OS 'beos'".to_string()));
            assert!(!show_usage);
        }
        _ => panic!("expected a failure"),
    }
    match parse_cli(&args(&["alyac", "-x"]), OperatingSystem::Linux) {
        CliRequest::Fail { message, show_usage } => {
            assert_eq!(message, Some("Error: Unknown option '-x'".to_string()));
            assert!(show_usage);
        }
        _ => panic!("expected a failure"),
    }
    match parse_cli(&args(&["alyac", "--output-binary"]), OperatingSystem::Linux) {
        CliRequest::Fail { message, show_usage } => {
            assert_eq!(message, Some("Error: No input file specified".to_string()));
            assert!(show_usage);
        }
        _ => panic!("expected a failure"),
    }
}
