//! The compiler driver's decisions: command-line options, output file
//! names, the arguments handed to GCC and the plan for building C sources.

use vstd::prelude::*;
use crate::ast::string_list_view;
use crate::codegen::target::{Architecture, OperatingSystem};
use crate::text::{chars_of, string_from_chars, is_ascii_digit};
use crate::diagnostics::{push_chars, push_str};
use crate::lexer::chars_eq_str;
use crate::parser::expr::copy_string;

verus! {

/// A string literal as an owned string.
fn owned(s: &str) -> (r: String)
    ensures
        r@ == s@,
{
    s.to_owned()
}

/// The arguments with which GCC links the assembly `assembly` into the
/// executable `exe`: `-m32` first for x86, `-no-pie` last except on
/// Windows.
pub open spec fn link_args(assembly: Seq<char>, exe: Seq<char>, arch: Architecture, os: OperatingSystem) -> Seq<
    Seq<char>,
> {
    (if arch == Architecture::X86 { seq!["-m32"@] } else { seq![] }) + seq![assembly, "-o"@, exe] + (if os
        != OperatingSystem::Windows {
        seq!["-no-pie"@]
    } else {
        seq![]
    })
}

/// The arguments with which GCC links the assembly `asm_file` into the
/// executable `exe_file`.
pub fn gcc_link_args(asm_file: &str, exe_file: &str, arch: Architecture, os: OperatingSystem) -> (r: Vec<
    String,
>)
    ensures
        string_list_view(r@) == link_args(asm_file@, exe_file@, arch, os),
{
    let mut args: Vec<String> = Vec::new();
    if arch == Architecture::X86 {
        args.push(owned("-m32"));
    }
    args.push(owned(asm_file));
    args.push(owned("-o"));
    args.push(owned(exe_file));
    if os != OperatingSystem::Windows {
        args.push(owned("-no-pie"));
    }
    assert(string_list_view(args@) =~= link_args(asm_file@, exe_file@, arch, os));
    args
}

/// The files a compilation writes: the assembly file and, when an
/// executable is built, the executable (the assembly is then temporary).
pub open spec fn output_files(output_binary: bool, output_file: Option<Seq<char>>, windows: bool) -> (
    Seq<char>,
    Option<Seq<char>>,
) {
    if output_binary {
        (
            "temp_alya_output.s"@,
            Some(
                match output_file {
                    Some(f) => f,
                    None => if windows {
                        "program.exe"@
                    } else {
                        "program"@
                    },
                },
            ),
        )
    } else {
        (
            match output_file {
                Some(f) => f,
                None => "output.s"@,
            },
            None,
        )
    }
}

/// The files a compilation writes: the assembly file and, when an
/// executable is built, the executable. `windows` tells whether the
/// compiler runs on Windows, where executables end in `.exe`.
pub fn choose_output_files(output_binary: bool, output_file: Option<String>, windows: bool) -> (r: (
    String,
    Option<String>,
))
    ensures
        (r.0@, match r.1 {
            Some(e) => Some(e@),
            None => None,
        }) == output_files(
            output_binary,
            match output_file {
                Some(f) => Some(f@),
                None => None,
            },
            windows,
        ),
{
    if output_binary {
        let exe = match output_file {
            Some(f) => f,
            None => if windows {
                owned("program.exe")
            } else {
                owned("program")
            },
        };
        (owned("temp_alya_output.s"), Some(exe))
    } else {
        let assembly = match output_file {
            Some(f) => f,
            None => owned("output.s"),
        };
        (assembly, None)
    }
}

/// The arguments with which GCC compiles the C source `src` into the
/// object `obj`: `-m32` for x86, an `-I` for each include directory, then
/// the declared flags.
pub open spec fn c_object_args(
    src: Seq<char>,
    obj: Seq<char>,
    arch: Architecture,
    include_dirs: Seq<Seq<char>>,
    flags: Seq<Seq<char>>,
) -> Seq<Seq<char>> {
    seq!["-c"@, src, "-o"@, obj] + (if arch == Architecture::X86 {
        seq!["-m32"@]
    } else {
        seq![]
    }) + include_dirs.map_values(|d: Seq<char>| "-I"@ + d) + flags
}

/// The arguments with which GCC compiles the C source `src` into the
/// object `obj`.
pub fn gcc_object_args(
    src: &str,
    obj: &str,
    arch: Architecture,
    include_dirs: &Vec<String>,
    flags: &Vec<String>,
) -> (r: Vec<String>)
    ensures
        string_list_view(r@) == c_object_args(
            src@,
            obj@,
            arch,
            string_list_view(include_dirs@),
            string_list_view(flags@),
        ),
{
    let mut args: Vec<String> = Vec::new();
    args.push(owned("-c"));
    args.push(owned(src));
    args.push(owned("-o"));
    args.push(owned(obj));
    if arch == Architecture::X86 {
        args.push(owned("-m32"));
    }
    let ghost head = string_list_view(args@);
    let mut i: usize = 0;
    while i < include_dirs.len()
        invariant
            i <= include_dirs@.len(),
            string_list_view(args@) == head + string_list_view(include_dirs@).take(i as int).map_values(
                |d: Seq<char>| "-I"@ + d,
            ),
        decreases include_dirs@.len() - i,
    {
        let mut m: Vec<char> = Vec::new();
        push_str(&mut m, "-I");
        let dc = chars_of(include_dirs[i].as_str());
        push_chars(&mut m, &dc);
        let ghost before = string_list_view(args@);
        args.push(string_from_chars(m.as_slice()));
        i = i + 1;
        assert(string_list_view(args@) =~= before.push("-I"@ + include_dirs@[i - 1]@));
        assert(string_list_view(include_dirs@).take(i as int).map_values(|d: Seq<char>| "-I"@ + d)
            =~= string_list_view(include_dirs@).take(i - 1 as int).map_values(
            |d: Seq<char>| "-I"@ + d,
        ).push("-I"@ + include_dirs@[i - 1]@));
    }
    let ghost middle = string_list_view(args@);
    let mut j: usize = 0;
    while j < flags.len()
        invariant
            j <= flags@.len(),
            string_list_view(args@) == middle + string_list_view(flags@).take(j as int),
        decreases flags@.len() - j,
    {
        let ghost before = string_list_view(args@);
        args.push(copy_string(&flags[j]));
        j = j + 1;
        assert(string_list_view(args@) =~= before.push(flags@[j - 1]@));
        assert(string_list_view(flags@).take(j as int) =~= string_list_view(flags@).take(
            j - 1 as int,
        ).push(flags@[j - 1]@));
    }
    proof {
        assert(string_list_view(include_dirs@).take(include_dirs@.len() as int) =~= string_list_view(
            include_dirs@,
        ));
        assert(string_list_view(flags@).take(flags@.len() as int) =~= string_list_view(flags@));
        assert(head =~= seq!["-c"@, src@, "-o"@, obj@] + (if arch == Architecture::X86 {
            seq!["-m32"@]
        } else {
            seq![]
        }));
    }
    assert(string_list_view(args@) =~= c_object_args(
        src@,
        obj@,
        arch,
        string_list_view(include_dirs@),
        string_list_view(flags@),
    ));
    args
}

/// `s` without its trailing ASCII digits.
pub open spec fn trim_trailing_digits(s: Seq<char>) -> Seq<char>
    decreases s.len(),
{
    if s.len() > 0 && is_ascii_digit(s.last()) {
        trim_trailing_digits(s.drop_last())
    } else {
        s
    }
}

/// `v` with `x` added at the end unless it is already there.
pub open spec fn insert_unique(v: Seq<Seq<char>>, x: Seq<char>) -> Seq<Seq<char>> {
    if v.contains(x) {
        v
    } else {
        v.push(x)
    }
}

/// Adds `s` to `v` unless a string with the same characters is there.
pub fn push_unique(v: &mut Vec<String>, s: String)
    ensures
        string_list_view(final(v)@) == insert_unique(string_list_view(old(v)@), s@),
{
    let mut k: usize = 0;
    while k < v.len()
        invariant
            k <= v@.len(),
            forall|j: int| 0 <= j < k ==> v@[j]@ != s@,
        decreases v@.len() - k,
    {
        if v[k].eq(&s) {
            assert(string_list_view(v@)[k as int] == s@);
            return;
        }
        k = k + 1;
    }
    let ghost before = v@;
    v.push(s);
    assert(!string_list_view(before).contains(s@)) by {
        if string_list_view(before).contains(s@) {
            let j = choose|j: int| 0 <= j < before.len() && string_list_view(before)[j] == s@;
            assert(before[j]@ == s@);
        }
    }
    assert(string_list_view(v@) =~= string_list_view(before).push(s@));
}

/// The C sources, flags and include directories that a project declares,
/// each listed once, and the libraries its sources provide.
pub struct CBuildPlan {
    pub sources: Vec<String>,
    pub flags: Vec<String>,
    pub include_dirs: Vec<String>,
    pub provided_libs: Vec<String>,
}

/// Whether no item of `v` occurs twice.
pub open spec fn no_duplicates(v: Seq<Seq<char>>) -> bool {
    forall|i: int, j: int| 0 <= i < j < v.len() ==> v[i] != v[j]
}

proof fn lemma_insert_unique(v: Seq<Seq<char>>, x: Seq<char>)
    requires
        no_duplicates(v),
    ensures
        no_duplicates(insert_unique(v, x)),
{
}

impl CBuildPlan {
    /// Each list of the plan holds each item once.
    pub open spec fn wf(&self) -> bool {
        &&& no_duplicates(string_list_view(self.sources@))
        &&& no_duplicates(string_list_view(self.flags@))
        &&& no_duplicates(string_list_view(self.include_dirs@))
        &&& no_duplicates(string_list_view(self.provided_libs@))
    }

    /// A plan with nothing in it.
    pub fn new() -> (p: Self)
        ensures
            p.wf(),
            p.sources@.len() == 0,
            p.flags@.len() == 0,
            p.include_dirs@.len() == 0,
            p.provided_libs@.len() == 0,
    {
        CBuildPlan {
            sources: Vec::new(),
            flags: Vec::new(),
            include_dirs: Vec::new(),
            provided_libs: Vec::new(),
        }
    }

    /// Adds a C source unless it is already planned.
    pub fn add_source(&mut self, path: String)
        requires
            old(self).wf(),
        ensures
            final(self).wf(),
            string_list_view(final(self).sources@) == insert_unique(
                string_list_view(old(self).sources@),
                path@,
            ),
            final(self).flags@ == old(self).flags@,
            final(self).include_dirs@ == old(self).include_dirs@,
            final(self).provided_libs@ == old(self).provided_libs@,
    {
        proof {
            lemma_insert_unique(string_list_view(self.sources@), path@);
        }
        push_unique(&mut self.sources, path);
    }

    /// Adds a compiler flag unless it is already planned.
    pub fn add_flag(&mut self, flag: String)
        requires
            old(self).wf(),
        ensures
            final(self).wf(),
            string_list_view(final(self).flags@) == insert_unique(
                string_list_view(old(self).flags@),
                flag@,
            ),
            final(self).sources@ == old(self).sources@,
            final(self).include_dirs@ == old(self).include_dirs@,
            final(self).provided_libs@ == old(self).provided_libs@,
    {
        proof {
            lemma_insert_unique(string_list_view(self.flags@), flag@);
        }
        push_unique(&mut self.flags, flag);
    }

    /// Adds an include directory unless it is already planned.
    pub fn add_include_dir(&mut self, dir: String)
        requires
            old(self).wf(),
        ensures
            final(self).wf(),
            string_list_view(final(self).include_dirs@) == insert_unique(
                string_list_view(old(self).include_dirs@),
                dir@,
            ),
            final(self).sources@ == old(self).sources@,
            final(self).flags@ == old(self).flags@,
            final(self).provided_libs@ == old(self).provided_libs@,
    {
        proof {
            lemma_insert_unique(string_list_view(self.include_dirs@), dir@);
        }
        push_unique(&mut self.include_dirs, dir);
    }

    /// Records the libraries that a C source with file stem `stem`
    /// provides: the stem itself and, when it ends in digits and something
    /// is left without them, the stem without them (`sqlite3.c` provides
    /// `sqlite3` and `sqlite`).
    pub fn add_provided_libs(&mut self, stem: &str)
        requires
            old(self).wf(),
        ensures
            final(self).wf(),
            string_list_view(final(self).provided_libs@) == {
                let once = insert_unique(string_list_view(old(self).provided_libs@), stem@);
                if trim_trailing_digits(stem@).len() > 0 {
                    insert_unique(once, trim_trailing_digits(stem@))
                } else {
                    once
                }
            },
            final(self).sources@ == old(self).sources@,
            final(self).flags@ == old(self).flags@,
            final(self).include_dirs@ == old(self).include_dirs@,
    {
        proof {
            lemma_insert_unique(string_list_view(self.provided_libs@), stem@);
        }
        push_unique(&mut self.provided_libs, owned(stem));
        let trimmed = trim_digits(stem);
        if chars_of(trimmed.as_str()).len() > 0 {
            proof {
                lemma_insert_unique(string_list_view(self.provided_libs@), trimmed@);
            }
            push_unique(&mut self.provided_libs, trimmed);
        }
    }
}

/// `s` without its trailing ASCII digits.
pub fn trim_digits(s: &str) -> (r: String)
    ensures
        r@ == trim_trailing_digits(s@),
{
    let cs = chars_of(s);
    let mut n = cs.len();
    assert(cs@.take(n as int) =~= cs@);
    while n > 0 && '0' <= cs[n - 1] && cs[n - 1] <= '9'
        invariant
            n <= cs@.len(),
            cs@ == s@,
            trim_trailing_digits(s@) == trim_trailing_digits(cs@.take(n as int)),
        decreases n,
    {
        assert(cs@.take(n as int).drop_last() =~= cs@.take(n - 1 as int));
        n = n - 1;
    }
    let mut out: Vec<char> = Vec::new();
    let mut i: usize = 0;
    while i < n
        invariant
            i <= n <= cs@.len(),
            out@ == cs@.take(i as int),
        decreases n - i,
    {
        out.push(cs[i]);
        i = i + 1;
        assert(out@ =~= cs@.take(i as int));
    }
    string_from_chars(out.as_slice())
}

/// The options of a compilation.
pub struct CliArgs {
    pub input_file: String,
    pub output_file: Option<String>,
    pub output_binary: bool,
    pub arch: Architecture,
    pub os: OperatingSystem,
}

/// What the command line asks for.
pub enum CliRequest {
    /// Show the usage text and stop successfully.
    Help,
    /// Compile with these options.
    Compile(CliArgs),
    /// Stop with an error: the message, if any, and whether to show the
    /// usage text.
    Fail { message: Option<String>, show_usage: bool },
}

/// The options gathered so far.
pub ghost struct OptsV {
    pub input: Option<Seq<char>>,
    pub output: Option<Seq<char>>,
    pub binary: bool,
    pub arch: Architecture,
    pub os: OperatingSystem,
}

/// A request as the specification sees it.
pub ghost enum RequestV {
    Help,
    Compile(Seq<char>, Option<Seq<char>>, bool, Architecture, OperatingSystem),
    Fail(Option<Seq<char>>, bool),
}

/// The view of an optional string.
pub open spec fn opt_view(o: Option<String>) -> Option<Seq<char>> {
    match o {
        Some(s) => Some(s@),
        None => None,
    }
}

impl CliRequest {
    pub open spec fn view(&self) -> RequestV {
        match self {
            CliRequest::Help => RequestV::Help,
            CliRequest::Compile(a) => RequestV::Compile(
                a.input_file@,
                opt_view(a.output_file),
                a.output_binary,
                a.arch,
                a.os,
            ),
            CliRequest::Fail { message, show_usage } => RequestV::Fail(opt_view(*message), *show_usage),
        }
    }
}

/// The architecture named `s` on the command line.
pub open spec fn arch_named(s: Seq<char>) -> Option<Architecture> {
    if s == "x64"@ {
        Some(Architecture::X64)
    } else if s == "x86"@ {
        Some(Architecture::X86)
    } else if s == "arm64"@ {
        Some(Architecture::ARM64)
    } else {
        None
    }
}

/// The operating system named `s` on the command line.
pub open spec fn os_named(s: Seq<char>) -> Option<OperatingSystem> {
    if s == "linux"@ {
        Some(OperatingSystem::Linux)
    } else if s == "windows"@ {
        Some(OperatingSystem::Windows)
    } else if s == "macos"@ {
        Some(OperatingSystem::MacOS)
    } else {
        None
    }
}

/// The request of the arguments from `i` on, with the options `o`
/// gathered before: `-h`/`--help` stops at once; `-o`, `--arch` and `--os`
/// take the next argument (and are ignored last); an argument that does
/// not start with `-` is the input file; anything else is refused.
pub open spec fn cli_scan(args: Seq<Seq<char>>, i: nat, o: OptsV) -> RequestV
    decreases args.len() - i,
{
    if i >= args.len() {
        match o.input {
            Some(f) => RequestV::Compile(f, o.output, o.binary, o.arch, o.os),
            None => RequestV::Fail(Some("Error: No input file specified"@), true),
        }
    } else {
        let a = args[i as int];
        if a == "-h"@ || a == "--help"@ {
            RequestV::Help
        } else if a == "-o"@ {
            if i + 1 < args.len() {
                cli_scan(args, i + 2, OptsV { output: Some(args[i + 1 as int]), ..o })
            } else {
                cli_scan(args, i + 1, o)
            }
        } else if a == "--output-binary"@ {
            cli_scan(args, i + 1, OptsV { binary: true, ..o })
        } else if a == "--arch"@ {
            if i + 1 < args.len() {
                match arch_named(args[i + 1 as int]) {
                    Some(ar) => cli_scan(args, i + 2, OptsV { arch: ar, ..o }),
                    None => RequestV::Fail(
                        Some("Error: Unknown architecture '"@ + args[i + 1 as int] + "'"@),
                        false,
                    ),
                }
            } else {
                cli_scan(args, i + 1, o)
            }
        } else if a == "--os"@ {
            if i + 1 < args.len() {
                match os_named(args[i + 1 as int]) {
                    Some(os) => cli_scan(args, i + 2, OptsV { os, ..o }),
                    None => RequestV::Fail(Some("Error: Unknown OS '"@ + args[i + 1 as int] + "'"@), false),
                }
            } else {
                cli_scan(args, i + 1, o)
            }
        } else if !(a.len() > 0 && a[0] == '-') {
            cli_scan(args, i + 1, OptsV { input: Some(a), ..o })
        } else {
            RequestV::Fail(Some("Error: Unknown option '"@ + a + "'"@), true)
        }
    }
}

/// The request of the command line `args` (the program's name first),
/// compiling for x64 and `default_os` unless told otherwise.
pub open spec fn cli_request(args: Seq<Seq<char>>, default_os: OperatingSystem) -> RequestV {
    if args.len() < 2 {
        RequestV::Fail(None, true)
    } else {
        cli_scan(
            args,
            1,
            OptsV {
                input: None,
                output: None,
                binary: false,
                arch: Architecture::X64,
                os: default_os,
            },
        )
    }
}

/// `prefix`, `arg` and a closing quote.
fn quoted(prefix: &str, arg: &String) -> (r: String)
    ensures
        r@ == prefix@ + arg@ + "'"@,
{
    let mut m: Vec<char> = Vec::new();
    push_str(&mut m, prefix);
    let ac = chars_of(arg.as_str());
    push_chars(&mut m, &ac);
    push_str(&mut m, "'");
    string_from_chars(m.as_slice())
}

/// Whether the characters of `s` are those of `lit`.
fn is_word(s: &String, lit: &str) -> (b: bool)
    ensures
        b == (s@ == lit@),
{
    chars_eq_str(&chars_of(s.as_str()), lit)
}

/// The architecture named `s`.
fn arch_named_exec(s: &String) -> (r: Option<Architecture>)
    ensures
        r == arch_named(s@),
{
    if is_word(s, "x64") {
        Some(Architecture::X64)
    } else if is_word(s, "x86") {
        Some(Architecture::X86)
    } else if is_word(s, "arm64") {
        Some(Architecture::ARM64)
    } else {
        None
    }
}

/// The operating system named `s`.
fn os_named_exec(s: &String) -> (r: Option<OperatingSystem>)
    ensures
        r == os_named(s@),
{
    if is_word(s, "linux") {
        Some(OperatingSystem::Linux)
    } else if is_word(s, "windows") {
        Some(OperatingSystem::Windows)
    } else if is_word(s, "macos") {
        Some(OperatingSystem::MacOS)
    } else {
        None
    }
}

/// Reads the command line `args` (the program's name first); compiles
/// for x64 and `default_os` unless told otherwise.
pub fn parse_cli(args: &Vec<String>, default_os: OperatingSystem) -> (r: CliRequest)
    ensures
        r@ == cli_request(string_list_view(args@), default_os),
{
    let ghost v = string_list_view(args@);
    if args.len() < 2 {
        return CliRequest::Fail { message: None, show_usage: true };
    }
    let mut input: Option<String> = None;
    let mut output: Option<String> = None;
    let mut binary = false;
    let mut arch = Architecture::X64;
    let mut os = default_os;
    let mut i: usize = 1;
    while i < args.len()
        invariant
            1 <= i <= args@.len(),
            v == string_list_view(args@),
            cli_request(v, default_os) == cli_scan(
                v,
                i as nat,
                OptsV { input: opt_view(input), output: opt_view(output), binary, arch, os },
            ),
        decreases args@.len() - i,
    {
        let a = &args[i];
        if is_word(a, "-h") || is_word(a, "--help") {
            return CliRequest::Help;
        } else if is_word(a, "-o") {
            if i + 1 < args.len() {
                output = Some(copy_string(&args[i + 1]));
                i = i + 1;
            }
        } else if is_word(a, "--output-binary") {
            binary = true;
        } else if is_word(a, "--arch") {
            if i + 1 < args.len() {
                match arch_named_exec(&args[i + 1]) {
                    Some(ar) => {
                        arch = ar;
                    },
                    None => {
                        return CliRequest::Fail {
                            message: Some(quoted("Error: Unknown architecture '", &args[i + 1])),
                            show_usage: false,
                        };
                    },
                }
                i = i + 1;
            }
        } else if is_word(a, "--os") {
            if i + 1 < args.len() {
                match os_named_exec(&args[i + 1]) {
                    Some(o) => {
                        os = o;
                    },
                    None => {
                        return CliRequest::Fail {
                            message: Some(quoted("Error: Unknown OS '", &args[i + 1])),
                            show_usage: false,
                        };
                    },
                }
                i = i + 1;
            }
        } else {
            let ac = chars_of(a.as_str());
            if !(ac.len() > 0 && ac[0] == '-') {
                input = Some(copy_string(a));
            } else {
                return CliRequest::Fail {
                    message: Some(quoted("Error: Unknown option '", a)),
                    show_usage: true,
                };
            }
        }
        i = i + 1;
    }
    match input {
        Some(f) => CliRequest::Compile(
            CliArgs { input_file: f, output_file: output, output_binary: binary, arch, os },
        ),
        None => CliRequest::Fail {
            message: Some(owned("Error: No input file specified")),
            show_usage: true,
        },
    }
}

} // verus!
