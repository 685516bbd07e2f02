use vstd::prelude::*;

verus! {

/// The instruction set that assembly is emitted for.
#[derive(Debug, Clone, Copy, PartialEq, Eq, Structural)]
pub enum Architecture {
    X64,
    X86,
    ARM64,
}

/// The operating system whose assembler and C runtime the output targets.
#[derive(Debug, Clone, Copy, PartialEq, Eq, Structural)]
pub enum OperatingSystem {
    Linux,
    Windows,
    MacOS,
}

/// The prefix that C symbols carry on `os`: Mach-O prepends an underscore.
pub open spec fn symbol_prefix(os: OperatingSystem) -> Seq<char> {
    if os == OperatingSystem::MacOS {
        "_"@
    } else {
        ""@
    }
}

/// The prefix that C symbols carry on `os`.
pub fn symbol_prefix_str(os: OperatingSystem) -> (p: &'static str)
    ensures
        p@ == symbol_prefix(os),
{
    if os == OperatingSystem::MacOS {
        "_"
    } else {
        ""
    }
}

/// The C function that closes a socket on `os`.
pub open spec fn socket_close_name(os: OperatingSystem) -> Seq<char> {
    if os == OperatingSystem::Windows {
        "closesocket"@
    } else {
        "close"@
    }
}

/// The C function that closes a socket on `os`.
pub fn socket_close_name_str(os: OperatingSystem) -> (name: &'static str)
    ensures
        name@ == socket_close_name(os),
{
    if os == OperatingSystem::Windows {
        "closesocket"
    } else {
        "close"
    }
}

} // verus!
