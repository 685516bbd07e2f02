use alya::codegen::runtime::data::emit_data_sections;
use alya::codegen::runtime::emit_runtime;
use alya::codegen::target::{Architecture, OperatingSystem};

#[test]
fn runtime_text_does_not_depend_on_what_precedes_it() {
    for arch in [Architecture::X64, Architecture::X86, Architecture::ARM64] {
        for os in [OperatingSystem::Linux, OperatingSystem::Windows, OperatingSystem::MacOS] {
            let mut data = String::new();
            emit_data_sections(&mut data, arch, os);
            assert!(data.ends_with(".text\n"));
            assert_eq!(data.contains(".asciz"), os == OperatingSystem::MacOS);
            let mut alone = String::new();
            emit_runtime(&mut alone, arch, os);
            assert!(alone.starts_with(&data));
            let mut after = String::from("main:\n    ret\n");
            emit_runtime(&mut after, arch, os);
            assert_eq!(after, format!("main:\n    ret\n{}", alone));
        }
    }
}

#[test]
fn data_sections_define_each_label_once() {
    let labels = [
        "alya_str_buf", "alya_str_idx", "alya_catch_idx", "alya_catch_stack_handler",
        "alya_catch_stack_sp", "alya_catch_stack_bp", "alya_err_msg", "alya_fmt_prompt",
        "alya_fmt_div_zero", "alya_str_div_zero", "alya_fmt_bounds", "alya_str_bounds",
        "alya_fmt_arr_empty", "alya_fmt_arr_open", "alya_fmt_arr_close", "alya_fmt_arr_elem",
        "alya_fmt_arr_comma",
    ];
    for arch in [Architecture::X64, Architecture::X86, Architecture::ARM64] {
        for os in [OperatingSystem::Linux, OperatingSystem::Windows, OperatingSystem::MacOS] {
            let mut data = String::new();
            emit_data_sections(&mut data, arch, os);
            for label in labels {
                let line = format!("{}:\n", label);
                assert_eq!(data.matches(line.as_str()).count(), 1, "{}", label);
            }
            assert_eq!(data.contains(".asciz"), os == OperatingSystem::MacOS);
            let directive = if os == OperatingSystem::MacOS { ".asciz" } else { ".string" };
            let width = if arch == Architecture::X86 { "%d" } else { "%ld" };
            let elem = format!("alya_fmt_arr_elem:\n    {} \"{}\"\n", directive, width);
            assert!(data.contains(elem.as_str()));
        }
    }
}
