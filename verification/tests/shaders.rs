use grass_rendering::shaders::{compile_shaders, compile_slang};

#[test]
fn compile_shaders_command_line() {
    let c = compile_shaders();
    assert_eq!(c.program, "slangc");
    assert_eq!(
        c.args,
        vec![
            "shaders/triangle.slang",
            "-target",
            "spirv",
            "-profile",
            "spirv_1_4",
            "-emit-spirv-directly",
            "-fvk-use-entrypoint-name",
            "-entry",
            "vertMain",
            "-entry",
            "fragMain",
            "-o",
            "shaders/triangle.spv",
        ]
    );
}

#[test]
fn compile_slang_without_entries() {
    let c = compile_slang("a.slang", &vec![]);
    assert_eq!(c.args.last().map(|s| s.as_str()), Some("a.spv"));
    assert_eq!(c.args.len(), 9);
    assert!(!c.args.iter().any(|a| a == "-entry"));
}

#[test]
fn compile_slang_only_strips_the_last_ending() {
    let c = compile_slang("x.slang.slang", &vec!["main"]);
    assert_eq!(c.args[7], "-entry");
    assert_eq!(c.args[8], "main");
    assert_eq!(c.args[10], "x.slang.spv");
}

#[test]
fn compile_slang_keeps_non_ascii_stem() {
    let c = compile_slang("schatten/grün.slang", &vec!["main"]);
    assert_eq!(c.args.last().map(|s| s.as_str()), Some("schatten/grün.spv"));
    assert_eq!(c.args[0], "schatten/grün.slang");
}
