//! The command line that compiles the renderer's Slang shaders to SPIR-V.
use vstd::prelude::*;

verus! {

/// `s` without the trailing `suffix`, when `s` ends with it: the characters of `suffix` are
/// compared with the last characters of `s`, one by one.
fn strip_suffix<'a>(s: &'a str, suffix: &str) -> (r: Option<&'a str>)
    ensures
        r is Some <==> suffix@.is_suffix_of(s@),
        r matches Some(p) ==> p@ == s@.subrange(0, s@.len() - suffix@.len()),
{
    let n = s.unicode_len();
    let m = suffix.unicode_len();
    if m > n {
        return None;
    }
    let start = n - m;
    let mut i: usize = 0;
    while i < m
        invariant
            n == s@.len(),
            m == suffix@.len(),
            m <= n,
            start == n - m,
            i <= m,
            forall|k: int| 0 <= k < i ==> s@[start + k] == suffix@[k],
        decreases m - i,
    {
        if s.get_char(start + i) != suffix.get_char(i) {
            assert(s@.subrange(start as int, n as int)[i as int] != suffix@[i as int]);
            return None;
        }
        i = i + 1;
    }
    assert(suffix@ =~= s@.subrange(start as int, n as int));
    Some(s.substring_char(0, start))
}

/// A program and its arguments, for the caller to run.
pub struct ShaderCompileCommand {
    pub program: String,
    pub args: Vec<String>,
}

/// The SPIR-V file that `input` (a `.slang` file) compiles to: the same path with `.spv` in
/// place of `.slang`.
pub open spec fn spirv_output(input: Seq<char>) -> Seq<char> {
    input.subrange(0, input.len() - ".slang"@.len()) + ".spv"@
}

/// The arguments that select the entry points: `-entry` before each name, in order.
pub open spec fn entry_args(entries: Seq<Seq<char>>) -> Seq<Seq<char>>
    decreases entries.len(),
{
    if entries.len() == 0 {
        seq![]
    } else {
        entry_args(entries.drop_last()) + seq!["-entry"@, entries.last()]
    }
}

/// The arguments of `slangc`: the input, SPIR-V 1.4 emitted directly with the entry points'
/// own names, the entry points, and the output file.
pub open spec fn slang_args(input: Seq<char>, entries: Seq<Seq<char>>) -> Seq<Seq<char>> {
    seq![
        input,
        "-target"@,
        "spirv"@,
        "-profile"@,
        "spirv_1_4"@,
        "-emit-spirv-directly"@,
        "-fvk-use-entrypoint-name"@,
    ] + entry_args(entries) + seq!["-o"@, spirv_output(input)]
}

/// The command that compiles the Slang file `input` (whose name ends in `.slang`) with the
/// given entry points.
pub fn compile_slang(input: &str, entries: &Vec<&str>) -> (command: ShaderCompileCommand)
    requires
        ".slang"@.is_suffix_of(input@),
    ensures
        command.program@ == "slangc"@,
        command.args@.map_values(|a: String| a@) == slang_args(input@, entries@.map_values(|e: &str| e@)),
{
    let stem = match strip_suffix(input, ".slang") {
        Some(stem) => stem,
        None => input,
    };
    let mut output = String::from_str(stem);
    output.append(".spv");

    let mut args: Vec<String> = Vec::new();
    args.push(String::from_str(input));
    args.push(String::from_str("-target"));
    args.push(String::from_str("spirv"));
    args.push(String::from_str("-profile"));
    args.push(String::from_str("spirv_1_4"));
    args.push(String::from_str("-emit-spirv-directly"));
    args.push(String::from_str("-fvk-use-entrypoint-name"));
    let ghost head = args@.map_values(|a: String| a@);
    let ghost es = entries@.map_values(|e: &str| e@);

    let mut i: usize = 0;
    while i < entries.len()
        invariant
            i <= entries@.len(),
            es == entries@.map_values(|e: &str| e@),
            args@.map_values(|a: String| a@) == head + entry_args(es.take(i as int)),
        decreases entries@.len() - i,
    {
        let ghost prev = args@.map_values(|a: String| a@);
        args.push(String::from_str("-entry"));
        args.push(String::from_str(entries[i]));
        assert(args@.map_values(|a: String| a@) =~= prev + seq!["-entry"@, entries@[i as int]@]);
        assert(es.take(i + 1).drop_last() =~= es.take(i as int));
        assert(es.take(i + 1).last() == es[i as int]);
        assert(args@.map_values(|a: String| a@) =~= head + entry_args(es.take(i + 1)));
        i = i + 1;
    }
    assert(es.take(entries@.len() as int) =~= es);
    let ghost before = args@.map_values(|a: String| a@);
    args.push(String::from_str("-o"));
    args.push(output);
    assert(args@.map_values(|a: String| a@) =~= before + seq!["-o"@, spirv_output(input@)]);
    assert(args@.map_values(|a: String| a@) =~= slang_args(input@, es));
    ShaderCompileCommand { program: String::from_str("slangc"), args }
}

/// The command that compiles the renderer's shader, `shaders/triangle.slang`, with its vertex
/// and fragment entry points `vertMain` and `fragMain`.
pub fn compile_shaders() -> (command: ShaderCompileCommand)
    ensures
        command.program@ == "slangc"@,
        command.args@.map_values(|a: String| a@) == slang_args(
            "shaders/triangle.slang"@,
            seq!["vertMain"@, "fragMain"@],
        ),
{
    let input = "shaders/triangle.slang";
    let mut entries: Vec<&str> = Vec::new();
    entries.push("vertMain");
    entries.push("fragMain");
    proof {
        reveal_strlit("shaders/triangle.slang");
        reveal_strlit(".slang");
        assert(entries@.map_values(|e: &str| e@) =~= seq!["vertMain"@, "fragMain"@]);
    }
    compile_slang(input, &entries)
}

/// The output file of a shader is its source path with the `.slang` ending replaced by `.spv`;
/// for the renderer's shader that is `shaders/triangle.spv`.
pub proof fn lemma_triangle_output()
    ensures
        spirv_output("shaders/triangle.slang"@) == "shaders/triangle.spv"@,
{
    reveal_strlit("shaders/triangle.slang");
    reveal_strlit(".slang");
    reveal_strlit(".spv");
    reveal_strlit("shaders/triangle.spv");
    assert(spirv_output("shaders/triangle.slang"@) =~= "shaders/triangle.spv"@);
}

} // verus!
