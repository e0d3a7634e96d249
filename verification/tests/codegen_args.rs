//! The options of the code generator, read from arguments.

use rustc_codegen_spirv::codegen_args::{
    help_flag_comes_from_env, spirt_passes, split_whitespace, CodegenArgs, ModuleOutputType,
    Parsed, ParseFail, RawArgs, SpirvMetadata,
};
use rustc_codegen_spirv::diag::Level;
use rustc_codegen_spirv::opts::{codegen_options, flag, multi, opt};

fn args(list: &[&str]) -> Vec<String> {
    list.iter().map(|s| s.to_string()).collect()
}

fn parsed(list: &[&str]) -> CodegenArgs {
    match CodegenArgs::parse(&args(list), None) {
        Ok(Parsed::Args(a)) => a,
        other => panic!("{:?}", other),
    }
}

#[test]
fn no_arguments_give_the_defaults() {
    let a = parsed(&[]);
    assert!(!a.disassemble && !a.disassemble_globals);
    assert_eq!(a.disassemble_fn, None);
    assert_eq!(a.spirv_metadata, SpirvMetadata::NoMetadata);
    assert_eq!(a.spirv_metadata, SpirvMetadata::default());
    assert!(a.run_spirv_val && a.run_spirv_opt);
    assert_eq!(a.relax_block_layout, None);
    assert!(a.linker_opts.dce && a.linker_opts.compact_ids && a.linker_opts.structurize);
    assert!(a.linker_opts.early_report_zombies && a.linker_opts.infer_storage_classes);
    assert!(!a.linker_opts.keep_link_exports);
    assert_eq!(a.linker_opts.module_output_type, ModuleOutputType::Single);
    assert_eq!(a.linker_opts.module_output_type, ModuleOutputType::default());
    assert_eq!(a.linker_opts.spirt_passes, Vec::<String>::new());
    assert_eq!(a.dump_dirs(), Vec::<String>::new());
}

#[test]
fn flags_and_values_are_read() {
    let a = parsed(&[
        "--disassemble",
        "--disassemble-fn=main",
        "--disassemble-entry",
        "frag",
        "--disassemble-globals",
        "--spirv-metadata=name-variables",
        "--module-output=multiple",
        "--no-spirv-val",
        "--no-spirv-opt",
        "--relax-struct-store",
        "--relax-logical-pointer",
        "--relax-block-layout",
        "--uniform-buffer-standard-layout",
        "--scalar-block-layout",
        "--skip-block-layout",
        "--preserve-bindings",
        "--no-dce",
        "--no-compact-ids",
        "--no-early-report-zombies",
        "--no-infer-storage-classes",
        "--no-structurize",
        "--spirt-passes=fuse_selects,reduce",
        "--spirt-passes",
        "qptr",
        "--abort-strategy=unreachable",
        "--dump-mir=/tmp/mir",
        "--dump-module-on-panic=/tmp/panic.spv",
        "--dump-pre-link=/tmp/pre",
        "--dump-post-link=/tmp/post",
        "--dump-post-merge=/tmp/merge",
        "--dump-spirt-passes=/tmp/spirt",
        "--spirt-keep-debug-sources-in-dumps",
        "--specializer-dump-instances=/tmp/inst",
    ]);
    assert!(a.disassemble && a.disassemble_globals);
    assert_eq!(a.disassemble_fn.as_deref(), Some("main"));
    assert_eq!(a.disassemble_entry.as_deref(), Some("frag"));
    assert_eq!(a.spirv_metadata, SpirvMetadata::NameVariables);
    assert_eq!(a.linker_opts.spirv_metadata, SpirvMetadata::NameVariables);
    assert_eq!(a.linker_opts.module_output_type, ModuleOutputType::Multiple);
    assert!(!a.run_spirv_val && !a.run_spirv_opt);
    assert!(a.relax_struct_store && a.relax_logical_pointer && a.preserve_bindings);
    assert_eq!(a.relax_block_layout, Some(true));
    assert!(a.uniform_buffer_standard_layout && a.scalar_block_layout && a.skip_block_layout);
    let l = &a.linker_opts;
    assert!(!l.dce && !l.compact_ids && !l.early_report_zombies);
    assert!(!l.infer_storage_classes && !l.structurize);
    assert_eq!(l.spirt_passes, vec!["fuse_selects", "reduce", "qptr"]);
    assert_eq!(l.abort_strategy.as_deref(), Some("unreachable"));
    assert!(l.spirt_keep_debug_sources_in_dumps);
    assert!(!l.spirt_strip_custom_debuginfo_from_dumps);
    assert_eq!(l.specializer_dump_instances.as_deref(), Some("/tmp/inst"));
    assert_eq!(a.dump_module_on_panic.as_deref(), Some("/tmp/panic.spv"));
    assert_eq!(a.dump_dirs(), vec!["/tmp/merge", "/tmp/spirt", "/tmp/mir", "/tmp/pre", "/tmp/post"]);
}

#[test]
fn the_metadata_level_is_none_name_variables_or_full() {
    assert_eq!(parsed(&["--spirv-metadata=full"]).spirv_metadata, SpirvMetadata::Full);
    let none = parsed(&["--spirv-metadata=none"]);
    assert_eq!(none.spirv_metadata, SpirvMetadata::NoMetadata);
    assert_eq!(none.linker_opts.spirv_metadata, SpirvMetadata::NoMetadata);
    let named = parsed(&["--spirv-metadata=name-variables"]);
    assert_eq!(named.spirv_metadata, SpirvMetadata::NameVariables);
    assert_eq!(named.linker_opts.spirv_metadata, SpirvMetadata::NameVariables);
    assert_eq!(
        CodegenArgs::parse(&args(&["--spirv-metadata=None"]), None),
        Err(ParseFail::UnrecognizedOption("None".to_string()))
    );
    assert_eq!(
        CodegenArgs::parse(&args(&["--spirv-metadata=x", "--module-output=y"]), None),
        Err(ParseFail::UnrecognizedOption("x".to_string()))
    );
}

#[test]
fn the_output_type_is_single_or_multiple() {
    assert_eq!(ModuleOutputType::from_str("single"), Ok(ModuleOutputType::Single));
    assert_eq!(ModuleOutputType::from_str("multiple"), Ok(ModuleOutputType::Multiple));
    assert_eq!(
        ModuleOutputType::from_str("Single"),
        Err(ParseFail::UnrecognizedOption("Single".to_string()))
    );
    assert_eq!(
        CodegenArgs::parse(&args(&["--module-output=both"]), None),
        Err(ParseFail::UnrecognizedOption("both".to_string()))
    );
}

#[test]
fn arguments_that_cannot_be_read_fail() {
    assert_eq!(
        CodegenArgs::parse(&args(&["--no-such-flag"]), None),
        Err(ParseFail::UnrecognizedOption("no-such-flag".to_string()))
    );
    assert_eq!(
        CodegenArgs::parse(&args(&["--disassemble-fn"]), None),
        Err(ParseFail::ArgumentMissing("disassemble-fn".to_string()))
    );
    assert_eq!(
        CodegenArgs::parse(&args(&["--disassemble=x"]), None),
        Err(ParseFail::UnexpectedArgument("disassemble".to_string()))
    );
    assert_eq!(
        CodegenArgs::parse(&args(&["--abort-strategy=a", "--abort-strategy=b"]), None),
        Err(ParseFail::OptionDuplicated("abort-strategy".to_string()))
    );
    let d = CodegenArgs::from_session(&args(&["--bogus"]), None).unwrap_err();
    assert_eq!(d.level, Level::Fatal);
    assert_eq!(d.message, "Unable to parse llvm-args: Unrecognized option: 'bogus'");
    let d = CodegenArgs::from_session(&args(&["--spirv-metadata=most"]), None).unwrap_err();
    assert_eq!(d.message, "Unable to parse llvm-args: Unrecognized option: 'most'");
    assert!(matches!(CodegenArgs::from_session(&args(&["--no-dce"]), None), Ok(Parsed::Args(_))));
}

#[test]
fn failures_are_worded_as_the_argument_reader_words_them() {
    let name = || "x".to_string();
    assert_eq!(ParseFail::ArgumentMissing(name()).message(), "Argument to option 'x' missing");
    assert_eq!(ParseFail::UnrecognizedOption(name()).message(), "Unrecognized option: 'x'");
    assert_eq!(ParseFail::OptionMissing(name()).message(), "Required option 'x' missing");
    assert_eq!(ParseFail::OptionDuplicated(name()).message(), "Option 'x' given more than once");
    assert_eq!(
        ParseFail::UnexpectedArgument(name()).message(),
        "Option 'x' does not take an argument"
    );
}

#[test]
fn help_names_where_the_arguments_came_from() {
    let from_rustc = "Usage: rustc -Cllvm-args=\"...\" with `...` from:";
    let from_env = "Usage: RUSTGPU_CODEGEN_ARGS=\"...\" with `...` from:";
    let help = |list: &[&str], env: Option<&str>| match CodegenArgs::parse(&args(list), env) {
        Ok(Parsed::Help { brief }) => brief,
        other => panic!("{:?}", other),
    };
    assert_eq!(help(&["-h"], None), from_rustc);
    assert_eq!(help(&["--no-dce", "--help"], None), from_rustc);
    assert_eq!(help(&["--no-dce", "--help"], Some("--no-dce --help")), from_env);
    assert_eq!(help(&["--no-dce", "--help"], Some("  --help ")), from_env);
    assert_eq!(help(&["--help", "--no-dce"], Some("--no-dce")), from_rustc);
    assert_eq!(help(&["--no-dce", "--help"], Some("--help --no-dce")), from_rustc);
    assert_eq!(help(&["--help"], Some("   ")), from_rustc);
    assert_eq!(help(&["--help", "--spirv-metadata=bad"], None), from_rustc);
}

#[test]
fn help_is_looked_for_in_the_window_of_the_environment() {
    let a = args(&["a", "b", "c", "b", "c"]);
    assert!(help_flag_comes_from_env(&a, Some("b c"), &vec![4]));
    assert!(help_flag_comes_from_env(&a, Some("b c"), &vec![0, 1]));
    assert!(!help_flag_comes_from_env(&a, Some("b c"), &vec![0]));
    assert!(help_flag_comes_from_env(&a, Some("c b"), &vec![2]));
    assert!(!help_flag_comes_from_env(&a, Some("c a"), &vec![2]));
    assert!(!help_flag_comes_from_env(&a, Some(""), &vec![0]));
    assert!(!help_flag_comes_from_env(&a, None, &vec![0]));
    assert!(!help_flag_comes_from_env(&a, Some("a b c b c d"), &vec![0]));
    assert_eq!(split_whitespace(" a\tbc \n d "), vec!["a", "bc", "d"]);
    assert_eq!(split_whitespace(""), Vec::<String>::new());
}

#[test]
fn passes_are_listed_with_commas() {
    let v = |list: &[&str]| args(list);
    assert_eq!(spirt_passes(&v(&["a,b", "c"])), v(&["a", "b", "c"]));
    assert_eq!(spirt_passes(&v(&["a,,b"])), v(&["a", "", "b"]));
    assert_eq!(spirt_passes(&v(&[""])), v(&[""]));
    assert_eq!(spirt_passes(&v(&[])), v(&[]));
}

#[test]
fn raw_arguments_are_checked_in_order() {
    let raw = |metadata: Option<&str>, output: Option<&str>| RawArgs {
        help_positions: Vec::new(),
        spirt_passes: vec!["x,y".to_string()],
        disassemble: true,
        disassemble_globals: false,
        no_spirv_val: true,
        relax_struct_store: false,
        relax_logical_pointer: false,
        relax_block_layout: false,
        uniform_buffer_standard_layout: false,
        scalar_block_layout: false,
        skip_block_layout: false,
        no_spirv_opt: false,
        preserve_bindings: false,
        no_dce: false,
        no_compact_ids: true,
        no_early_report_zombies: false,
        no_infer_storage_classes: false,
        no_structurize: false,
        spirt_strip_custom_debuginfo_from_dumps: false,
        spirt_keep_debug_sources_in_dumps: false,
        spirt_keep_unstructured_cfg_in_dumps: true,
        module_output: output.map(|s| s.to_string()),
        disassemble_fn: None,
        disassemble_entry: None,
        spirv_metadata: metadata.map(|s| s.to_string()),
        abort_strategy: None,
        dump_post_merge: None,
        dump_pre_inline: Some("d".to_string()),
        dump_post_inline: None,
        dump_post_split: None,
        dump_spirt_passes: None,
        specializer_dump_instances: None,
        dump_mir: None,
        dump_module_on_panic: None,
        dump_pre_link: None,
        dump_post_link: None,
    };
    let a = CodegenArgs::from_raw(raw(Some("full"), Some("multiple"))).unwrap();
    assert!(a.disassemble && !a.run_spirv_val && a.run_spirv_opt);
    assert!(a.linker_opts.dce && !a.linker_opts.compact_ids);
    assert!(a.linker_opts.spirt_keep_unstructured_cfg_in_dumps);
    assert_eq!(a.linker_opts.spirt_passes, vec!["x", "y"]);
    assert_eq!(a.linker_opts.dump_pre_inline.as_deref(), Some("d"));
    assert_eq!(a.spirv_metadata, SpirvMetadata::Full);
    assert_eq!(a.linker_opts.module_output_type, ModuleOutputType::Multiple);
    assert_eq!(
        CodegenArgs::from_raw(raw(Some("Full"), Some("triple"))),
        Err(ParseFail::UnrecognizedOption("Full".to_string()))
    );
    assert_eq!(
        CodegenArgs::from_raw(raw(None, Some("triple"))),
        Err(ParseFail::UnrecognizedOption("triple".to_string()))
    );
}

#[test]
fn an_option_without_any_name_is_not_declared() {
    let mut options = codegen_options();
    flag(&mut options, "", "", "nothing");
    opt(&mut options, "", "", "nothing", "X");
    multi(&mut options, "", "", "nothing", "X");
    flag(&mut options, "xy", "long", "two bytes are no short name");
    flag(&mut options, "", "l", "one byte is no long name");
    let found = options.parse(["--disassemble", "--spirv-metadata=none"]).unwrap();
    assert!(found.opt_present("disassemble"));
    assert_eq!(found.opt_str("spirv-metadata").as_deref(), Some("none"));
    assert!(!found.opt_defined("long"));
    assert!(!found.opt_defined("l"));
    flag(&mut options, "q", "", "a short name alone will do");
    let found = options.parse(["-q"]).unwrap();
    assert!(found.opt_present("q"));
}
