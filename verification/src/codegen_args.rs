//! The options of the code generator, as read from its flat argument list.

use vstd::prelude::*;
use crate::opts::{
    all_positions, all_values, codegen_option_specs, codegen_options, fail_from, first_value,
    match_values, matches_defined, matches_positions, matches_present, matches_str, matches_strs,
    options_parse, parse_named, Occurrence,
};
use crate::diag::{fatal_at, Diagnostic, DiagnosticView, Level};
use crate::spirv_asm::{skip_whitespace, word_end};
use crate::text::{char_is_whitespace, concat2, split, split_on, str_eq};

verus! {

/// How much metadata the output module keeps.
#[derive(Debug, PartialEq, Eq, Clone, Copy, Structural)]
pub enum SpirvMetadata {
    /// No metadata is kept.
    NoMetadata,
    NameVariables,
    Full,
}

impl Default for SpirvMetadata {
    fn default() -> (r: SpirvMetadata)
        ensures
            r == SpirvMetadata::NoMetadata,
    {
        SpirvMetadata::NoMetadata
    }
}

/// Whether the linker writes one module or one per entry point.
#[derive(Debug, PartialEq, Eq, PartialOrd, Ord, Hash, Clone, Copy, Structural)]
pub enum ModuleOutputType {
    Single,
    Multiple,
}

impl Default for ModuleOutputType {
    fn default() -> (r: ModuleOutputType)
        ensures
            r == ModuleOutputType::Single,
    {
        ModuleOutputType::Single
    }
}

/// Why a list of arguments could not be read.
#[derive(Clone, Debug, PartialEq, Eq)]
pub enum ParseFail {
    /// The option takes an argument and got none.
    ArgumentMissing(String),
    /// The option, or the value given to it, is not known.
    UnrecognizedOption(String),
    /// A required option is absent.
    OptionMissing(String),
    /// An option that may be given once was given again.
    OptionDuplicated(String),
    /// The option takes no argument and got one.
    UnexpectedArgument(String),
}

/// The mathematical content of a [`ParseFail`].
pub enum ParseFailView {
    ArgumentMissing(Seq<char>),
    UnrecognizedOption(Seq<char>),
    OptionMissing(Seq<char>),
    OptionDuplicated(Seq<char>),
    UnexpectedArgument(Seq<char>),
}

impl View for ParseFail {
    type V = ParseFailView;

    open spec fn view(&self) -> ParseFailView {
        match self {
            ParseFail::ArgumentMissing(s) => ParseFailView::ArgumentMissing(s@),
            ParseFail::UnrecognizedOption(s) => ParseFailView::UnrecognizedOption(s@),
            ParseFail::OptionMissing(s) => ParseFailView::OptionMissing(s@),
            ParseFail::OptionDuplicated(s) => ParseFailView::OptionDuplicated(s@),
            ParseFail::UnexpectedArgument(s) => ParseFailView::UnexpectedArgument(s@),
        }
    }
}

impl ModuleOutputType {
    /// The output type that `s` names: `single` or `multiple`.
    pub open spec fn from_str_spec(s: Seq<char>) -> Result<ModuleOutputType, ParseFailView> {
        if s == "single"@ {
            Ok(ModuleOutputType::Single)
        } else if s == "multiple"@ {
            Ok(ModuleOutputType::Multiple)
        } else {
            Err(ParseFailView::UnrecognizedOption(s))
        }
    }

    /// Reads an output type from its name. Any other text is an
    /// unrecognized option.
    pub fn from_str(s: &str) -> (r: Result<ModuleOutputType, ParseFail>)
        ensures
            match r {
                Ok(v) => ModuleOutputType::from_str_spec(s@) == Ok::<_, ParseFailView>(v),
                Err(e) => ModuleOutputType::from_str_spec(s@) == Err::<ModuleOutputType, _>(e@),
            },
    {
        if str_eq(s, "single") {
            Ok(ModuleOutputType::Single)
        } else if str_eq(s, "multiple") {
            Ok(ModuleOutputType::Multiple)
        } else {
            Err(ParseFail::UnrecognizedOption(String::from_str(s)))
        }
    }
}

/// The options that concern the linker.
#[derive(Clone, Debug, PartialEq, Eq)]
pub struct LinkerOptions {
    pub dce: bool,
    pub compact_ids: bool,
    pub early_report_zombies: bool,
    pub infer_storage_classes: bool,
    pub structurize: bool,
    pub spirt_passes: Vec<String>,
    pub abort_strategy: Option<String>,
    pub module_output_type: ModuleOutputType,
    pub spirv_metadata: SpirvMetadata,
    pub keep_link_exports: bool,
    pub dump_post_merge: Option<String>,
    pub dump_pre_inline: Option<String>,
    pub dump_post_inline: Option<String>,
    pub dump_post_split: Option<String>,
    pub dump_spirt_passes: Option<String>,
    pub spirt_strip_custom_debuginfo_from_dumps: bool,
    pub spirt_keep_debug_sources_in_dumps: bool,
    pub spirt_keep_unstructured_cfg_in_dumps: bool,
    pub specializer_dump_instances: Option<String>,
}

/// The options of the code generator.
#[derive(Clone, Debug, PartialEq, Eq)]
pub struct CodegenArgs {
    pub disassemble: bool,
    pub disassemble_fn: Option<String>,
    pub disassemble_entry: Option<String>,
    pub disassemble_globals: bool,
    pub spirv_metadata: SpirvMetadata,
    pub run_spirv_val: bool,
    pub relax_struct_store: bool,
    pub relax_logical_pointer: bool,
    pub relax_block_layout: Option<bool>,
    pub uniform_buffer_standard_layout: bool,
    pub scalar_block_layout: bool,
    pub skip_block_layout: bool,
    pub run_spirv_opt: bool,
    pub preserve_bindings: bool,
    pub linker_opts: LinkerOptions,
    pub dump_mir: Option<String>,
    pub dump_module_on_panic: Option<String>,
    pub dump_pre_link: Option<String>,
    pub dump_post_link: Option<String>,
}

/// What was found of each option in a list of arguments, before any of it
/// is checked.
#[derive(Clone, Debug, PartialEq, Eq)]
pub struct RawArgs {
    /// The positions at which help was asked for.
    pub help_positions: Vec<usize>,
    /// The values given to `--spirt-passes`, one for each time it was
    /// given.
    pub spirt_passes: Vec<String>,
    pub disassemble: bool,
    pub disassemble_globals: bool,
    pub no_spirv_val: bool,
    pub relax_struct_store: bool,
    pub relax_logical_pointer: bool,
    pub relax_block_layout: bool,
    pub uniform_buffer_standard_layout: bool,
    pub scalar_block_layout: bool,
    pub skip_block_layout: bool,
    pub no_spirv_opt: bool,
    pub preserve_bindings: bool,
    pub no_dce: bool,
    pub no_compact_ids: bool,
    pub no_early_report_zombies: bool,
    pub no_infer_storage_classes: bool,
    pub no_structurize: bool,
    pub spirt_strip_custom_debuginfo_from_dumps: bool,
    pub spirt_keep_debug_sources_in_dumps: bool,
    pub spirt_keep_unstructured_cfg_in_dumps: bool,
    pub module_output: Option<String>,
    pub disassemble_fn: Option<String>,
    pub disassemble_entry: Option<String>,
    pub spirv_metadata: Option<String>,
    pub abort_strategy: Option<String>,
    pub dump_post_merge: Option<String>,
    pub dump_pre_inline: Option<String>,
    pub dump_post_inline: Option<String>,
    pub dump_post_split: Option<String>,
    pub dump_spirt_passes: Option<String>,
    pub specializer_dump_instances: Option<String>,
    pub dump_mir: Option<String>,
    pub dump_module_on_panic: Option<String>,
    pub dump_pre_link: Option<String>,
    pub dump_post_link: Option<String>,
}

/// Whether the option `name` occurs in what was found.
pub open spec fn found_present(found: Map<Seq<char>, Seq<Occurrence>>, name: Seq<char>) -> bool {
    found.dom().contains(name) && found[name].len() > 0
}

/// The value of the first occurrence of the option `name`.
pub open spec fn found_value(found: Map<Seq<char>, Seq<Occurrence>>, name: Seq<char>) -> Option<
    Seq<char>,
> {
    if found.dom().contains(name) {
        first_value(found[name])
    } else {
        None
    }
}

/// The values of all occurrences of the option `name`.
pub open spec fn found_values(found: Map<Seq<char>, Seq<Occurrence>>, name: Seq<char>) -> Seq<
    Seq<char>,
> {
    if found.dom().contains(name) {
        all_values(found[name])
    } else {
        Seq::empty()
    }
}

/// The positions of all occurrences of the option `name`.
pub open spec fn found_positions(found: Map<Seq<char>, Seq<Occurrence>>, name: Seq<char>) -> Seq<
    usize,
> {
    if found.dom().contains(name) {
        all_positions(found[name])
    } else {
        Seq::empty()
    }
}

impl RawArgs {
    /// Whether the raw arguments are what `found` holds of each option.
    pub open spec fn read_from(&self, found: Map<Seq<char>, Seq<Occurrence>>) -> bool {
        &&& self.help_positions@ == found_positions(found, "h"@) + found_positions(found, "help"@)
        &&& self.spirt_passes.deep_view() == found_values(found, "spirt-passes"@)
        &&& self.disassemble == found_present(found, "disassemble"@)
        &&& self.disassemble_globals == found_present(found, "disassemble-globals"@)
        &&& self.no_spirv_val == found_present(found, "no-spirv-val"@)
        &&& self.relax_struct_store == found_present(found, "relax-struct-store"@)
        &&& self.relax_logical_pointer == found_present(found, "relax-logical-pointer"@)
        &&& self.relax_block_layout == found_present(found, "relax-block-layout"@)
        &&& self.uniform_buffer_standard_layout == found_present(found, "uniform-buffer-standard-layout"@)
        &&& self.scalar_block_layout == found_present(found, "scalar-block-layout"@)
        &&& self.skip_block_layout == found_present(found, "skip-block-layout"@)
        &&& self.no_spirv_opt == found_present(found, "no-spirv-opt"@)
        &&& self.preserve_bindings == found_present(found, "preserve-bindings"@)
        &&& self.no_dce == found_present(found, "no-dce"@)
        &&& self.no_compact_ids == found_present(found, "no-compact-ids"@)
        &&& self.no_early_report_zombies == found_present(found, "no-early-report-zombies"@)
        &&& self.no_infer_storage_classes == found_present(found, "no-infer-storage-classes"@)
        &&& self.no_structurize == found_present(found, "no-structurize"@)
        &&& self.spirt_strip_custom_debuginfo_from_dumps == found_present(found, "spirt-strip-custom-debuginfo-from-dumps"@)
        &&& self.spirt_keep_debug_sources_in_dumps == found_present(found, "spirt-keep-debug-sources-in-dumps"@)
        &&& self.spirt_keep_unstructured_cfg_in_dumps == found_present(found, "spirt-keep-unstructured-cfg-in-dumps"@)
        &&& self.module_output.deep_view() == found_value(found, "module-output"@)
        &&& self.disassemble_fn.deep_view() == found_value(found, "disassemble-fn"@)
        &&& self.disassemble_entry.deep_view() == found_value(found, "disassemble-entry"@)
        &&& self.spirv_metadata.deep_view() == found_value(found, "spirv-metadata"@)
        &&& self.abort_strategy.deep_view() == found_value(found, "abort-strategy"@)
        &&& self.dump_post_merge.deep_view() == found_value(found, "dump-post-merge"@)
        &&& self.dump_pre_inline.deep_view() == found_value(found, "dump-pre-inline"@)
        &&& self.dump_post_inline.deep_view() == found_value(found, "dump-post-inline"@)
        &&& self.dump_post_split.deep_view() == found_value(found, "dump-post-split"@)
        &&& self.dump_spirt_passes.deep_view() == found_value(found, "dump-spirt-passes"@)
        &&& self.specializer_dump_instances.deep_view() == found_value(found, "specializer-dump-instances"@)
        &&& self.dump_mir.deep_view() == found_value(found, "dump-mir"@)
        &&& self.dump_module_on_panic.deep_view() == found_value(found, "dump-module-on-panic"@)
        &&& self.dump_pre_link.deep_view() == found_value(found, "dump-pre-link"@)
        &&& self.dump_post_link.deep_view() == found_value(found, "dump-post-link"@)
    }
}

/// Tells whether the option `name` occurs.
fn is_present(matches: &getopts::Matches, name: &str) -> (r: bool)
    ensures
        r == found_present(match_values(*matches), name@),
{
    if matches_defined(matches, name) {
        matches_present(matches, name)
    } else {
        false
    }
}

/// The value of the first occurrence of the option `name`.
fn value_of(matches: &getopts::Matches, name: &str) -> (r: Option<String>)
    ensures
        r.deep_view() == found_value(match_values(*matches), name@),
{
    if matches_defined(matches, name) {
        matches_str(matches, name)
    } else {
        None
    }
}

/// The values of all occurrences of the option `name`.
fn values_of(matches: &getopts::Matches, name: &str) -> (r: Vec<String>)
    ensures
        r.deep_view() == found_values(match_values(*matches), name@),
{
    if matches_defined(matches, name) {
        matches_strs(matches, name)
    } else {
        let v: Vec<String> = Vec::new();
        assert(v.deep_view() =~= Seq::<Seq<char>>::empty());
        v
    }
}

/// The positions of all occurrences of the option `name`.
fn positions_of(matches: &getopts::Matches, name: &str) -> (r: Vec<usize>)
    ensures
        r@ == found_positions(match_values(*matches), name@),
{
    if matches_defined(matches, name) {
        matches_positions(matches, name)
    } else {
        Vec::new()
    }
}

/// Reads what was found of each option.
pub fn read_matches(matches: &getopts::Matches) -> (r: RawArgs)
    ensures
        r.read_from(match_values(*matches)),
{
    let mut help_positions = positions_of(matches, "h");
    let more = positions_of(matches, "help");
    let ghost first = help_positions@;
    let mut i: usize = 0;
    while i < more.len()
        invariant
            i <= more.len(),
            help_positions@ == first + more@.subrange(0, i as int),
        decreases more.len() - i,
    {
        help_positions.push(more[i]);
        assert(help_positions@ =~= first + more@.subrange(0, i + 1));
        i += 1;
    }
    assert(more@.subrange(0, more.len() as int) =~= more@);
    RawArgs {
        help_positions,
        spirt_passes: values_of(matches, "spirt-passes"),
        disassemble: is_present(matches, "disassemble"),
        disassemble_globals: is_present(matches, "disassemble-globals"),
        no_spirv_val: is_present(matches, "no-spirv-val"),
        relax_struct_store: is_present(matches, "relax-struct-store"),
        relax_logical_pointer: is_present(matches, "relax-logical-pointer"),
        relax_block_layout: is_present(matches, "relax-block-layout"),
        uniform_buffer_standard_layout: is_present(matches, "uniform-buffer-standard-layout"),
        scalar_block_layout: is_present(matches, "scalar-block-layout"),
        skip_block_layout: is_present(matches, "skip-block-layout"),
        no_spirv_opt: is_present(matches, "no-spirv-opt"),
        preserve_bindings: is_present(matches, "preserve-bindings"),
        no_dce: is_present(matches, "no-dce"),
        no_compact_ids: is_present(matches, "no-compact-ids"),
        no_early_report_zombies: is_present(matches, "no-early-report-zombies"),
        no_infer_storage_classes: is_present(matches, "no-infer-storage-classes"),
        no_structurize: is_present(matches, "no-structurize"),
        spirt_strip_custom_debuginfo_from_dumps: is_present(matches, "spirt-strip-custom-debuginfo-from-dumps"),
        spirt_keep_debug_sources_in_dumps: is_present(matches, "spirt-keep-debug-sources-in-dumps"),
        spirt_keep_unstructured_cfg_in_dumps: is_present(matches, "spirt-keep-unstructured-cfg-in-dumps"),
        module_output: value_of(matches, "module-output"),
        disassemble_fn: value_of(matches, "disassemble-fn"),
        disassemble_entry: value_of(matches, "disassemble-entry"),
        spirv_metadata: value_of(matches, "spirv-metadata"),
        abort_strategy: value_of(matches, "abort-strategy"),
        dump_post_merge: value_of(matches, "dump-post-merge"),
        dump_pre_inline: value_of(matches, "dump-pre-inline"),
        dump_post_inline: value_of(matches, "dump-post-inline"),
        dump_post_split: value_of(matches, "dump-post-split"),
        dump_spirt_passes: value_of(matches, "dump-spirt-passes"),
        specializer_dump_instances: value_of(matches, "specializer-dump-instances"),
        dump_mir: value_of(matches, "dump-mir"),
        dump_module_on_panic: value_of(matches, "dump-module-on-panic"),
        dump_pre_link: value_of(matches, "dump-pre-link"),
        dump_post_link: value_of(matches, "dump-post-link"),
    }
}

/// The metadata level that the value of `--spirv-metadata` names, one of
/// `none`, `name-variables` and `full`: none where the option is absent.
pub open spec fn metadata_of(value: Option<Seq<char>>) -> Result<SpirvMetadata, ParseFailView> {
    match value {
        None => Ok(SpirvMetadata::NoMetadata),
        Some(v) => if v == "none"@ {
            Ok(SpirvMetadata::NoMetadata)
        } else if v == "full"@ {
            Ok(SpirvMetadata::Full)
        } else if v == "name-variables"@ {
            Ok(SpirvMetadata::NameVariables)
        } else {
            Err(ParseFailView::UnrecognizedOption(v))
        },
    }
}

/// The output type that the value of `--module-output` names: a single
/// module where the option is absent.
pub open spec fn output_of(value: Option<Seq<char>>) -> Result<ModuleOutputType, ParseFailView> {
    match value {
        None => Ok(ModuleOutputType::Single),
        Some(v) => ModuleOutputType::from_str_spec(v),
    }
}

/// The names of the passes that the values of `--spirt-passes` list: each
/// value is a list with commas between the names.
pub open spec fn passes_of(values: Seq<Seq<char>>) -> Seq<Seq<char>>
    decreases values.len(),
{
    if values.len() == 0 {
        Seq::empty()
    } else {
        passes_of(values.drop_last()) + split_on(values.last(), ',')
    }
}

/// Reads the metadata level from the value of `--spirv-metadata`.
pub fn read_metadata(value: &Option<String>) -> (r: Result<SpirvMetadata, ParseFail>)
    ensures
        match metadata_of(value.deep_view()) {
            Err(f) => r is Err && r->Err_0@ == f,
            Ok(m) => r == Ok::<SpirvMetadata, ParseFail>(m),
        },
{
    match value {
        None => Ok(SpirvMetadata::NoMetadata),
        Some(v) => {
            if str_eq(v.as_str(), "none") {
                Ok(SpirvMetadata::NoMetadata)
            } else if str_eq(v.as_str(), "full") {
                Ok(SpirvMetadata::Full)
            } else if str_eq(v.as_str(), "name-variables") {
                Ok(SpirvMetadata::NameVariables)
            } else {
                Err(ParseFail::UnrecognizedOption(v.clone()))
            }
        },
    }
}

/// Reads the output type from the value of `--module-output`.
pub fn read_output(value: &Option<String>) -> (r: Result<ModuleOutputType, ParseFail>)
    ensures
        match output_of(value.deep_view()) {
            Err(f) => r is Err && r->Err_0@ == f,
            Ok(t) => r == Ok::<ModuleOutputType, ParseFail>(t),
        },
{
    match value {
        None => Ok(ModuleOutputType::Single),
        Some(v) => ModuleOutputType::from_str(v.as_str()),
    }
}

/// The names of the passes that the values of `--spirt-passes` list.
pub fn spirt_passes(values: &Vec<String>) -> (r: Vec<String>)
    ensures
        r.deep_view() == passes_of(values.deep_view()),
{
    let mut out: Vec<String> = Vec::new();
    let ghost all = values.deep_view();
    let mut i: usize = 0;
    assert(out.deep_view() =~= Seq::<Seq<char>>::empty());
    assert(all.subrange(0, 0) =~= Seq::<Seq<char>>::empty());
    while i < values.len()
        invariant
            i <= values.len(),
            all == values.deep_view(),
            out.deep_view() == passes_of(all.subrange(0, i as int)),
        decreases values.len() - i,
    {
        let ghost upto = all.subrange(0, i + 1);
        assert(upto.drop_last() =~= all.subrange(0, i as int));
        assert(upto.last() == values@[i as int]@);
        let names = split(values[i].as_str(), ',');
        let ghost before = out.deep_view();
        let ghost added = names.deep_view();
        let mut j: usize = 0;
        let n = names.len();
        assert(before + added.subrange(0, 0) =~= before);
        while j < n
            invariant
                j <= n,
                n == names.len(),
                added == names.deep_view(),
                out.deep_view() == before + added.subrange(0, j as int),
            decreases n - j,
        {
            assert(added[j as int] == names@[j as int]@);
            let name = names[j].clone();
            let ghost ov = out.deep_view();
            out.push(name);
            assert(out.deep_view() =~= ov.push(name@));
            assert(out.deep_view() =~= before + added.subrange(0, j + 1));
            j += 1;
        }
        assert(added.subrange(0, n as int) =~= added);
        i += 1;
    }
    assert(all.subrange(0, values.len() as int) =~= all);
    out
}

impl CodegenArgs {
    /// Whether the options are those that the raw arguments `raw` stand
    /// for, with the metadata level `metadata` and the output type
    /// `output`. An option whose name starts with `no-` switches off what
    /// is on without it.
    pub open spec fn built_from(
        &self,
        raw: &RawArgs,
        metadata: SpirvMetadata,
        output: ModuleOutputType,
    ) -> bool {
        &&& self.disassemble == raw.disassemble
        &&& self.disassemble_fn == raw.disassemble_fn
        &&& self.disassemble_entry == raw.disassemble_entry
        &&& self.disassemble_globals == raw.disassemble_globals
        &&& self.spirv_metadata == metadata
        &&& self.run_spirv_val == !raw.no_spirv_val
        &&& self.relax_struct_store == raw.relax_struct_store
        &&& self.relax_logical_pointer == raw.relax_logical_pointer
        &&& self.relax_block_layout == (if raw.relax_block_layout {
            Some(true)
        } else {
            None
        })
        &&& self.uniform_buffer_standard_layout == raw.uniform_buffer_standard_layout
        &&& self.scalar_block_layout == raw.scalar_block_layout
        &&& self.skip_block_layout == raw.skip_block_layout
        &&& self.run_spirv_opt == !raw.no_spirv_opt
        &&& self.preserve_bindings == raw.preserve_bindings
        &&& self.dump_mir == raw.dump_mir
        &&& self.dump_module_on_panic == raw.dump_module_on_panic
        &&& self.dump_pre_link == raw.dump_pre_link
        &&& self.dump_post_link == raw.dump_post_link
        &&& self.linker_opts.dce == !raw.no_dce
        &&& self.linker_opts.compact_ids == !raw.no_compact_ids
        &&& self.linker_opts.early_report_zombies == !raw.no_early_report_zombies
        &&& self.linker_opts.infer_storage_classes == !raw.no_infer_storage_classes
        &&& self.linker_opts.structurize == !raw.no_structurize
        &&& self.linker_opts.spirt_passes.deep_view() == passes_of(raw.spirt_passes.deep_view())
        &&& self.linker_opts.abort_strategy == raw.abort_strategy
        &&& self.linker_opts.module_output_type == output
        &&& self.linker_opts.spirv_metadata == metadata
        &&& self.linker_opts.keep_link_exports == false
        &&& self.linker_opts.dump_post_merge == raw.dump_post_merge
        &&& self.linker_opts.dump_pre_inline == raw.dump_pre_inline
        &&& self.linker_opts.dump_post_inline == raw.dump_post_inline
        &&& self.linker_opts.dump_post_split == raw.dump_post_split
        &&& self.linker_opts.dump_spirt_passes == raw.dump_spirt_passes
        &&& self.linker_opts.spirt_strip_custom_debuginfo_from_dumps
            == raw.spirt_strip_custom_debuginfo_from_dumps
        &&& self.linker_opts.spirt_keep_debug_sources_in_dumps
            == raw.spirt_keep_debug_sources_in_dumps
        &&& self.linker_opts.spirt_keep_unstructured_cfg_in_dumps
            == raw.spirt_keep_unstructured_cfg_in_dumps
        &&& self.linker_opts.specializer_dump_instances == raw.specializer_dump_instances
    }

    /// Checks the raw arguments and makes the options of them: the value
    /// of `--spirv-metadata` must be `none`, `name-variables` or `full`, that of
    /// `--module-output` must be `single` or `multiple`; any other value
    /// is an unrecognized option, the metadata level being checked first.
    pub fn from_raw(raw: RawArgs) -> (r: Result<CodegenArgs, ParseFail>)
        ensures
            match metadata_of(raw.spirv_metadata.deep_view()) {
                Err(f) => r is Err && r->Err_0@ == f,
                Ok(metadata) => match output_of(raw.module_output.deep_view()) {
                    Err(f) => r is Err && r->Err_0@ == f,
                    Ok(output) => r is Ok && r->Ok_0.built_from(&raw, metadata, output),
                },
            },
    {
        let spirv_metadata = match read_metadata(&raw.spirv_metadata) {
            Ok(m) => m,
            Err(e) => {
                return Err(e);
            },
        };
        let module_output_type = match read_output(&raw.module_output) {
            Ok(t) => t,
            Err(e) => {
                return Err(e);
            },
        };
        let passes = spirt_passes(&raw.spirt_passes);
        let linker_opts = LinkerOptions {
            dce: !raw.no_dce,
            compact_ids: !raw.no_compact_ids,
            early_report_zombies: !raw.no_early_report_zombies,
            infer_storage_classes: !raw.no_infer_storage_classes,
            structurize: !raw.no_structurize,
            spirt_passes: passes,
            abort_strategy: raw.abort_strategy,
            module_output_type,
            spirv_metadata,
            keep_link_exports: false,
            dump_post_merge: raw.dump_post_merge,
            dump_pre_inline: raw.dump_pre_inline,
            dump_post_inline: raw.dump_post_inline,
            dump_post_split: raw.dump_post_split,
            dump_spirt_passes: raw.dump_spirt_passes,
            spirt_strip_custom_debuginfo_from_dumps: raw.spirt_strip_custom_debuginfo_from_dumps,
            spirt_keep_debug_sources_in_dumps: raw.spirt_keep_debug_sources_in_dumps,
            spirt_keep_unstructured_cfg_in_dumps: raw.spirt_keep_unstructured_cfg_in_dumps,
            specializer_dump_instances: raw.specializer_dump_instances,
        };
        Ok(
            CodegenArgs {
                disassemble: raw.disassemble,
                disassemble_fn: raw.disassemble_fn,
                disassemble_entry: raw.disassemble_entry,
                disassemble_globals: raw.disassemble_globals,
                spirv_metadata,
                run_spirv_val: !raw.no_spirv_val,
                relax_struct_store: raw.relax_struct_store,
                relax_logical_pointer: raw.relax_logical_pointer,
                relax_block_layout: if raw.relax_block_layout {
                    Some(true)
                } else {
                    None
                },
                uniform_buffer_standard_layout: raw.uniform_buffer_standard_layout,
                scalar_block_layout: raw.scalar_block_layout,
                skip_block_layout: raw.skip_block_layout,
                run_spirv_opt: !raw.no_spirv_opt,
                preserve_bindings: raw.preserve_bindings,
                linker_opts,
                dump_mir: raw.dump_mir,
                dump_module_on_panic: raw.dump_module_on_panic,
                dump_pre_link: raw.dump_pre_link,
                dump_post_link: raw.dump_post_link,
            },
        )
    }
}

/// The words of `s` from position `i` on: the runs of characters that are
/// not whitespace.
pub open spec fn words(s: Seq<char>, i: int) -> Seq<Seq<char>>
    decreases s.len() - i,
{
    let p = skip_whitespace(s, i);
    if p < 0 || p >= s.len() {
        Seq::empty()
    } else {
        let e = word_end(s, p + 1);
        if i < e <= s.len() {
            seq![s.subrange(p, e)] + words(s, e)
        } else {
            seq![s.subrange(p, e)]
        }
    }
}

/// The words of `s`.
pub fn split_whitespace(s: &str) -> (r: Vec<String>)
    ensures
        r.deep_view() == words(s@, 0),
{
    let n = s.unicode_len();
    let mut out: Vec<String> = Vec::new();
    let mut i: usize = 0;
    assert(out.deep_view() + words(s@, 0) =~= words(s@, 0));
    loop
        invariant
            i <= n,
            n == s@.len(),
            words(s@, 0) == out.deep_view() + words(s@, i as int),
        decreases n - i,
    {
        let mut p: usize = i;
        while p < n && char_is_whitespace(s.get_char(p))
            invariant
                i <= p <= n,
                n == s@.len(),
                skip_whitespace(s@, i as int) == skip_whitespace(s@, p as int),
            decreases n - p,
        {
            p += 1;
        }
        if p >= n {
            assert(out.deep_view() + Seq::<Seq<char>>::empty() =~= out.deep_view());
            return out;
        }
        let mut e: usize = p + 1;
        while e < n && !char_is_whitespace(s.get_char(e))
            invariant
                p < e <= n,
                n == s@.len(),
                word_end(s@, p + 1) == word_end(s@, e as int),
            decreases n - e,
        {
            e += 1;
        }
        let word = String::from_str(s.substring_char(p, e));
        let ghost before = out.deep_view();
        let ghost wv = word@;
        out.push(word);
        proof {
            assert(out.deep_view() =~= before.push(wv));
            assert(before + (seq![wv] + words(s@, e as int)) =~= before.push(wv) + words(
                s@,
                e as int,
            ));
        }
        i = e;
    }
}

/// Whether the arguments from position `start` on begin with `parts`, and
/// help was asked for at one of the positions that `parts` covers.
pub open spec fn window_has_help(
    args: Seq<Seq<char>>,
    parts: Seq<Seq<char>>,
    positions: Seq<usize>,
    start: int,
) -> bool {
    &&& 0 <= start
    &&& start + parts.len() <= args.len()
    &&& args.subrange(start, start + parts.len()) == parts
    &&& exists|k: int|
        0 <= k < positions.len() && start <= #[trigger] positions[k] < start + parts.len()
}

/// Whether help was asked for from within the arguments that the
/// environment gave: those are the words of `env`; they must stand
/// together among `args`, and cover a position at which help was asked
/// for.
pub open spec fn help_from_env(args: Seq<Seq<char>>, env: Option<Seq<char>>, positions: Seq<usize>)
    -> bool {
    match env {
        None => false,
        Some(e) => words(e, 0).len() > 0 && some_window_has_help(args, words(e, 0), positions),
    }
}

/// Whether `parts` stand together somewhere among `args`, and cover a
/// position at which help was asked for.
pub open spec fn some_window_has_help(
    args: Seq<Seq<char>>,
    parts: Seq<Seq<char>>,
    positions: Seq<usize>,
) -> bool {
    exists|start: int| #[trigger] window_has_help(args, parts, positions, start)
}

/// Tells whether the arguments from position `start` on begin with
/// `parts`.
fn window_matches(args: &Vec<String>, parts: &Vec<String>, start: usize) -> (r: bool)
    requires
        start + parts.len() <= args.len(),
    ensures
        r == (args.deep_view().subrange(start as int, start + parts.len()) == parts.deep_view()),
{
    let mut j: usize = 0;
    while j < parts.len()
        invariant
            j <= parts.len(),
            start + parts.len() <= args.len(),
            forall|k: int| 0 <= k < j ==> args@[start + k]@ == parts@[k]@,
        decreases parts.len() - j,
    {
        if !str_eq(args[start + j].as_str(), parts[j].as_str()) {
            assert(args.deep_view().subrange(start as int, start + parts.len())[j as int]
                != parts.deep_view()[j as int]);
            return false;
        }
        j += 1;
    }
    assert(args.deep_view().subrange(start as int, start + parts.len()) =~= parts.deep_view());
    true
}

/// Tells whether one of `positions` lies from `start` up to `end`, the
/// latter left out.
fn any_position_in(positions: &Vec<usize>, start: usize, end: usize) -> (r: bool)
    ensures
        r == exists|k: int| 0 <= k < positions.len() && start <= #[trigger] positions@[k] < end,
{
    let mut k: usize = 0;
    while k < positions.len()
        invariant
            k <= positions.len(),
            forall|j: int| 0 <= j < k ==> !(start <= #[trigger] positions@[j] < end),
        decreases positions.len() - k,
    {
        if start <= positions[k] && positions[k] < end {
            return true;
        }
        k += 1;
    }
    false
}

/// Tells whether help was asked for from within the arguments that the
/// environment gave.
pub fn help_flag_comes_from_env(args: &Vec<String>, env: Option<&str>, positions: &Vec<usize>)
    -> (r: bool)
    ensures
        r == help_from_env(
            args.deep_view(),
            match env {
                Some(e) => Some(e@),
                None => None,
            },
            positions@,
        ),
{
    let e = match env {
        None => {
            return false;
        },
        Some(e) => e,
    };
    let parts = split_whitespace(e);
    if parts.len() == 0 || parts.len() > args.len() {
        assert forall|start: int| !#[trigger] window_has_help(
            args.deep_view(),
            parts.deep_view(),
            positions@,
            start,
        ) || parts.len() == 0 by {}
        return false;
    }
    let last = args.len() - parts.len();
    let mut start: usize = 0;
    while start <= last
        invariant
            start <= last + 1,
            last == args.len() - parts.len(),
            1 <= parts.len() <= args.len(),
            env == Some(e),
            parts.deep_view() == words(e@, 0),
            forall|s: int|
                0 <= s < start ==> !#[trigger] window_has_help(
                    args.deep_view(),
                    parts.deep_view(),
                    positions@,
                    s,
                ),
        decreases last + 1 - start,
    {
        if window_matches(args, &parts, start) && any_position_in(
            positions,
            start,
            start + parts.len(),
        ) {
            assert(args.deep_view().subrange(start as int, start + parts.len())
                == parts.deep_view());
            assert(exists|k: int|
                0 <= k < positions@.len() && start <= #[trigger] positions@[k] < start
                    + parts.len());
            assert(window_has_help(args.deep_view(), parts.deep_view(), positions@, start as int));
            assert(words(e@, 0).len() > 0);
            assert(window_has_help(args.deep_view(), words(e@, 0), positions@, start as int));
            return true;
        }
        start += 1;
    }
    assert forall|s: int| !#[trigger] window_has_help(
        args.deep_view(),
        parts.deep_view(),
        positions@,
        s,
    ) by {
        if 0 <= s && s + parts.len() <= args.len() {
            assert(s < start);
        }
    }
    false
}

/// The heading of the usage message: it names the place that the
/// arguments came from.
pub open spec fn usage_brief(from_env: bool) -> Seq<char> {
    "Usage: "@ + (if from_env {
        "RUSTGPU_CODEGEN_ARGS"@
    } else {
        "rustc -Cllvm-args"@
    }) + "=\"...\" with `...` from:"@
}

/// What a list of arguments asks for.
#[derive(Clone, Debug, PartialEq, Eq)]
pub enum Parsed {
    /// The options to generate code with.
    Args(CodegenArgs),
    /// The usage message, under the heading `brief`; after it the
    /// compilation ends.
    Help { brief: String },
}

impl CodegenArgs {
    /// What the raw arguments ask for: the usage message where help was
    /// asked for, else the options that they stand for.
    pub fn from_found(raw: RawArgs, args: &Vec<String>, env: Option<&str>) -> (r: Result<
        Parsed,
        ParseFail,
    >)
        ensures
            parse_outcome(raw, args.deep_view(), env, r),
    {
        if raw.help_positions.len() > 0 {
            let from_env = help_flag_comes_from_env(args, env, &raw.help_positions);
            let lhs = if from_env {
                "RUSTGPU_CODEGEN_ARGS"
            } else {
                "rustc -Cllvm-args"
            };
            Ok(Parsed::Help { brief: concat2("Usage: ", lhs).concat("=\"...\" with `...` from:") })
        } else {
            match CodegenArgs::from_raw(raw) {
                Ok(a) => Ok(Parsed::Args(a)),
                Err(e) => Err(e),
            }
        }
    }

    /// Reads the options of the code generator from a list of arguments.
    /// `env` is what the environment variable `RUSTGPU_CODEGEN_ARGS` holds,
    /// if it is set. What `getopts` makes of the arguments decides: a
    /// failure of its own is handed on; else help is answered, or the
    /// options are checked and made.
    pub fn parse(args: &Vec<String>, env: Option<&str>) -> (r: Result<Parsed, ParseFail>)
        ensures
            match parse_named(codegen_option_specs(), args.deep_view()) {
                Err(f) => r is Err && r->Err_0@ == f,
                Ok(found) => found_outcome(found, args.deep_view(), env, r),
            },
    {
        let options = codegen_options();
        match options_parse(&options, args) {
            Err(e) => {
                let f = fail_from(e);
                assert(parse_named(codegen_option_specs(), args.deep_view()) == Err::<
                    Map<Seq<char>, Seq<Occurrence>>,
                    _,
                >(f@));
                Err(f)
            },
            Ok(matches) => {
                let raw = read_matches(&matches);
                let ghost found = match_values(matches);
                let ghost kept = raw;
                let r = CodegenArgs::from_found(raw, args, env);
                assert(parse_named(codegen_option_specs(), args.deep_view()) == Ok::<
                    _,
                    ParseFailView,
                >(found));
                assert(kept.read_from(found));
                assert(parse_outcome(kept, args.deep_view(), env, r));
                r
            },
        }
    }

    /// The paths of the directories that the options ask dumps to be
    /// written to, in the order in which they are to be prepared.
    pub fn dump_dirs(&self) -> (r: Vec<String>)
        ensures
            r.deep_view() == dirs_of(
                seq![
                    self.linker_opts.dump_post_merge.deep_view(),
                    self.linker_opts.dump_pre_inline.deep_view(),
                    self.linker_opts.dump_post_inline.deep_view(),
                    self.linker_opts.dump_post_split.deep_view(),
                    self.linker_opts.dump_spirt_passes.deep_view(),
                    self.dump_mir.deep_view(),
                    self.dump_pre_link.deep_view(),
                    self.dump_post_link.deep_view(),
                ],
            ),
    {
        let mut out: Vec<String> = Vec::new();
        assert(out.deep_view() =~= Seq::<Seq<char>>::empty());
        add_dir(&mut out, &self.linker_opts.dump_post_merge);
        add_dir(&mut out, &self.linker_opts.dump_pre_inline);
        add_dir(&mut out, &self.linker_opts.dump_post_inline);
        add_dir(&mut out, &self.linker_opts.dump_post_split);
        add_dir(&mut out, &self.linker_opts.dump_spirt_passes);
        add_dir(&mut out, &self.dump_mir);
        add_dir(&mut out, &self.dump_pre_link);
        add_dir(&mut out, &self.dump_post_link);
        proof {
            reveal_with_fuel(dirs_of, 10);
            let all = seq![
                self.linker_opts.dump_post_merge.deep_view(),
                self.linker_opts.dump_pre_inline.deep_view(),
                self.linker_opts.dump_post_inline.deep_view(),
                self.linker_opts.dump_post_split.deep_view(),
                self.linker_opts.dump_spirt_passes.deep_view(),
                self.dump_mir.deep_view(),
                self.dump_pre_link.deep_view(),
                self.dump_post_link.deep_view(),
            ];
            assert(all.drop_last().len() == 7);
            assert(all.drop_last().drop_last().len() == 6);
            assert(all.drop_last().drop_last().drop_last().len() == 5);
            assert(all.drop_last().drop_last().drop_last().drop_last().len() == 4);
            assert(all.drop_last().drop_last().drop_last().drop_last().drop_last().len() == 3);
            assert(all.drop_last().drop_last().drop_last().drop_last().drop_last().drop_last().len()
                == 2);
            assert(
                all.drop_last().drop_last().drop_last().drop_last().drop_last().drop_last().drop_last().len()
                    == 1);
        }
        out
    }
}

/// Whether `r` is what the options found ask for: there are raw arguments
/// that hold what was found of each option, and `r` is what they ask for.
pub open spec fn found_outcome(
    found: Map<Seq<char>, Seq<Occurrence>>,
    args: Seq<Seq<char>>,
    env: Option<&str>,
    r: Result<Parsed, ParseFail>,
) -> bool {
    exists|raw: RawArgs|
        #![trigger raw.read_from(found)]
        raw.read_from(found) && parse_outcome(raw, args, env, r)
}

/// Whether `r` is what the raw arguments `raw` ask for.
pub open spec fn parse_outcome(
    raw: RawArgs,
    args: Seq<Seq<char>>,
    env: Option<&str>,
    r: Result<Parsed, ParseFail>,
) -> bool {
    if raw.help_positions.len() > 0 {
        r matches Ok(Parsed::Help { brief }) && brief@ == usage_brief(
            help_from_env(
                args,
                match env {
                    Some(e) => Some(e@),
                    None => None,
                },
                raw.help_positions@,
            ),
        )
    } else {
        match metadata_of(raw.spirv_metadata.deep_view()) {
            Err(f) => r is Err && r->Err_0@ == f,
            Ok(metadata) => match output_of(raw.module_output.deep_view()) {
                Err(f) => r is Err && r->Err_0@ == f,
                Ok(output) => r matches Ok(Parsed::Args(a)) && a.built_from(&raw, metadata, output),
            },
        }
    }
}

/// The paths among `paths` that are given, in order.
pub open spec fn dirs_of(paths: Seq<Option<Seq<char>>>) -> Seq<Seq<char>>
    decreases paths.len(),
{
    if paths.len() == 0 {
        Seq::empty()
    } else {
        match paths.last() {
            Some(p) => dirs_of(paths.drop_last()).push(p),
            None => dirs_of(paths.drop_last()),
        }
    }
}

/// Puts `path` at the end of `out`, if it is given.
fn add_dir(out: &mut Vec<String>, path: &Option<String>)
    ensures
        final(out).deep_view() == match path.deep_view() {
            Some(p) => old(out).deep_view().push(p),
            None => old(out).deep_view(),
        },
{
    match path {
        Some(p) => {
            let ghost before = out.deep_view();
            out.push(p.clone());
            assert(out.deep_view() =~= before.push(p@));
        },
        None => {},
    }
}

impl ParseFailView {
    /// The words in which the failure is reported.
    pub open spec fn message(self) -> Seq<char> {
        match self {
            ParseFailView::ArgumentMissing(nm) => "Argument to option '"@ + nm + "' missing"@,
            ParseFailView::UnrecognizedOption(nm) => "Unrecognized option: '"@ + nm + "'"@,
            ParseFailView::OptionMissing(nm) => "Required option '"@ + nm + "' missing"@,
            ParseFailView::OptionDuplicated(nm) => "Option '"@ + nm + "' given more than once"@,
            ParseFailView::UnexpectedArgument(nm) => "Option '"@ + nm
                + "' does not take an argument"@,
        }
    }
}

impl ParseFail {
    /// The words in which the failure is reported.
    pub fn message(&self) -> (r: String)
        ensures
            r@ == self@.message(),
    {
        match self {
            ParseFail::ArgumentMissing(nm) => concat2("Argument to option '", nm.as_str()).concat(
                "' missing",
            ),
            ParseFail::UnrecognizedOption(nm) => concat2(
                "Unrecognized option: '",
                nm.as_str(),
            ).concat("'"),
            ParseFail::OptionMissing(nm) => concat2("Required option '", nm.as_str()).concat(
                "' missing",
            ),
            ParseFail::OptionDuplicated(nm) => concat2("Option '", nm.as_str()).concat(
                "' given more than once",
            ),
            ParseFail::UnexpectedArgument(nm) => concat2("Option '", nm.as_str()).concat(
                "' does not take an argument",
            ),
        }
    }
}

/// The fatal report of arguments that cannot be read.
pub open spec fn unparsable(f: ParseFailView) -> DiagnosticView {
    fatal_at(None, "Unable to parse llvm-args: "@ + f.message())
}

/// Whether `r` is what comes of the outcome `parsed` of reading the
/// arguments: the same where they were read, the fatal report of the
/// failure where not.
pub open spec fn session_outcome(
    parsed: Result<Parsed, ParseFail>,
    r: Result<Parsed, Diagnostic>,
) -> bool {
    match parsed {
        Ok(p) => r == Ok::<Parsed, Diagnostic>(p),
        Err(f) => r is Err && r->Err_0@ == unparsable(f@),
    }
}

/// Whether `r` is what the options found come to for a session: there is
/// an outcome of reading them, and `r` is what comes of it.
pub open spec fn session_found(
    found: Map<Seq<char>, Seq<Occurrence>>,
    args: Seq<Seq<char>>,
    env: Option<&str>,
    r: Result<Parsed, Diagnostic>,
) -> bool {
    exists|parsed: Result<Parsed, ParseFail>|
        #![trigger session_outcome(parsed, r)]
        found_outcome(found, args, env, parsed) && session_outcome(parsed, r)
}

impl CodegenArgs {
    /// What becomes of the outcome of reading the session's arguments: a
    /// failure is fatal.
    pub fn from_parsed(parsed: Result<Parsed, ParseFail>) -> (r: Result<Parsed, Diagnostic>)
        ensures
            session_outcome(parsed, r),
    {
        match parsed {
            Ok(p) => Ok(p),
            Err(f) => {
                let text = f.message();
                Err(
                    Diagnostic::new(
                        Level::Fatal,
                        None,
                        concat2("Unable to parse llvm-args: ", text.as_str()),
                    ),
                )
            },
        }
    }

    /// Reads the options from the arguments of a session, which the host
    /// calls its LLVM arguments. Arguments that cannot be read are fatal.
    pub fn from_session(llvm_args: &Vec<String>, env: Option<&str>) -> (r: Result<
        Parsed,
        Diagnostic,
    >)
        ensures
            match parse_named(codegen_option_specs(), llvm_args.deep_view()) {
                Err(f) => r is Err && r->Err_0@ == unparsable(f),
                Ok(found) => session_found(found, llvm_args.deep_view(), env, r),
            },
    {
        let parsed = CodegenArgs::parse(llvm_args, env);
        let ghost kept = parsed;
        let r = CodegenArgs::from_parsed(parsed);
        proof {
            match parse_named(codegen_option_specs(), llvm_args.deep_view()) {
                Ok(found) => {
                    assert(found_outcome(found, llvm_args.deep_view(), env, kept));
                    assert(session_outcome(kept, r));
                },
                Err(_) => {},
            }
        }
        r
    }
}

} // verus!
