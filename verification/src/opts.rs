//! The command-line grammar of the code generator's options, handed to
//! `getopts`, and what `getopts` finds in a list of arguments.

use vstd::prelude::*;
use crate::codegen_args::{ParseFail, ParseFailView};

verus! {

/// The options that `getopts` is told to look for.
#[verifier::external_type_specification]
#[verifier::external_body]
pub struct ExOptions(getopts::Options);

/// What `getopts` found in a list of arguments.
#[verifier::external_type_specification]
#[verifier::external_body]
pub struct ExMatches(getopts::Matches);

/// Why `getopts` could not read a list of arguments.
#[verifier::external_type_specification]
#[verifier::external_body]
pub struct ExFail(getopts::Fail);

/// What decides how an option is read: its names, whether it takes a
/// value, and whether it may be given more than once.
pub struct OptSpec {
    pub short_name: Seq<char>,
    pub long_name: Seq<char>,
    pub takes_value: bool,
    pub many: bool,
}

/// One occurrence of an option: the position of its argument in the list,
/// and the value given with it, if any.
pub type Occurrence = (usize, Option<Seq<char>>);

/// The options that were declared to `options`, in order.
pub uninterp spec fn declared(options: getopts::Options) -> Seq<OptSpec>;

/// Whether `options` reads arguments in the style that new options start
/// with: free arguments may stand among the options, and long options
/// take two dashes.
pub uninterp spec fn default_style(options: getopts::Options) -> bool;

/// What reading the arguments `args` against the declared options comes
/// to, in the default style: for each name of an option, short or long,
/// its occurrences in order; or the failure.
pub uninterp spec fn parse_named(decls: Seq<OptSpec>, args: Seq<Seq<char>>) -> Result<
    Map<Seq<char>, Seq<Occurrence>>,
    ParseFailView,
>;

/// The occurrences of each option that `matches` knows, by each of its
/// names.
pub uninterp spec fn match_values(matches: getopts::Matches) -> Map<Seq<char>, Seq<Occurrence>>;

/// The content of a failure.
pub uninterp spec fn fail_view(fail: getopts::Fail) -> ParseFailView;

/// Whether `getopts` takes the two names for an option and can read
/// arguments against it: the short name has at most one byte, the long
/// name has none or more than one, and one of the two is not empty.
pub open spec fn valid_names(short_name: &str, long_name: &str) -> bool {
    short_name.len() <= 1 && long_name.len() != 1 && (short_name@.len() > 0 || long_name@.len()
        > 0)
}

/// Whether the option has a name, short or long.
pub open spec fn has_name(option: OptSpec) -> bool {
    option.short_name.len() > 0 || option.long_name.len() > 0
}

/// Whether each of the options has a name.
pub open spec fn all_named(decls: Seq<OptSpec>) -> bool {
    forall|i: int| 0 <= i < decls.len() ==> has_name(#[trigger] decls[i])
}

/// `getopts::Options::new`: no option is declared, and the style of
/// parsing is the default.
#[verifier::external_body]
pub(crate) fn options_new() -> (r: getopts::Options)
    ensures
        declared(r) == Seq::<OptSpec>::empty(),
        default_style(r),
{
    getopts::Options::new()
}

/// `getopts::Options::optflag`: declares an option that takes no value and
/// may be given once. It panics on names that are not valid, which the
/// contract leaves out.
#[verifier::external_body]
pub(crate) fn options_optflag(
    options: &mut getopts::Options,
    short_name: &str,
    long_name: &str,
    desc: &str,
)
    requires
        valid_names(short_name, long_name),
    ensures
        declared(*final(options)) == declared(*old(options)).push(
            OptSpec {
                short_name: short_name@,
                long_name: long_name@,
                takes_value: false,
                many: false,
            },
        ),
        default_style(*final(options)) == default_style(*old(options)),
{
    options.optflag(short_name, long_name, desc);
}

/// `getopts::Options::optopt`: declares an option that takes a value and
/// may be given once. It panics on names that are not valid, which the
/// contract leaves out.
#[verifier::external_body]
pub(crate) fn options_optopt(
    options: &mut getopts::Options,
    short_name: &str,
    long_name: &str,
    desc: &str,
    hint: &str,
)
    requires
        valid_names(short_name, long_name),
    ensures
        declared(*final(options)) == declared(*old(options)).push(
            OptSpec {
                short_name: short_name@,
                long_name: long_name@,
                takes_value: true,
                many: false,
            },
        ),
        default_style(*final(options)) == default_style(*old(options)),
{
    options.optopt(short_name, long_name, desc, hint);
}

/// `getopts::Options::optmulti`: declares an option that takes a value and
/// may be given any number of times. It panics on names that are not
/// valid, which the contract leaves out.
#[verifier::external_body]
pub(crate) fn options_optmulti(
    options: &mut getopts::Options,
    short_name: &str,
    long_name: &str,
    desc: &str,
    hint: &str,
)
    requires
        valid_names(short_name, long_name),
    ensures
        declared(*final(options)) == declared(*old(options)).push(
            OptSpec { short_name: short_name@, long_name: long_name@, takes_value: true, many: true },
        ),
        default_style(*final(options)) == default_style(*old(options)),
{
    options.optmulti(short_name, long_name, desc, hint);
}

/// `getopts::Options::parse`. The contract names the result by the
/// options declared and the arguments given. It panics where an option
/// was declared without any name, which the contract leaves out.
#[verifier::external_body]
pub(crate) fn options_parse(options: &getopts::Options, args: &Vec<String>) -> (r: Result<
    getopts::Matches,
    getopts::Fail,
>)
    requires
        default_style(*options),
        all_named(declared(*options)),
    ensures
        match r {
            Ok(m) => parse_named(declared(*options), args.deep_view()) == Ok::<_, ParseFailView>(
                match_values(m),
            ),
            Err(e) => parse_named(declared(*options), args.deep_view()) == Err::<
                Map<Seq<char>, Seq<Occurrence>>,
                _,
            >(fail_view(e)),
        },
{
    options.parse(args)
}

/// The variants of `getopts::Fail`, told apart, each with its text.
#[verifier::external_body]
pub(crate) fn fail_from(fail: getopts::Fail) -> (r: ParseFail)
    ensures
        r@ == fail_view(fail),
{
    match fail {
        getopts::Fail::ArgumentMissing(s) => ParseFail::ArgumentMissing(s),
        getopts::Fail::UnrecognizedOption(s) => ParseFail::UnrecognizedOption(s),
        getopts::Fail::OptionMissing(s) => ParseFail::OptionMissing(s),
        getopts::Fail::OptionDuplicated(s) => ParseFail::OptionDuplicated(s),
        getopts::Fail::UnexpectedArgument(s) => ParseFail::UnexpectedArgument(s),
    }
}

/// `getopts::Matches::opt_defined`: whether `name` is a name of an option
/// that was declared.
#[verifier::external_body]
pub(crate) fn matches_defined(matches: &getopts::Matches, name: &str) -> (r: bool)
    ensures
        r == match_values(*matches).dom().contains(name@),
{
    matches.opt_defined(name)
}

/// `getopts::Matches::opt_present`: whether the option occurs. It panics
/// for a name that was not declared, which the contract leaves out.
#[verifier::external_body]
pub(crate) fn matches_present(matches: &getopts::Matches, name: &str) -> (r: bool)
    requires
        match_values(*matches).dom().contains(name@),
    ensures
        r == (match_values(*matches)[name@].len() > 0),
{
    matches.opt_present(name)
}

/// The value of the first of `occurrences`, if there is one and it has a
/// value.
pub open spec fn first_value(occurrences: Seq<Occurrence>) -> Option<Seq<char>> {
    if occurrences.len() > 0 {
        occurrences[0].1
    } else {
        None
    }
}

/// The values of those of `occurrences` that have one, in order.
pub open spec fn all_values(occurrences: Seq<Occurrence>) -> Seq<Seq<char>>
    decreases occurrences.len(),
{
    if occurrences.len() == 0 {
        Seq::empty()
    } else {
        match occurrences.last().1 {
            Some(v) => all_values(occurrences.drop_last()).push(v),
            None => all_values(occurrences.drop_last()),
        }
    }
}

/// The positions of `occurrences`, in order.
pub open spec fn all_positions(occurrences: Seq<Occurrence>) -> Seq<usize> {
    Seq::new(occurrences.len(), |i: int| occurrences[i].0)
}

/// `getopts::Matches::opt_str`: the value of the option's first
/// occurrence, if it has one. It panics for a name that was not declared,
/// which the contract leaves out.
#[verifier::external_body]
pub(crate) fn matches_str(matches: &getopts::Matches, name: &str) -> (r: Option<String>)
    requires
        match_values(*matches).dom().contains(name@),
    ensures
        r.deep_view() == first_value(match_values(*matches)[name@]),
{
    matches.opt_str(name)
}

/// `getopts::Matches::opt_strs`: the values of all occurrences of the
/// option that have one. It panics for a name that was not declared,
/// which the contract leaves out.
#[verifier::external_body]
pub(crate) fn matches_strs(matches: &getopts::Matches, name: &str) -> (r: Vec<String>)
    requires
        match_values(*matches).dom().contains(name@),
    ensures
        r.deep_view() == all_values(match_values(*matches)[name@]),
{
    matches.opt_strs(name)
}

/// `getopts::Matches::opt_positions`: the positions of all occurrences of
/// the option. It panics for a name that was not declared, which the
/// contract leaves out.
#[verifier::external_body]
pub(crate) fn matches_positions(matches: &getopts::Matches, name: &str) -> (r: Vec<usize>)
    requires
        match_values(*matches).dom().contains(name@),
    ensures
        r@ == all_positions(match_values(*matches)[name@]),
{
    matches.opt_positions(name)
}

/// The options after one more was declared, if `getopts` takes its names.
pub open spec fn declare(decls: Seq<OptSpec>, short_name: &str, long_name: &str, takes_value: bool, many: bool)
    -> Seq<OptSpec> {
    if valid_names(short_name, long_name) {
        decls.push(
            OptSpec { short_name: short_name@, long_name: long_name@, takes_value, many },
        )
    } else {
        decls
    }
}

/// Declares an option that takes no value, if `getopts` takes its names.
pub fn flag(options: &mut getopts::Options, short_name: &str, long_name: &str, desc: &str)
    ensures
        declared(*final(options)) == declare(declared(*old(options)), short_name, long_name, false, false),
        default_style(*final(options)) == default_style(*old(options)),
        all_named(declared(*old(options))) ==> all_named(declared(*final(options))),
{
    if short_name.len() <= 1 && long_name.len() != 1 && (short_name.unicode_len() > 0
        || long_name.unicode_len() > 0) {
        options_optflag(options, short_name, long_name, desc);
    }
}

/// Declares an option that takes a value, if `getopts` takes its names.
pub fn opt(
    options: &mut getopts::Options,
    short_name: &str,
    long_name: &str,
    desc: &str,
    hint: &str,
)
    ensures
        declared(*final(options)) == declare(declared(*old(options)), short_name, long_name, true, false),
        default_style(*final(options)) == default_style(*old(options)),
        all_named(declared(*old(options))) ==> all_named(declared(*final(options))),
{
    if short_name.len() <= 1 && long_name.len() != 1 && (short_name.unicode_len() > 0
        || long_name.unicode_len() > 0) {
        options_optopt(options, short_name, long_name, desc, hint);
    }
}

/// Declares an option that takes a value and may be repeated, if
/// `getopts` takes its names.
pub fn multi(
    options: &mut getopts::Options,
    short_name: &str,
    long_name: &str,
    desc: &str,
    hint: &str,
)
    ensures
        declared(*final(options)) == declare(declared(*old(options)), short_name, long_name, true, true),
        default_style(*final(options)) == default_style(*old(options)),
        all_named(declared(*old(options))) ==> all_named(declared(*final(options))),
{
    if short_name.len() <= 1 && long_name.len() != 1 && (short_name.unicode_len() > 0
        || long_name.unicode_len() > 0) {
        options_optmulti(options, short_name, long_name, desc, hint);
    }
}

/// The options of the code generator, as they are declared to `getopts`.
pub open spec fn codegen_option_specs() -> Seq<OptSpec> {
    let d = Seq::<OptSpec>::empty();
    let d = declare(d, "h", "help", false, false);
    let d = declare(d, "", "module-output", true, false);
    let d = declare(d, "", "disassemble", false, false);
    let d = declare(d, "", "disassemble-fn", true, false);
    let d = declare(d, "", "disassemble-entry", true, false);
    let d = declare(d, "", "disassemble-globals", false, false);
    let d = declare(d, "", "spirv-metadata", true, false);
    let d = declare(d, "", "no-spirv-val", false, false);
    let d = declare(d, "", "relax-struct-store", false, false);
    let d = declare(d, "", "relax-logical-pointer", false, false);
    let d = declare(d, "", "relax-block-layout", false, false);
    let d = declare(d, "", "uniform-buffer-standard-layout", false, false);
    let d = declare(d, "", "scalar-block-layout", false, false);
    let d = declare(d, "", "skip-block-layout", false, false);
    let d = declare(d, "", "no-spirv-opt", false, false);
    let d = declare(d, "", "preserve-bindings", false, false);
    let d = declare(d, "", "no-dce", false, false);
    let d = declare(d, "", "no-compact-ids", false, false);
    let d = declare(d, "", "no-early-report-zombies", false, false);
    let d = declare(d, "", "no-infer-storage-classes", false, false);
    let d = declare(d, "", "no-structurize", false, false);
    let d = declare(d, "", "spirt-passes", true, true);
    let d = declare(d, "", "abort-strategy", true, false);
    let d = declare(d, "", "dump-post-merge", true, false);
    let d = declare(d, "", "dump-pre-inline", true, false);
    let d = declare(d, "", "dump-post-inline", true, false);
    let d = declare(d, "", "dump-post-split", true, false);
    let d = declare(d, "", "dump-spirt-passes", true, false);
    let d = declare(d, "", "spirt-strip-custom-debuginfo-from-dumps", false, false);
    let d = declare(d, "", "spirt-keep-debug-sources-in-dumps", false, false);
    let d = declare(d, "", "spirt-keep-unstructured-cfg-in-dumps", false, false);
    let d = declare(d, "", "specializer-dump-instances", true, false);
    let d = declare(d, "", "dump-mir", true, false);
    let d = declare(d, "", "dump-module-on-panic", true, false);
    let d = declare(d, "", "dump-pre-link", true, false);
    let d = declare(d, "", "dump-post-link", true, false);
    d
}

/// Declares the options of the code generator to `getopts`.
pub fn codegen_options() -> (r: getopts::Options)
    ensures
        declared(r) == codegen_option_specs(),
        default_style(r),
        all_named(declared(r)),
{
    let mut o = options_new();
    flag(&mut o, "h", "help", "Display this message");
    opt(&mut o, "", "module-output", "single output or multiple output", "[single|multiple]");
    flag(&mut o, "", "disassemble", "print module to stderr");
    opt(&mut o, "", "disassemble-fn", "print function to stderr", "NAME");
    opt(&mut o, "", "disassemble-entry", "print entry point to stderr", "NAME");
    flag(&mut o, "", "disassemble-globals", "print globals to stderr");
    opt(&mut o, "", "spirv-metadata", "how much metadata to include", "");
    flag(&mut o, "", "no-spirv-val", "disables running spirv-val on the final output");
    flag(&mut o, "", "relax-struct-store", "Allow store from one struct type to a different type with compatible layout and members.");
    flag(&mut o, "", "relax-logical-pointer", "Allow allocating an object of a pointer type and returning a pointer value from a function in logical addressing mode");
    flag(&mut o, "", "relax-block-layout", "Enable VK_KHR_relaxed_block_layout when checking standard uniform, storage buffer, and push constant layouts. This is the default when targeting Vulkan 1.1 or later.");
    flag(&mut o, "", "uniform-buffer-standard-layout", "Enable VK_KHR_uniform_buffer_standard_layout when checking standard uniform buffer layouts.");
    flag(&mut o, "", "scalar-block-layout", "Enable VK_EXT_scalar_block_layout when checking standard uniform, storage buffer, and push constant layouts. Scalar layout rules are more permissive than relaxed block layout so in effect this will override the --relax-block-layout option.");
    flag(&mut o, "", "skip-block-layout", "Skip checking standard uniform/storage buffer layout. Overrides any --relax-block-layout or --scalar-block-layout option.");
    flag(&mut o, "", "no-spirv-opt", "disables running spirv-opt on the final output");
    flag(&mut o, "", "preserve-bindings", "Preserve unused descriptor bindings. Useful for reflection.");
    flag(&mut o, "", "no-dce", "disables running dead code elimination");
    flag(&mut o, "", "no-compact-ids", "disables compaction of SPIR-V IDs at the end of linking");
    flag(&mut o, "", "no-early-report-zombies", "delays reporting zombies (to allow more legalization)");
    flag(&mut o, "", "no-infer-storage-classes", "disables SPIR-V Storage Class inference");
    flag(&mut o, "", "no-structurize", "disables CFG structurization");
    multi(&mut o, "", "spirt-passes", "enable additional SPIR-T passes (comma-separated)", "PASSES");
    opt(&mut o, "", "abort-strategy", "select a non-default abort (i.e. panic) strategy - see `spirv-builder` docs", "STRATEGY");
    opt(&mut o, "", "dump-post-merge", "dump the merged module immediately after merging, to a file in DIR", "DIR");
    opt(&mut o, "", "dump-pre-inline", "dump the module immediately before inlining, to a file in DIR", "DIR");
    opt(&mut o, "", "dump-post-inline", "dump the module immediately after inlining, to a file in DIR", "DIR");
    opt(&mut o, "", "dump-post-split", "dump modules immediately after multimodule splitting, to files in DIR", "DIR");
    opt(&mut o, "", "dump-spirt-passes", "dump the SPIR-T module across passes, to a (pair of) file(s) in DIR", "DIR");
    flag(&mut o, "", "spirt-strip-custom-debuginfo-from-dumps", "strip custom debuginfo instructions when dumping SPIR-T");
    flag(&mut o, "", "spirt-keep-debug-sources-in-dumps", "keep file contents debuginfo when dumping SPIR-T");
    flag(&mut o, "", "spirt-keep-unstructured-cfg-in-dumps", "include initial unstructured CFG when dumping SPIR-T");
    opt(&mut o, "", "specializer-dump-instances", "dump all instances inferred by the specializer, to FILE", "FILE");
    opt(&mut o, "", "dump-mir", "dump every MIR body codegen sees, to files in DIR", "DIR");
    opt(&mut o, "", "dump-module-on-panic", "if codegen panics, dump the (partially) emitted module, to FILE", "FILE");
    opt(&mut o, "", "dump-pre-link", "dump all input modules to the linker, to files in DIR", "DIR");
    opt(&mut o, "", "dump-post-link", "dump all output modules from the linker, to files in DIR", "DIR");
    o
}

} // verus!
