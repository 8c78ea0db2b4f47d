//! The whole run: from the command line and what the registry gave to what
//! is written on the two streams and the exit status.

use vstd::prelude::*;
use vstd::string::StringExecFns;
use crate::identity::{RegistryValues, RegistryValuesView, WindowsInfo, WindowsInfoView};
use crate::mode::{OutputMode, OutputModeView, lemma_flag_table, mode_of_args, mode_of_flag, spells};
use crate::render::{
    all_report, lemma_all_report_text, lemma_short_report_text, plain_line, print_all, print_line,
    print_short, print_usage, short_report, usage_text,
};
use crate::retrieve::{RetrievalError, error_report, fetched_view, get_windows_info, retrieved};

verus! {

/// The exit status of a run that printed what was asked for.
pub const EXIT_SUCCESS: i32 = 0;

/// The exit status of a run that could not fetch the identification.
pub const EXIT_RETRIEVAL_FAILED: i32 = 1;

/// The exit status of a run that was given a flag it does not know.
pub const EXIT_UNKNOWN_OPTION: i32 = 2;

/// Everything a run hands to its caller.
#[derive(Debug, PartialEq, Eq)]
pub struct Output {
    /// The text for standard output.
    pub stdout: String,
    /// The text for the error stream.
    pub stderr: String,
    /// The exit status.
    pub status: i32,
}

/// Mathematical content of [`Output`].
pub struct OutputView {
    pub stdout: Seq<char>,
    pub stderr: Seq<char>,
    pub status: i32,
}

impl View for Output {
    type V = OutputView;

    open spec fn view(&self) -> OutputView {
        OutputView { stdout: self.stdout@, stderr: self.stderr@, status: self.status }
    }
}

/// The line that reports a flag that names no mode.
pub open spec fn unknown_option_report(flag: Seq<char>) -> Seq<char> {
    "Unknown option: "@ + flag + "\n"@
}

/// A successful run that prints `stdout` and nothing else.
pub open spec fn success(stdout: Seq<char>) -> OutputView {
    OutputView { stdout, stderr: Seq::empty(), status: EXIT_SUCCESS }
}

/// What a run does with the identification once it has it.
pub open spec fn rendered(info: WindowsInfoView, mode: OutputModeView) -> OutputView {
    match mode {
        OutputModeView::All => success(all_report(info)),
        OutputModeView::Short => success(short_report(info)),
        OutputModeView::Description => success(plain_line(info.description)),
        OutputModeView::Release => success(plain_line(info.release)),
        OutputModeView::Codename => success(plain_line(info.codename)),
        OutputModeView::DistributorId => success(plain_line(info.distributor_id)),
        OutputModeView::Unrecognized(flag) => OutputView {
            stdout: usage_text(),
            stderr: unknown_option_report(flag),
            status: EXIT_UNKNOWN_OPTION,
        },
    }
}

/// What a run does, given its command line and what the registry gave. The
/// identification is fetched before the command line is looked at, so a
/// failed fetch is reported whatever the flag.
pub open spec fn program_output(
    args: Seq<Seq<char>>,
    fetched: Result<RegistryValuesView, Seq<char>>,
) -> OutputView {
    match retrieved(fetched) {
        Ok(info) => rendered(info, mode_of_args(args)),
        Err(cause) => OutputView {
            stdout: Seq::empty(),
            stderr: error_report(cause),
            status: EXIT_RETRIEVAL_FAILED,
        },
    }
}

/// A successful run that prints `stdout`.
fn printed(stdout: String) -> (out: Output)
    ensures
        out@ == success(stdout@),
{
    Output { stdout, stderr: String::new(), status: EXIT_SUCCESS }
}

/// Renders `info` in the given mode.
pub fn render(info: &WindowsInfo, mode: &OutputMode) -> (out: Output)
    ensures
        out@ == rendered(info@, mode@),
{
    match mode {
        OutputMode::All => printed(print_all(info)),
        OutputMode::Short => printed(print_short(info)),
        OutputMode::Description => printed(print_line(info.description())),
        OutputMode::Release => printed(print_line(info.release())),
        OutputMode::Codename => printed(print_line(info.codename())),
        OutputMode::DistributorId => printed(print_line(info.distributor_id())),
        OutputMode::Unrecognized(flag) => {
            let mut stderr = String::from_str("Unknown option: ");
            stderr.append(flag.as_str());
            stderr.append("\n");
            Output { stdout: print_usage(), stderr, status: EXIT_UNKNOWN_OPTION }
        },
    }
}

/// Runs the program on its command line, the program's own name first, and
/// on what was fetched from the registry.
pub fn run(args: &Vec<String>, fetched: Result<RegistryValues, RetrievalError>) -> (out: Output)
    ensures
        out@ == program_output(args.deep_view(), fetched_view(fetched)),
{
    match get_windows_info(fetched) {
        Ok(info) => {
            let mode = OutputMode::from_args(args);
            render(&info, &mode)
        },
        Err(error) => Output {
            stdout: String::new(),
            stderr: error.report(),
            status: EXIT_RETRIEVAL_FAILED,
        },
    }
}

/// With `-a`, with `--all` or without any argument, a run on fetched values
/// prints the four labelled lines, the values in their places, writes nothing
/// to the error stream and succeeds.
pub proof fn lemma_all_mode_output(args: Seq<Seq<char>>, values: RegistryValuesView)
    requires
        args.len() <= 1 || spells(args[1], "-a"@, "--all"@),
    ensures
        program_output(args, Ok(values)) == success(
            "Distributor ID:\tMicrosoft\nDescription:\t"@ + values.product_name
                + "\nRelease:\t"@ + values.display_version + "."@ + values.current_build
                + "\nCodename:\t"@ + values.release_id + "\n"@,
        ),
{
    lemma_all_report_text(values);
}

/// With `-s` or `--short`, a run on fetched values prints the four coded
/// lines, the values in their places, writes nothing to the error stream and
/// succeeds.
pub proof fn lemma_short_mode_output(args: Seq<Seq<char>>, values: RegistryValuesView)
    requires
        args.len() > 1,
        spells(args[1], "-s"@, "--short"@),
    ensures
        program_output(args, Ok(values)) == success(
            "d\tMicrosoft\np\t"@ + values.product_name + "\nr\t"@ + values.display_version
                + "."@ + values.current_build + "\nc\t"@ + values.release_id + "\n"@,
        ),
{
    lemma_flag_table();
    lemma_short_report_text(values);
}

/// With the flag of a single field, a run on fetched values prints that
/// field on a line of its own, without a label, and nothing else.
pub proof fn lemma_single_field_output(args: Seq<Seq<char>>, values: RegistryValuesView)
    requires
        args.len() > 1,
    ensures
        spells(args[1], "-d"@, "--description"@) ==> program_output(args, Ok(values)) == success(
            values.product_name + "\n"@,
        ),
        spells(args[1], "-r"@, "--release"@) ==> program_output(args, Ok(values)) == success(
            values.display_version + "."@ + values.current_build + "\n"@,
        ),
        spells(args[1], "-c"@, "--codename"@) ==> program_output(args, Ok(values)) == success(
            values.release_id + "\n"@,
        ),
        spells(args[1], "-i"@, "--distributor-id"@) ==> program_output(args, Ok(values))
            == success("Microsoft"@ + "\n"@),
{
    lemma_flag_table();
}

/// A line that holds a value is the value and one line break after it; where
/// the value holds no line break itself, that is the only one.
pub proof fn lemma_plain_line_is_one_line(value: Seq<char>)
    ensures
        plain_line(value).len() == value.len() + 1,
        plain_line(value).drop_last() == value,
        plain_line(value).last() == '\n',
        !value.contains('\n') ==> forall|i: int|
            0 <= i < plain_line(value).len() && plain_line(value)[i] == '\n' ==> i == value.len(),
{
    reveal_strlit("\n");
    assert(plain_line(value).drop_last() =~= value);
    if !value.contains('\n') {
        assert forall|i: int|
            0 <= i < plain_line(value).len() && plain_line(value)[i] == '\n' implies i
            == value.len() by {
            if i < value.len() {
                assert(value[i] == '\n');
            }
        }
    }
}

/// A run without any argument does exactly what a run with `-a` does.
pub proof fn lemma_no_argument_is_all(
    bare: Seq<Seq<char>>,
    flagged: Seq<Seq<char>>,
    fetched: Result<RegistryValuesView, Seq<char>>,
)
    requires
        bare.len() <= 1,
        flagged.len() > 1,
        flagged[1] == "-a"@,
    ensures
        program_output(bare, fetched) == program_output(flagged, fetched),
{
}

/// Only the first argument counts: two command lines that agree on it give
/// the same run.
pub proof fn lemma_only_first_argument_counts(
    args: Seq<Seq<char>>,
    other: Seq<Seq<char>>,
    fetched: Result<RegistryValuesView, Seq<char>>,
)
    requires
        args.len() > 1,
        other.len() > 1,
        args[1] == other[1],
    ensures
        program_output(args, fetched) == program_output(other, fetched),
{
}

/// A flag that is none of the twelve is reported on the error stream, the
/// usage text goes to standard output, and the run fails with a status of
/// its own.
pub proof fn lemma_unknown_option_output(args: Seq<Seq<char>>, values: RegistryValuesView)
    requires
        args.len() > 1,
        mode_of_flag(args[1]) is Unrecognized,
    ensures
        program_output(args, Ok(values)) == (OutputView {
            stdout: usage_text(),
            stderr: "Unknown option: "@ + args[1] + "\n"@,
            status: 2,
        }),
{
}

/// Where the fetch failed, the run writes one line to the error stream,
/// `Error: ` and the cause, prints nothing and ends with status 1, whatever
/// the command line.
pub proof fn lemma_retrieval_failure_output(args: Seq<Seq<char>>, cause: Seq<char>)
    ensures
        program_output(args, Err(cause)) == (OutputView {
            stdout: Seq::empty(),
            stderr: "Error: "@ + cause + "\n"@,
            status: 1,
        }),
{
}

/// The exit status tells the three outcomes apart, and the error stream is
/// written to exactly when the run fails.
pub proof fn lemma_exit_status(
    args: Seq<Seq<char>>,
    fetched: Result<RegistryValuesView, Seq<char>>,
)
    ensures
        program_output(args, fetched).status == EXIT_RETRIEVAL_FAILED <==> fetched is Err,
        program_output(args, fetched).status == EXIT_UNKNOWN_OPTION <==> fetched is Ok
            && mode_of_args(args) is Unrecognized,
        program_output(args, fetched).status == EXIT_SUCCESS <==> fetched is Ok && !(mode_of_args(
            args,
        ) is Unrecognized),
        program_output(args, fetched).status == EXIT_SUCCESS <==> program_output(
            args,
            fetched,
        ).stderr.len() == 0,
{
    reveal_strlit("\n");
}

} // verus!
