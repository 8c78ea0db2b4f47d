//! The output modes and the command-line flags that select them.

use vstd::prelude::*;
use vstd::string::StringExecFns;

verus! {

/// What the program is asked to print.
#[derive(Debug, PartialEq, Eq)]
pub enum OutputMode {
    /// Every field, each with its full label.
    All,
    /// Every field, each with its one-letter code.
    Short,
    /// The description alone.
    Description,
    /// The release alone.
    Release,
    /// The codename alone.
    Codename,
    /// The distributor alone.
    DistributorId,
    /// A flag that names no mode; it carries the flag as it was given.
    Unrecognized(String),
}

/// Mathematical content of [`OutputMode`].
pub enum OutputModeView {
    All,
    Short,
    Description,
    Release,
    Codename,
    DistributorId,
    Unrecognized(Seq<char>),
}

impl View for OutputMode {
    type V = OutputModeView;

    open spec fn view(&self) -> OutputModeView {
        match self {
            OutputMode::All => OutputModeView::All,
            OutputMode::Short => OutputModeView::Short,
            OutputMode::Description => OutputModeView::Description,
            OutputMode::Release => OutputModeView::Release,
            OutputMode::Codename => OutputModeView::Codename,
            OutputMode::DistributorId => OutputModeView::DistributorId,
            OutputMode::Unrecognized(flag) => OutputModeView::Unrecognized(flag@),
        }
    }
}

/// Whether `flag` is the short or the long spelling of an option.
pub open spec fn spells(flag: Seq<char>, short: Seq<char>, long: Seq<char>) -> bool {
    flag == short || flag == long
}

/// The mode that a flag selects.
pub open spec fn mode_of_flag(flag: Seq<char>) -> OutputModeView {
    if spells(flag, "-a"@, "--all"@) {
        OutputModeView::All
    } else if spells(flag, "-s"@, "--short"@) {
        OutputModeView::Short
    } else if spells(flag, "-d"@, "--description"@) {
        OutputModeView::Description
    } else if spells(flag, "-r"@, "--release"@) {
        OutputModeView::Release
    } else if spells(flag, "-c"@, "--codename"@) {
        OutputModeView::Codename
    } else if spells(flag, "-i"@, "--distributor-id"@) {
        OutputModeView::DistributorId
    } else {
        OutputModeView::Unrecognized(flag)
    }
}

/// The mode that a command line selects. The line starts with the program's
/// own name: only the argument right after it counts, and without one every
/// field is printed.
pub open spec fn mode_of_args(args: Seq<Seq<char>>) -> OutputModeView {
    if args.len() > 1 {
        mode_of_flag(args[1])
    } else {
        OutputModeView::All
    }
}

/// Compares two strings byte by byte.
fn same_text(a: &str, b: &str) -> (same: bool)
    ensures
        same == (a@ == b@),
{
    let x = a.as_bytes();
    let y = b.as_bytes();
    proof {
        // Equal encodings decode to equal texts.
        vstd::utf8::encode_utf8_decode_utf8(a@);
        vstd::utf8::encode_utf8_decode_utf8(b@);
    }
    if x.len() != y.len() {
        return false;
    }
    let mut i: usize = 0;
    while i < x.len()
        invariant
            i <= x.len(),
            x.len() == y.len(),
            forall|j: int| 0 <= j < i ==> x@[j] == y@[j],
            a@ == b@ ==> x@ == y@,
        decreases x.len() - i,
    {
        if x[i] != y[i] {
            return false;
        }
        i += 1;
    }
    assert(x@ =~= y@);
    true
}

/// Whether `flag` is one of the two spellings of an option.
fn is_option(flag: &str, short: &str, long: &str) -> (found: bool)
    ensures
        found == spells(flag@, short@, long@),
{
    same_text(flag, short) || same_text(flag, long)
}

impl OutputMode {
    /// Reads one flag.
    pub fn from_flag(flag: &str) -> (mode: OutputMode)
        ensures
            mode@ == mode_of_flag(flag@),
    {
        if is_option(flag, "-a", "--all") {
            OutputMode::All
        } else if is_option(flag, "-s", "--short") {
            OutputMode::Short
        } else if is_option(flag, "-d", "--description") {
            OutputMode::Description
        } else if is_option(flag, "-r", "--release") {
            OutputMode::Release
        } else if is_option(flag, "-c", "--codename") {
            OutputMode::Codename
        } else if is_option(flag, "-i", "--distributor-id") {
            OutputMode::DistributorId
        } else {
            OutputMode::Unrecognized(String::from_str(flag))
        }
    }

    /// Reads the command line, the program's own name first.
    pub fn from_args(args: &Vec<String>) -> (mode: OutputMode)
        ensures
            mode@ == mode_of_args(args.deep_view()),
    {
        if args.len() > 1 {
            OutputMode::from_flag(args[1].as_str())
        } else {
            OutputMode::All
        }
    }
}

/// Each of the twelve flags selects the mode it is documented for: no
/// spelling is shadowed by another.
pub proof fn lemma_flag_table()
    ensures
        mode_of_flag("-a"@) == OutputModeView::All,
        mode_of_flag("--all"@) == OutputModeView::All,
        mode_of_flag("-s"@) == OutputModeView::Short,
        mode_of_flag("--short"@) == OutputModeView::Short,
        mode_of_flag("-d"@) == OutputModeView::Description,
        mode_of_flag("--description"@) == OutputModeView::Description,
        mode_of_flag("-r"@) == OutputModeView::Release,
        mode_of_flag("--release"@) == OutputModeView::Release,
        mode_of_flag("-c"@) == OutputModeView::Codename,
        mode_of_flag("--codename"@) == OutputModeView::Codename,
        mode_of_flag("-i"@) == OutputModeView::DistributorId,
        mode_of_flag("--distributor-id"@) == OutputModeView::DistributorId,
{
    reveal_strlit("-a");
    reveal_strlit("--all");
    reveal_strlit("-s");
    reveal_strlit("--short");
    reveal_strlit("-d");
    reveal_strlit("--description");
    reveal_strlit("-r");
    reveal_strlit("--release");
    reveal_strlit("-c");
    reveal_strlit("--codename");
    reveal_strlit("-i");
    reveal_strlit("--distributor-id");
    // The short spellings differ in their letter, the long ones in their length.
    assert("-a"@.len() == 2 && "-a"@[1] == 'a');
    assert("-s"@.len() == 2 && "-s"@[1] == 's');
    assert("-d"@.len() == 2 && "-d"@[1] == 'd');
    assert("-r"@.len() == 2 && "-r"@[1] == 'r');
    assert("-c"@.len() == 2 && "-c"@[1] == 'c');
    assert("-i"@.len() == 2 && "-i"@[1] == 'i');
    assert("--all"@.len() == 5);
    assert("--short"@.len() == 7);
    assert("--description"@.len() == 13);
    assert("--release"@.len() == 9);
    assert("--codename"@.len() == 10);
    assert("--distributor-id"@.len() == 16);
}

} // verus!
