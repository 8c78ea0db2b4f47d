//! The text of each report.

use vstd::prelude::*;
use vstd::string::StringExecFns;
use crate::identity::{WindowsInfo, WindowsInfoView, RegistryValuesView, identity_of};

verus! {

/// One line that holds a value alone.
pub open spec fn plain_line(value: Seq<char>) -> Seq<char> {
    value + "\n"@
}

/// One line that holds a label, a tab and a value.
pub open spec fn labeled_line(label: Seq<char>, value: Seq<char>) -> Seq<char> {
    label + "\t"@ + value + "\n"@
}

/// The full report: the four fields in their fixed order, each under its full label.
pub open spec fn all_report(info: WindowsInfoView) -> Seq<char> {
    labeled_line("Distributor ID:"@, info.distributor_id)
        + labeled_line("Description:"@, info.description)
        + labeled_line("Release:"@, info.release)
        + labeled_line("Codename:"@, info.codename)
}

/// The short report: the four fields in the same order, each under its one-letter code.
pub open spec fn short_report(info: WindowsInfoView) -> Seq<char> {
    labeled_line("d"@, info.distributor_id)
        + labeled_line("p"@, info.description)
        + labeled_line("r"@, info.release)
        + labeled_line("c"@, info.codename)
}

/// The usage text: a heading, then one line of help for each option.
pub open spec fn usage_text() -> Seq<char> {
    plain_line("Usage: windows_release [options]"@)
        + plain_line("Options:"@)
        + plain_line("  -a, --all\t\tshow all information"@)
        + plain_line("  -s, --short\t\tshow information in short format"@)
        + plain_line("  -d, --description\tshow description only"@)
        + plain_line("  -r, --release\t\tshow release only"@)
        + plain_line("  -c, --codename\t\tshow codename only"@)
        + plain_line("  -i, --distributor-id\tshow distributor ID only"@)
}

/// Appends a line that holds `value` alone.
fn push_plain_line(text: &mut String, value: &str)
    ensures
        final(text)@ == old(text)@ + plain_line(value@),
{
    text.append(value);
    text.append("\n");
    assert(text@ =~= old(text)@ + plain_line(value@));
}

/// Appends a line that holds `label`, a tab and `value`.
fn push_labeled_line(text: &mut String, label: &str, value: &str)
    ensures
        final(text)@ == old(text)@ + labeled_line(label@, value@),
{
    text.append(label);
    text.append("\t");
    text.append(value);
    text.append("\n");
    assert(text@ =~= old(text)@ + labeled_line(label@, value@));
}

/// The line that a single-field mode prints: the value, with no label.
pub fn print_line(value: &str) -> (text: String)
    ensures
        text@ == plain_line(value@),
{
    let mut text = String::new();
    push_plain_line(&mut text, value);
    assert(text@ =~= plain_line(value@));
    text
}

/// The full report on `info`.
pub fn print_all(info: &WindowsInfo) -> (text: String)
    ensures
        text@ == all_report(info@),
{
    let mut text = String::new();
    push_labeled_line(&mut text, "Distributor ID:", info.distributor_id());
    push_labeled_line(&mut text, "Description:", info.description());
    push_labeled_line(&mut text, "Release:", info.release());
    push_labeled_line(&mut text, "Codename:", info.codename());
    assert(text@ =~= all_report(info@));
    text
}

/// The short report on `info`.
pub fn print_short(info: &WindowsInfo) -> (text: String)
    ensures
        text@ == short_report(info@),
{
    let mut text = String::new();
    push_labeled_line(&mut text, "d", info.distributor_id());
    push_labeled_line(&mut text, "p", info.description());
    push_labeled_line(&mut text, "r", info.release());
    push_labeled_line(&mut text, "c", info.codename());
    assert(text@ =~= short_report(info@));
    text
}

/// The usage text.
pub fn print_usage() -> (text: String)
    ensures
        text@ == usage_text(),
{
    let mut text = String::new();
    push_plain_line(&mut text, "Usage: windows_release [options]");
    push_plain_line(&mut text, "Options:");
    push_plain_line(&mut text, "  -a, --all\t\tshow all information");
    push_plain_line(&mut text, "  -s, --short\t\tshow information in short format");
    push_plain_line(&mut text, "  -d, --description\tshow description only");
    push_plain_line(&mut text, "  -r, --release\t\tshow release only");
    push_plain_line(&mut text, "  -c, --codename\t\tshow codename only");
    push_plain_line(&mut text, "  -i, --distributor-id\tshow distributor ID only");
    assert(text@ =~= usage_text());
    text
}

/// Written out, the full report on a set of registry values is the four
/// labelled lines with the values in their places.
pub proof fn lemma_all_report_text(values: RegistryValuesView)
    ensures
        all_report(identity_of(values)) == "Distributor ID:\tMicrosoft\nDescription:\t"@
            + values.product_name + "\nRelease:\t"@ + values.display_version + "."@
            + values.current_build + "\nCodename:\t"@ + values.release_id + "\n"@,
{
    reveal_strlit("Distributor ID:");
    reveal_strlit("Description:");
    reveal_strlit("Release:");
    reveal_strlit("Codename:");
    reveal_strlit("Microsoft");
    reveal_strlit("\t");
    reveal_strlit("\n");
    reveal_strlit(".");
    reveal_strlit("Distributor ID:\tMicrosoft\nDescription:\t");
    reveal_strlit("\nRelease:\t");
    reveal_strlit("\nCodename:\t");
    assert(all_report(identity_of(values)) =~= "Distributor ID:\tMicrosoft\nDescription:\t"@
        + values.product_name + "\nRelease:\t"@ + values.display_version + "."@
        + values.current_build + "\nCodename:\t"@ + values.release_id + "\n"@);
}

/// Written out, the short report on a set of registry values is the four
/// coded lines with the values in their places.
pub proof fn lemma_short_report_text(values: RegistryValuesView)
    ensures
        short_report(identity_of(values)) == "d\tMicrosoft\np\t"@ + values.product_name
            + "\nr\t"@ + values.display_version + "."@ + values.current_build + "\nc\t"@
            + values.release_id + "\n"@,
{
    reveal_strlit("d");
    reveal_strlit("p");
    reveal_strlit("r");
    reveal_strlit("c");
    reveal_strlit("Microsoft");
    reveal_strlit("\t");
    reveal_strlit("\n");
    reveal_strlit(".");
    reveal_strlit("d\tMicrosoft\np\t");
    reveal_strlit("\nr\t");
    reveal_strlit("\nc\t");
    assert(short_report(identity_of(values)) =~= "d\tMicrosoft\np\t"@ + values.product_name
        + "\nr\t"@ + values.display_version + "."@ + values.current_build + "\nc\t"@
        + values.release_id + "\n"@);
}

/// Written out, the usage text is this block of eight lines.
pub proof fn lemma_usage_text()
    ensures
        usage_text()
            == "Usage: windows_release [options]\nOptions:\n  -a, --all\t\tshow all information\n  -s, --short\t\tshow information in short format\n  -d, --description\tshow description only\n  -r, --release\t\tshow release only\n  -c, --codename\t\tshow codename only\n  -i, --distributor-id\tshow distributor ID only\n"@,
{
    reveal_strlit("\n");
    reveal_strlit("Usage: windows_release [options]");
    reveal_strlit("Options:");
    reveal_strlit("  -a, --all\t\tshow all information");
    reveal_strlit("  -s, --short\t\tshow information in short format");
    reveal_strlit("  -d, --description\tshow description only");
    reveal_strlit("  -r, --release\t\tshow release only");
    reveal_strlit("  -c, --codename\t\tshow codename only");
    reveal_strlit("  -i, --distributor-id\tshow distributor ID only");
    reveal_strlit(
        "Usage: windows_release [options]\nOptions:\n  -a, --all\t\tshow all information\n  -s, --short\t\tshow information in short format\n  -d, --description\tshow description only\n  -r, --release\t\tshow release only\n  -c, --codename\t\tshow codename only\n  -i, --distributor-id\tshow distributor ID only\n",
    );
    assert(usage_text()
        =~= "Usage: windows_release [options]\nOptions:\n  -a, --all\t\tshow all information\n  -s, --short\t\tshow information in short format\n  -d, --description\tshow description only\n  -r, --release\t\tshow release only\n  -c, --codename\t\tshow codename only\n  -i, --distributor-id\tshow distributor ID only\n"@);
}

} // verus!
