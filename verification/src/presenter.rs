//! What is shown for a successful run: the numbered list of environments,
//! and the table of the packages of one environment.

use vstd::prelude::*;
use vstd::string::*;

use crate::text::{
    contains_text, decimal, decimal_text, decimal_value, joined, lemma_decimal_value, occurs_in,
};

verus! {

/// Where the last segment of `text` begins: just after the last
/// `separator`, or at the start when there is none.
pub open spec fn segment_start(text: Seq<char>, separator: char) -> int
    decreases text.len(),
{
    if text.len() == 0 {
        0
    } else if text.last() == separator {
        text.len() as int
    } else {
        segment_start(text.drop_last(), separator)
    }
}

/// The last of the segments that `separator` divides `text` into.
pub open spec fn final_segment(text: Seq<char>, separator: char) -> Seq<char> {
    text.subrange(segment_start(text, separator), text.len() as int)
}

/// The last segment is the one suffix that holds no separator and stands
/// at the start of the text or just after a separator.
pub proof fn lemma_segment_start(text: Seq<char>, separator: char, start: int)
    ensures
        0 <= segment_start(text, separator) <= text.len(),
        forall|i: int| segment_start(text, separator) <= i < text.len() ==> text[i] != separator,
        segment_start(text, separator) == 0 || text[segment_start(text, separator) - 1]
            == separator,
        (0 <= start <= text.len() && (start == 0 || text[start - 1] == separator) && (forall|
            i: int,
        |
            start <= i < text.len() ==> text[i] != separator)) ==> start == segment_start(
            text,
            separator,
        ),
    decreases text.len(),
{
    if text.len() == 0 {
    } else if text.last() == separator {
    } else {
        let shorter = text.drop_last();
        lemma_segment_start(shorter, separator, start);
        let found = segment_start(shorter, separator);
        assert(forall|i: int| found <= i < shorter.len() ==> shorter[i] == text[i]);
        if 0 <= start <= text.len() && (start == 0 || text[start - 1] == separator) && (forall|
            i: int,
        |
            start <= i < text.len() ==> text[i] != separator) {
            assert(start < text.len()) by {
                if start == text.len() {
                    assert(text[start - 1] == text.last());
                }
            }
            assert(forall|i: int| start <= i < shorter.len() ==> shorter[i] == text[i]);
            assert(start == 0 || shorter[start - 1] == text[start - 1]);
        }
    }
}

/// The last of the segments that `separator` divides `text` into.
pub fn last_segment(text: &str, separator: char) -> (segment: String)
    ensures
        segment@ == final_segment(text@, separator),
{
    let length: usize = text.unicode_len();
    let mut start: usize = length;
    while start > 0 && text.get_char(start - 1) != separator
        invariant
            length == text@.len(),
            start <= length,
            forall|i: int| start <= i < length ==> text@[i] != separator,
        decreases start,
    {
        start = start - 1;
    }
    proof {
        lemma_segment_start(text@, separator, start as int);
    }
    text.substring_char(start, length).to_owned()
}

/// What `Path::file_name` gives for a path: its final component, or
/// nothing where the path ends in `..` or has no component to name. The
/// rules are those of the platform this library is built for.
pub uninterp spec fn path_file_name(path: Seq<char>) -> Option<Seq<char>>;

/// `Path::file_name` on a path given as text, the result as text again.
#[verifier::external_body]
fn file_name(path: &str) -> (name: Option<String>)
    ensures
        match name {
            Some(text) => path_file_name(path@) == Some(text@),
            None => path_file_name(path@) is None,
        },
{
    std::path::Path::new(path).file_name().and_then(|name| name.to_str()).map(String::from)
}

/// `std::path::MAIN_SEPARATOR`, the character that divides the components
/// of a path on the platform this library is built for. Nothing is
/// claimed of which character it is.
#[verifier::external_body]
fn main_separator() -> char {
    std::path::MAIN_SEPARATOR
}

/// The short name of a path, given what the platform says of it: the file
/// name where the path has one, else its last segment.
pub open spec fn short_name_of(
    path: Seq<char>,
    file_name: Option<Seq<char>>,
    separator: char,
) -> Seq<char> {
    match file_name {
        Some(name) => name,
        None => final_segment(path, separator),
    }
}

/// Whether `name` is the short name that an environment at `path` is
/// listed under.
pub open spec fn is_short_name(path: Seq<char>, name: Seq<char>) -> bool {
    exists|separator: char| name == #[trigger] short_name_of(path, path_file_name(path), separator)
}

/// Picks the short name of a path from what the platform says of it.
pub fn short_name_from(path: &str, file_name: Option<String>, separator: char) -> (name: String)
    ensures
        name@ == short_name_of(
            path@,
            match file_name {
                Some(text) => Some(text@),
                None => None,
            },
            separator,
        ),
{
    match file_name {
        Some(name) => name,
        None => last_segment(path, separator),
    }
}

/// The short name that an environment at `path` is listed under.
pub fn short_name(path: &str) -> (name: String)
    ensures
        is_short_name(path@, name@),
{
    let found = file_name(path);
    let separator = main_separator();
    let name = short_name_from(path, found, separator);
    assert(name@ == short_name_of(path@, path_file_name(path@), separator));
    name
}

/// The environments that `conda` manages, as paths in the order it gave
/// them.
#[derive(Debug, Clone, PartialEq, Eq)]
pub struct CondaEnvironments {
    pub envs: Vec<String>,
}

impl View for CondaEnvironments {
    type V = Seq<Seq<char>>;

    open spec fn view(&self) -> Seq<Seq<char>> {
        self.envs.deep_view()
    }
}

/// The line that lists one environment: its number, its short name and
/// its path.
pub open spec fn environment_line(number: nat, name: Seq<char>, path: Seq<char>) -> Seq<char> {
    decimal(number) + ". "@ + name + " ("@ + path + ")"@
}

/// Whether `line` lists the environment at `path` as the one numbered
/// `number`.
pub open spec fn lists_environment(line: Seq<char>, number: nat, path: Seq<char>) -> bool {
    exists|name: Seq<char>|
        is_short_name(path, name) && line == #[trigger] environment_line(number, name, path)
}

/// The line that closes the list of environments.
pub open spec fn environment_total(count: nat) -> Seq<char> {
    "Total environments: "@ + decimal(count)
}

/// Whether `report` is the listing of the environments at `paths`: a
/// heading of three lines, one line for each path in the order given,
/// numbered from 1, then an empty line and the total.
pub open spec fn is_environment_report(report: Seq<Seq<char>>, paths: Seq<Seq<char>>) -> bool {
    &&& report.len() == paths.len() + 5
    &&& report[0] == ""@
    &&& report[1] == "Available Conda environments:"@
    &&& report[2] == "-------------------------------"@
    &&& forall|i: int|
        0 <= i < paths.len() ==> lists_environment(#[trigger] report[i + 3], (i + 1) as nat, paths[i])
    &&& report[paths.len() as int + 3] == ""@
    &&& report[paths.len() as int + 4] == environment_total(paths.len())
}

/// In the listing of `paths`, the line of each path begins with its place
/// in the list, counted from 1 and written in decimal, so the numbers rise
/// by one from line to line; each line ends with its path in brackets; and
/// the total names the number of paths.
pub proof fn lemma_environment_report_numbered(
    report: Seq<Seq<char>>,
    paths: Seq<Seq<char>>,
    i: int,
)
    requires
        is_environment_report(report, paths),
        0 <= i < paths.len(),
    ensures
        report.len() == paths.len() + 5,
        decimal((i + 1) as nat).is_prefix_of(report[i + 3]),
        decimal_value(decimal((i + 1) as nat)) == i + 1,
        (" ("@ + paths[i] + ")"@).is_suffix_of(report[i + 3]),
        report[paths.len() as int + 4] == "Total environments: "@ + decimal(paths.len()),
        decimal_value(decimal(paths.len())) == paths.len(),
{
    lemma_decimal_value((i + 1) as nat);
    lemma_decimal_value(paths.len());
    let line = report[i + 3];
    assert(lists_environment(line, (i + 1) as nat, paths[i]));
    let name = choose|name: Seq<char>|
        is_short_name(paths[i], name) && line == #[trigger] environment_line(
            (i + 1) as nat,
            name,
            paths[i],
        );
    let number = decimal((i + 1) as nat);
    let tail = " ("@ + paths[i] + ")"@;
    assert(line =~= number + (". "@ + name + tail));
    assert(line.subrange(0, number.len() as int) =~= number);
    assert(line =~= (number + ". "@ + name) + tail);
    assert(line.subrange(line.len() - tail.len(), line.len() as int) =~= tail);
}

/// Writes the line that lists one environment.
pub fn environment_line_text(number: usize, name: &str, path: &str) -> (line: String)
    ensures
        line@ == environment_line(number as nat, name@, path@),
{
    let mut line = decimal_text(number as u64);
    line.append(". ");
    line.append(name);
    line.append(" (");
    line.append(path);
    line.append(")");
    line
}

/// Writes the line that closes the list of environments.
pub fn environment_total_text(count: usize) -> (line: String)
    ensures
        line@ == environment_total(count as nat),
{
    let number = decimal_text(count as u64);
    joined("Total environments: ", number.as_str())
}

impl CondaEnvironments {
    /// The lines to write for this list, each followed by a line break.
    pub fn report(&self) -> (report: Vec<String>)
        ensures
            is_environment_report(report.deep_view(), self@),
    {
        let mut report: Vec<String> = Vec::new();
        report.push(String::from_str(""));
        report.push(String::from_str("Available Conda environments:"));
        report.push(String::from_str("-------------------------------"));
        let count: usize = self.envs.len();
        let mut position: usize = 0;
        while position < count
            invariant
                count == self.envs.len(),
                position <= count,
                report.len() == position + 3,
                report[0]@ == ""@,
                report[1]@ == "Available Conda environments:"@,
                report[2]@ == "-------------------------------"@,
                forall|i: int|
                    0 <= i < position ==> lists_environment(
                        #[trigger] report[i + 3]@,
                        (i + 1) as nat,
                        self.envs[i]@,
                    ),
            decreases count - position,
        {
            let path = self.envs[position].as_str();
            let name = short_name(path);
            let line = environment_line_text(position + 1, name.as_str(), path);
            assert(lists_environment(line@, (position + 1) as nat, path@)) by {
                assert(line@ == environment_line((position + 1) as nat, name@, path@));
            }
            let ghost before = report@;
            report.push(line);
            assert(forall|i: int| 0 <= i < position + 3 ==> report[i] == before[i]);
            position = position + 1;
        }
        report.push(String::from_str(""));
        report.push(environment_total_text(count));
        proof {
            let shown = report.deep_view();
            let paths = self@;
            assert(shown.len() == paths.len() + 5);
            assert forall|i: int| 0 <= i < paths.len() implies lists_environment(
                #[trigger] shown[i + 3],
                (i + 1) as nat,
                paths[i],
            ) by {
                assert(shown[i + 3] == report[i + 3]@);
                assert(paths[i] == self.envs[i]@);
            }
        }
        report
    }
}

/// One installed package, as `conda` describes it.
#[derive(Debug, Clone, PartialEq, Eq)]
pub struct CondaPackage {
    pub name: String,
    pub version: String,
    /// The repository the package was installed from.
    pub channel: String,
}

/// A [`CondaPackage`] as a mathematical value.
pub struct PackageView {
    pub name: Seq<char>,
    pub version: Seq<char>,
    pub channel: Seq<char>,
}

impl View for CondaPackage {
    type V = PackageView;

    open spec fn view(&self) -> PackageView {
        PackageView { name: self.name@, version: self.version@, channel: self.channel@ }
    }
}

impl DeepView for CondaPackage {
    type V = PackageView;

    open spec fn deep_view(&self) -> PackageView {
        self@
    }
}

/// The first row of the package table.
pub open spec fn header_row() -> Seq<Seq<char>> {
    seq!["Name"@, "Version"@, "Channel"@]
}

/// The row of one package.
pub open spec fn package_row(package: PackageView) -> Seq<Seq<char>> {
    seq![package.name, package.version, package.channel]
}

/// The rows of the package table: the header, then one row for each
/// package in the order given.
pub open spec fn package_rows(packages: Seq<PackageView>) -> Seq<Seq<Seq<char>>> {
    Seq::new(
        packages.len() + 1,
        |i: int|
            if i == 0 {
                header_row()
            } else {
                package_row(packages[i - 1])
            },
    )
}

/// Whether a cell text starts a terminal control sequence somewhere: an
/// escape character followed by an opening square bracket.
pub open spec fn has_control_sequence(text: Seq<char>) -> bool {
    occurs_in("\u{1b}["@, text)
}

/// Whether no cell of a table starts a terminal control sequence.
pub open spec fn is_plain_table(rows: Seq<Seq<Seq<char>>>) -> bool {
    forall|i: int, j: int|
        0 <= i < rows.len() && 0 <= j < rows[i].len() ==> !has_control_sequence(
            #[trigger] rows[i][j],
        )
}

/// Whether no field of a package starts a terminal control sequence.
pub open spec fn is_plain_package(package: PackageView) -> bool {
    &&& !has_control_sequence(package.name)
    &&& !has_control_sequence(package.version)
    &&& !has_control_sequence(package.channel)
}

/// Whether every package of a list can be laid out in a table.
pub open spec fn are_plain_packages(packages: Seq<PackageView>) -> bool {
    forall|i: int| 0 <= i < packages.len() ==> is_plain_package(#[trigger] packages[i])
}

/// The text that `prettytable` lays a table out as, in its default format:
/// a grid of `+`, `-` and `|` around the cells, each column as wide as its
/// widest cell, each line ended by a line break.
pub uninterp spec fn table_text(rows: Seq<Seq<Seq<char>>>) -> Seq<char>;

/// Builds a `prettytable::Table` of the rows, one cell for each text, and
/// gives the text that its `Display` writes. The text is a function of the
/// rows alone. Cells that start a terminal control sequence are left out:
/// the crate measures those in a way that can end in a panic.
#[verifier::external_body]
fn render_rows(rows: &Vec<Vec<String>>) -> (text: String)
    requires
        is_plain_table(rows.deep_view()),
    ensures
        text@ == table_text(rows.deep_view()),
{
    prettytable::Table::from(rows).to_string()
}

/// The line that closes the list of packages.
pub open spec fn package_total(count: nat) -> Seq<char> {
    "Total packages: "@ + decimal(count)
}

/// Everything that is written for a list of packages: the table, an empty
/// line and the total.
pub open spec fn package_report_text(packages: Seq<PackageView>) -> Seq<char> {
    table_text(package_rows(packages)) + "\n"@ + package_total(packages.len()) + "\n"@
}

/// A text without an escape character starts no control sequence.
proof fn lemma_no_escape_is_plain(text: Seq<char>)
    requires
        forall|i: int| 0 <= i < text.len() ==> text[i] != '\u{1b}',
    ensures
        !has_control_sequence(text),
{
    reveal_strlit("\u{1b}[");
    let needle = "\u{1b}["@;
    assert forall|start: int| 0 <= start && start + needle.len() <= text.len() implies #[trigger] text.subrange(
        start,
        start + needle.len(),
    ) != needle by {
        assert(text.subrange(start, start + needle.len())[0] == text[start]);
    }
}

/// The table of a list of plain packages is plain, and only of those.
pub proof fn lemma_plain_packages(packages: Seq<PackageView>)
    ensures
        is_plain_table(package_rows(packages)) == are_plain_packages(packages),
{
    reveal_strlit("Name");
    reveal_strlit("Version");
    reveal_strlit("Channel");
    lemma_no_escape_is_plain("Name"@);
    lemma_no_escape_is_plain("Version"@);
    lemma_no_escape_is_plain("Channel"@);
    let rows = package_rows(packages);
    if are_plain_packages(packages) {
        assert forall|i: int, j: int| 0 <= i < rows.len() && 0 <= j < rows[i].len() implies !has_control_sequence(
            #[trigger] rows[i][j],
        ) by {
            if i > 0 {
                assert(is_plain_package(packages[i - 1]));
            }
        }
    }
    if is_plain_table(rows) {
        assert forall|i: int| 0 <= i < packages.len() implies is_plain_package(
            #[trigger] packages[i],
        ) by {
            let row = rows[i + 1];
            assert(row == package_row(packages[i]));
            assert(!has_control_sequence(rows[i + 1][0]));
            assert(!has_control_sequence(rows[i + 1][1]));
            assert(!has_control_sequence(rows[i + 1][2]));
        }
    }
}

/// The table has one row for each package after the header row, in the
/// order of the packages, and its columns are name, version and channel.
pub proof fn lemma_package_rows(packages: Seq<PackageView>)
    ensures
        package_rows(packages).len() == packages.len() + 1,
        package_rows(packages)[0] == seq!["Name"@, "Version"@, "Channel"@],
        forall|i: int|
            0 <= i < packages.len() ==> #[trigger] package_rows(packages)[i + 1] == seq![
                packages[i].name,
                packages[i].version,
                packages[i].channel,
            ],
{
}

/// Whether a text starts a terminal control sequence somewhere.
pub fn starts_control_sequence(text: &str) -> (found: bool)
    ensures
        found == has_control_sequence(text@),
{
    contains_text(text, "\u{1b}[")
}

impl CondaPackage {
    /// Whether no field of the package starts a terminal control sequence.
    pub fn is_plain(&self) -> (plain: bool)
        ensures
            plain == is_plain_package(self@),
    {
        !starts_control_sequence(self.name.as_str()) && !starts_control_sequence(
            self.version.as_str(),
        ) && !starts_control_sequence(self.channel.as_str())
    }
}

/// Whether every package of a list can be laid out in a table.
pub fn all_plain(packages: &Vec<CondaPackage>) -> (plain: bool)
    ensures
        plain == are_plain_packages(packages.deep_view()),
{
    let mut position: usize = 0;
    while position < packages.len()
        invariant
            position <= packages.len(),
            forall|i: int| 0 <= i < position ==> is_plain_package(#[trigger] packages[i]@),
        decreases packages.len() - position,
    {
        if !packages[position].is_plain() {
            assert(!is_plain_package(packages.deep_view()[position as int]));
            return false;
        }
        position = position + 1;
    }
    assert forall|i: int| 0 <= i < packages.len() implies is_plain_package(
        #[trigger] packages.deep_view()[i],
    ) by {
        assert(is_plain_package(packages[i]@));
    }
    true
}

/// The rows of the package table, as texts.
pub fn table_rows(packages: &Vec<CondaPackage>) -> (rows: Vec<Vec<String>>)
    ensures
        rows.deep_view() == package_rows(packages.deep_view()),
{
    let mut header: Vec<String> = Vec::new();
    header.push(String::from_str("Name"));
    header.push(String::from_str("Version"));
    header.push(String::from_str("Channel"));
    assert(header.deep_view() =~= header_row());
    let mut rows: Vec<Vec<String>> = Vec::new();
    rows.push(header);
    let mut position: usize = 0;
    while position < packages.len()
        invariant
            position <= packages.len(),
            rows.len() == position + 1,
            rows[0].deep_view() == header_row(),
            forall|i: int|
                0 <= i < position ==> (#[trigger] rows[i + 1]).deep_view() == package_row(
                    packages[i]@,
                ),
        decreases packages.len() - position,
    {
        let package = &packages[position];
        let mut row: Vec<String> = Vec::new();
        row.push(package.name.clone());
        row.push(package.version.clone());
        row.push(package.channel.clone());
        assert(row.deep_view() =~= package_row(package@));
        let ghost before = rows@;
        rows.push(row);
        assert(forall|i: int| 0 <= i < position + 1 ==> rows[i] == before[i]);
        position = position + 1;
    }
    proof {
        let shown = rows.deep_view();
        let wanted = package_rows(packages.deep_view());
        assert(shown.len() == wanted.len());
        assert forall|i: int| 0 <= i < shown.len() implies shown[i] == wanted[i] by {
            if i > 0 {
                assert(rows[(i - 1) + 1].deep_view() == package_row(packages[i - 1]@));
            }
        }
        assert(shown =~= wanted);
    }
    rows
}

/// The table of a list of packages, laid out as text. There is none where a
/// field of a package starts a terminal control sequence.
pub fn package_table(packages: &Vec<CondaPackage>) -> (table: Option<String>)
    ensures
        table is Some <==> are_plain_packages(packages.deep_view()),
        table matches Some(text) ==> text@ == table_text(package_rows(packages.deep_view())),
{
    if all_plain(packages) {
        let rows = table_rows(packages);
        proof {
            lemma_plain_packages(packages.deep_view());
        }
        Some(render_rows(&rows))
    } else {
        None
    }
}

/// Writes the line that closes the list of packages.
pub fn package_total_text(count: usize) -> (line: String)
    ensures
        line@ == package_total(count as nat),
{
    let number = decimal_text(count as u64);
    joined("Total packages: ", number.as_str())
}

/// Everything to write for a list of packages, as one text. There is none
/// where a field of a package starts a terminal control sequence.
pub fn package_report(packages: &Vec<CondaPackage>) -> (report: Option<String>)
    ensures
        report is Some <==> are_plain_packages(packages.deep_view()),
        report matches Some(text) ==> text@ == package_report_text(packages.deep_view()),
{
    match package_table(packages) {
        Some(table) => {
            let mut text = table;
            text.append("\n");
            let total = package_total_text(packages.len());
            text.append(total.as_str());
            text.append("\n");
            Some(text)
        },
        None => None,
    }
}

} // verus!
