//! The commands. Each one turns its arguments into the status line that the
//! front end prints; `build` also plans the run of the build script, and
//! `BuildReport` says how the build ends once the script has run.

use crate::text::{flag_text, flag_word, join, joined, lemma_joined_nonempty};
use vstd::prelude::*;

verus! {

/// The text of an optional argument: the argument where it was given, the
/// placeholder where it was not.
pub open spec fn or_placeholder(given: Option<Seq<char>>, placeholder: Seq<char>) -> Seq<char> {
    match given {
        Some(text) => text,
        None => placeholder,
    }
}

/// The text of a list of words that a command cannot do without: the words
/// joined by single spaces, or the placeholder where the list is empty.
pub open spec fn words_or_placeholder(words: Seq<Seq<char>>, placeholder: Seq<char>) -> Seq<char> {
    if words.len() == 0 {
        placeholder
    } else {
        joined(words, " "@)
    }
}

fn text_or(given: Option<&str>, placeholder: &'static str) -> (text: String)
    ensures
        text@ == or_placeholder(given.deep_view(), placeholder@),
{
    match given {
        Some(word) => String::from_str(word),
        None => String::from_str(placeholder),
    }
}

fn list_or(words: &Vec<&str>, placeholder: &'static str) -> (text: String)
    ensures
        text@ == words_or_placeholder(words.deep_view(), placeholder@),
{
    if words.len() == 0 {
        String::from_str(placeholder)
    } else {
        join(words, " ")
    }
}

/// The line of `add`: the block, then where it comes from.
pub fn add(block: &str, git: Option<&str>, path: Option<&str>) -> (line: String)
    ensures
        line@ == "add "@ + block@ + " "@ + or_placeholder(git.deep_view(), "(no git)"@) + " "@
            + or_placeholder(path.deep_view(), "(no path)"@),
{
    let mut line = String::from_str("add ");
    line.append(block);
    line.append(" ");
    let git_value = text_or(git, "(no git)");
    line.append(git_value.as_str());
    line.append(" ");
    let path_value = text_or(path, "(no path)");
    line.append(path_value.as_str());
    line
}

/// The line of `update`: the blocks named, or a note that all are meant. A
/// list that was given is shown as it is, even where it is empty.
pub fn update(blocks: Option<Vec<&str>>) -> (line: String)
    ensures
        line@ == "update "@ + (match blocks {
            Some(names) => joined(names.deep_view(), " "@),
            None => "(all blocks)"@,
        }),
{
    let mut line = String::from_str("update ");
    match blocks {
        Some(names) => {
            let blocks_value = join(&names, " ");
            line.append(blocks_value.as_str());
        },
        None => {
            line.append("(all blocks)");
        },
    }
    line
}

/// The line of `remove`: the blocks named.
pub fn remove(blocks: Vec<&str>) -> (line: String)
    ensures
        line@ == "remove "@ + joined(blocks.deep_view(), " "@),
{
    let mut line = String::from_str("remove ");
    let blocks_value = join(&blocks, " ");
    line.append(blocks_value.as_str());
    line
}

/// What `build` is told.
#[derive(Clone, Debug, PartialEq, Eq)]
pub struct BuildOptions<'a> {
    pub release: bool,
    /// The features to switch on, in the order given; `None` stands for none.
    pub features: Option<Vec<&'a str>>,
    pub all_features: bool,
    pub no_default_features: bool,
}

impl<'a> BuildOptions<'a> {
    /// The features asked for, in order.
    pub open spec fn feature_names(&self) -> Seq<Seq<char>> {
        match self.features {
            Some(names) => names.deep_view(),
            None => Seq::empty(),
        }
    }

    /// Options are well formed when every feature they name has a name.
    /// `build` does not look: it plans the same way for any options.
    pub open spec fn well_formed(&self) -> bool {
        forall|i: int|
            0 <= i < self.feature_names().len() ==> (#[trigger] self.feature_names()[i]).len() > 0
    }

    /// The line that announces the build.
    pub open spec fn banner(&self) -> Seq<char> {
        "Build, release: "@ + flag_text(self.release) + ", features: "@ + words_or_placeholder(
            self.feature_names(),
            "(no features)"@,
        ) + ", all-features: "@ + flag_text(self.all_features) + ", no-default-features: "@
            + flag_text(self.no_default_features)
    }
}

/// Well-formed options that name a feature never announce an empty list of
/// features: the banner then shows the names, joined by single spaces, and
/// that text is not empty.
pub proof fn lemma_named_features_are_shown(options: BuildOptions)
    requires
        options.well_formed(),
        options.feature_names().len() > 0,
    ensures
        words_or_placeholder(options.feature_names(), "(no features)"@) == joined(
            options.feature_names(),
            " "@,
        ),
        joined(options.feature_names(), " "@).len() > 0,
{
    lemma_joined_nonempty(options.feature_names(), " "@);
}

/// What a build does before its outcome is known: the line to print, then
/// the subcommand and the arguments to hand to the script runner.
#[derive(Clone, Debug, PartialEq, Eq)]
pub struct BuildPlan<'a> {
    pub banner: String,
    pub command: &'static str,
    pub args: Vec<&'a str>,
}

/// Plans a build: announces the options, and has the script runner carry out
/// `build` with the features as its arguments, in the order given.
pub fn build<'a>(options: BuildOptions<'a>) -> (plan: BuildPlan<'a>)
    ensures
        plan.banner@ == options.banner(),
        plan.command@ == "build"@,
        plan.args.deep_view() == options.feature_names(),
{
    let release = options.release;
    let all_features = options.all_features;
    let no_default_features = options.no_default_features;
    let features: Vec<&'a str> = match options.features {
        Some(names) => names,
        None => Vec::new(),
    };
    proof {
        assert(features.deep_view() =~= options.feature_names());
    }
    let mut banner = String::from_str("Build, release: ");
    banner.append(flag_word(release));
    banner.append(", features: ");
    let feature_value = list_or(&features, "(no features)");
    banner.append(feature_value.as_str());
    banner.append(", all-features: ");
    banner.append(flag_word(all_features));
    banner.append(", no-default-features: ");
    banner.append(flag_word(no_default_features));
    BuildPlan { banner, command: "build", args: features }
}

/// How a build ends: the lines to print, in order, and the status with which
/// the program then exits.
#[derive(Clone, Debug, PartialEq, Eq)]
pub struct BuildReport {
    pub lines: Vec<String>,
    pub exit_code: i32,
}

/// Ends a build on what the script runner made of the run. Success prints
/// the script's output and `Done.` and exits with 0; failure prints the
/// error behind `ERROR: ` and exits with 1.
pub fn build_report(result: Result<String, String>) -> (report: BuildReport)
    ensures
        match result {
            Ok(out) => report.lines.deep_view() == seq![out@, "Done."@] && report.exit_code == 0,
            Err(err) => report.lines.deep_view() == seq!["ERROR: "@ + err@] && report.exit_code
                == 1,
        },
{
    let mut lines: Vec<String> = Vec::new();
    match result {
        Ok(out) => {
            lines.push(out);
            lines.push(String::from_str("Done."));
            let report = BuildReport { lines, exit_code: 0 };
            proof {
                assert(report.lines.deep_view() =~= seq![out@, "Done."@]);
            }
            report
        },
        Err(err) => {
            let mut line = String::from_str("ERROR: ");
            line.append(err.as_str());
            lines.push(line);
            let report = BuildReport { lines, exit_code: 1 };
            proof {
                assert(report.lines.deep_view() =~= seq!["ERROR: "@ + err@]);
            }
            report
        },
    }
}

/// The line of `test`: the filters, or a note that there are none.
pub fn test(filters: Vec<&str>) -> (line: String)
    ensures
        line@ == "test, filters: "@ + words_or_placeholder(filters.deep_view(), "(no filters)"@),
{
    let mut line = String::from_str("test, filters: ");
    let filter_value = list_or(&filters, "(no filters)");
    line.append(filter_value.as_str());
    line
}

/// The line of `init`: the name, or a note that none was given.
pub fn init(name: Option<&str>) -> (line: String)
    ensures
        line@ == "init, name: "@ + or_placeholder(name.deep_view(), "(no name)"@),
{
    let mut line = String::from_str("init, name: ");
    let name_value = text_or(name, "(no name)");
    line.append(name_value.as_str());
    line
}

/// The line of `version`.
pub fn version(number: &str) -> (line: String)
    ensures
        line@ == "version "@ + number@,
{
    let mut line = String::from_str("version ");
    line.append(number);
    line
}

/// What `publish` is told.
#[derive(Clone, Copy, Debug, PartialEq, Eq)]
pub struct PublishOptions {
    pub dry_run: bool,
}

/// The line of `publish`.
pub fn publish(options: PublishOptions) -> (line: String)
    ensures
        line@ == "publish, dry-run: "@ + flag_text(options.dry_run),
{
    let mut line = String::from_str("publish, dry-run: ");
    line.append(flag_word(options.dry_run));
    line
}

/// The line of `list`.
pub fn list() -> (line: String)
    ensures
        line@ == "list"@,
{
    String::from_str("list")
}

/// The line of `search`.
pub fn search(query: &str) -> (line: String)
    ensures
        line@ == "search "@ + query@,
{
    let mut line = String::from_str("search ");
    line.append(query);
    line
}

} // verus!
