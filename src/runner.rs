use vstd::prelude::*;

use crate::process::ProcessOutput;
use crate::text::{
    debug_quoted, decode_lossy, lemma_occurs_in_middle, occurs_in, quote_debug, texts, utf8_lossy,
};

verus! {

/// Launcher of the test tool on Windows.
pub const LAUNCHER_WINDOWS: &'static str = "npx.cmd";

/// Launcher of the test tool elsewhere.
pub const LAUNCHER: &'static str = "npx";

/// Flag that hands the test tool a tag expression.
pub const FILTER_FLAG: &'static str = "--grep";

/// Where the test tool runs, relative to the host's working directory: the
/// project root, one level above it.
pub const RUNNER_ROOT: &'static str = "..";

/// Why a test run did not pass.
pub enum RunnerError {
    /// The launcher could not be started.
    Launch(String),
    /// The tests ran and reported failure.
    TestFailure(String),
}

impl RunnerError {
    /// The report carried by the error.
    pub open spec fn text(self) -> Seq<char> {
        match self {
            RunnerError::Launch(m) => m@,
            RunnerError::TestFailure(m) => m@,
        }
    }

    /// The report that the host shows.
    pub fn message(&self) -> (r: String)
        ensures
            r@ == self.text(),
    {
        match self {
            RunnerError::Launch(m) => m.clone(),
            RunnerError::TestFailure(m) => m.clone(),
        }
    }
}

/// The text of an optional string.
pub open spec fn opt_text(t: Option<String>) -> Option<Seq<char>> {
    match t {
        Some(s) => Some(s@),
        None => None,
    }
}

/// The tag expression that selects tests: none where the filter is absent or
/// empty.
pub open spec fn active_filter(tags: Option<Seq<char>>) -> Option<Seq<char>> {
    match tags {
        Some(t) => if t.len() > 0 {
            Some(t)
        } else {
            None
        },
        None => None,
    }
}

/// The fixed arguments: run the tool's tests under its configuration file.
pub open spec fn base_args() -> Seq<Seq<char>> {
    seq!["playwright"@, "test"@, "--config"@, "playwright.config.js"@]
}

/// The test tool's arguments: the fixed configuration, then the filter flag
/// and the tag expression where there is one.
pub open spec fn runner_args_of(tags: Option<Seq<char>>) -> Seq<Seq<char>> {
    match active_filter(tags) {
        Some(t) => base_args() + seq![FILTER_FLAG@, t],
        None => base_args(),
    }
}

/// How `{:?}` writes an optional tag expression.
pub open spec fn tags_debug(tags: Option<Seq<char>>) -> Seq<char> {
    match tags {
        Some(t) => "Some("@ + debug_quoted(t) + ")"@,
        None => "None"@,
    }
}

/// Report of a run that passed.
pub open spec fn passed_report(cwd: Seq<char>, tags: Option<Seq<char>>, out: Seq<char>) -> Seq<char> {
    "Tests passed!\nCWD: "@ + debug_quoted(cwd) + "\nTags: "@ + tags_debug(tags) + "\n\n"@ + out
}

/// Report of a run that failed: both output streams.
pub open spec fn failed_report(
    cwd: Seq<char>,
    tags: Option<Seq<char>>,
    out: Seq<char>,
    err: Seq<char>,
) -> Seq<char> {
    "Tests failed or errored!\nCWD: "@ + debug_quoted(cwd) + "\nTags: "@ + tags_debug(tags)
        + "\n\nSTDOUT:\n"@ + out + "\n\nSTDERR:\n"@ + err
}

/// Report of a launcher that could not be started.
pub open spec fn launch_report(cause: Seq<char>, cwd: Seq<char>, tags: Option<Seq<char>>) -> Seq<
    char,
> {
    "Failed to execute process: "@ + cause + "\nCWD: "@ + debug_quoted(cwd) + "\nTags: "@
        + tags_debug(tags)
}

/// The launcher's executable name for the platform.
pub fn launcher_name(windows: bool) -> (r: String)
    ensures
        r@ == if windows {
            LAUNCHER_WINDOWS@
        } else {
            LAUNCHER@
        },
{
    if windows {
        String::from_str(LAUNCHER_WINDOWS)
    } else {
        String::from_str(LAUNCHER)
    }
}

/// The arguments handed to the launcher.
pub fn runner_args(tags: &Option<String>) -> (r: Vec<String>)
    ensures
        texts(r@) == runner_args_of(opt_text(*tags)),
        active_filter(opt_text(*tags)) is None ==> !texts(r@).contains(FILTER_FLAG@),
        active_filter(opt_text(*tags)) matches Some(t) ==> texts(r@).len() == 6 && texts(r@)[4]
            == FILTER_FLAG@ && texts(r@)[5] == t,
{
    let mut r: Vec<String> = Vec::new();
    r.push(String::from_str("playwright"));
    r.push(String::from_str("test"));
    r.push(String::from_str("--config"));
    r.push(String::from_str("playwright.config.js"));
    if let Some(t) = tags {
        if t.as_str().unicode_len() > 0 {
            r.push(String::from_str(FILTER_FLAG));
            r.push(t.clone());
        }
    }
    assert(texts(r@) =~= runner_args_of(opt_text(*tags)));
    proof {
        reveal_strlit("playwright");
        reveal_strlit("test");
        reveal_strlit("--config");
        reveal_strlit("playwright.config.js");
        reveal_strlit("--grep");
        if active_filter(opt_text(*tags)) is None {
            assert forall|k: int| 0 <= k < texts(r@).len() implies texts(r@)[k] != FILTER_FLAG@ by {
                assert(texts(r@)[k].len() != FILTER_FLAG@.len());
            }
        }
    }
    r
}

fn render_tags(tags: &Option<String>) -> (r: String)
    ensures
        r@ == tags_debug(opt_text(*tags)),
{
    match tags {
        Some(t) => {
            let mut r = String::from_str("Some(");
            let q = quote_debug(t.as_str());
            r.append(q.as_str());
            r.append(")");
            r
        },
        None => String::from_str("None"),
    }
}

/// The host's report on a finished or failed launch of the test tool, run
/// from `cwd` with `tags`.
pub fn run_report(cwd: &str, tags: &Option<String>, outcome: &Result<ProcessOutput, String>) -> (r:
    Result<String, RunnerError>)
    ensures
        match outcome {
            Ok(o) => if o.success {
                r matches Ok(m) && m@ == passed_report(cwd@, opt_text(*tags), utf8_lossy(o.stdout@))
            } else {
                r matches Err(RunnerError::TestFailure(m)) && m@ == failed_report(
                    cwd@,
                    opt_text(*tags),
                    utf8_lossy(o.stdout@),
                    utf8_lossy(o.stderr@),
                ) && occurs_in(utf8_lossy(o.stdout@), m@) && occurs_in(utf8_lossy(o.stderr@), m@)
            },
            Err(cause) => r matches Err(RunnerError::Launch(m)) && m@ == launch_report(
                cause@,
                cwd@,
                opt_text(*tags),
            ),
        },
{
    let where_ = quote_debug(cwd);
    let shown = render_tags(tags);
    match outcome {
        Ok(o) => {
            let out = decode_lossy(&o.stdout);
            if o.success {
                let mut m = String::from_str("Tests passed!\nCWD: ");
                m.append(where_.as_str());
                m.append("\nTags: ");
                m.append(shown.as_str());
                m.append("\n\n");
                m.append(out.as_str());
                Ok(m)
            } else {
                let err = decode_lossy(&o.stderr);
                let mut m = String::from_str("Tests failed or errored!\nCWD: ");
                m.append(where_.as_str());
                m.append("\nTags: ");
                m.append(shown.as_str());
                m.append("\n\nSTDOUT:\n");
                let ghost before_out = m@;
                m.append(out.as_str());
                m.append("\n\nSTDERR:\n");
                let ghost before_err = m@;
                m.append(err.as_str());
                proof {
                    lemma_occurs_in_middle(before_out, out@, "\n\nSTDERR:\n"@ + err@);
                    assert(m@ =~= before_out + out@ + ("\n\nSTDERR:\n"@ + err@));
                    lemma_occurs_in_middle(before_err, err@, Seq::empty());
                    assert(m@ =~= before_err + err@ + Seq::<char>::empty());
                }
                Err(RunnerError::TestFailure(m))
            }
        },
        Err(cause) => {
            let mut m = String::from_str("Failed to execute process: ");
            m.append(cause.as_str());
            m.append("\nCWD: ");
            m.append(where_.as_str());
            m.append("\nTags: ");
            m.append(shown.as_str());
            Err(RunnerError::Launch(m))
        },
    }
}

} // verus!
