use vstd::prelude::*;
use vstd::string::*;
use crate::error::InfraError;

verus! {

/// One planned run of the signing tool: the region it runs in and its
/// command line, before it is split into words.
#[derive(Debug, Clone, PartialEq, Eq)]
pub struct ToolStep {
    pub region: String,
    pub command: String,
}

impl View for ToolStep {
    type V = (Seq<char>, Seq<char>);

    open spec fn view(&self) -> (Seq<char>, Seq<char>) {
        (self.region@, self.command@)
    }
}

/// The text view of a list of planned runs.
pub open spec fn step_views(v: Seq<ToolStep>) -> Seq<(Seq<char>, Seq<char>)> {
    v.map_values(|s: ToolStep| s@)
}

/// One run of the signing tool, ready to start: its region and its words.
#[derive(Debug, Clone, PartialEq, Eq)]
pub struct ToolCommand {
    pub region: String,
    pub args: Vec<String>,
}

/// The words that shell-style splitting makes of a line, or none where a quote
/// is left open.
pub uninterp spec fn shell_words_of(s: Seq<char>) -> Option<Seq<Seq<char>>>;

/// Relies on shell_words::split: shell-style splitting, which depends on the
/// line alone and fails only where a quote is left open.
#[verifier::external_body]
fn split_words(s: &str) -> (r: Option<Vec<String>>)
    ensures
        match r {
            Some(v) => shell_words_of(s@) == Some(v@.map_values(|w: String| w@)),
            None => shell_words_of(s@) is None,
        },
{
    shell_words::split(s).ok()
}

/// Turns a planned run into the words that the tool is started with.
pub fn tool_command(step: &ToolStep) -> (r: Result<ToolCommand, InfraError>)
    ensures
        match shell_words_of(step.command@) {
            Some(w) => r matches Ok(c) && c.region@ == step.region@ && c.args@.map_values(
                |a: String| a@,
            ) == w,
            None => r == Err::<ToolCommand, InfraError>(
                InfraError::CommandSplit { command: step.command },
            ),
        },
{
    match split_words(step.command.as_str()) {
        Some(args) => Ok(ToolCommand { region: step.region.clone(), args }),
        None => Err(InfraError::CommandSplit { command: step.command.clone() }),
    }
}

/// Judges how a run of the signing tool ended: fails on an unsuccessful exit,
/// with the command line and the exit code, if any.
pub fn tool_outcome(step: &ToolStep, success: bool, code: Option<i32>) -> (r: Result<
    (),
    InfraError,
>)
    ensures
        success ==> r is Ok,
        !success ==> r == Err::<(), InfraError>(
            InfraError::TuftoolResult { command: step.command, code },
        ),
{
    if success {
        Ok(())
    } else {
        Err(InfraError::TuftoolResult { command: step.command.clone(), code })
    }
}

/// Joins two texts.
pub(crate) fn join2(a: &str, b: &str) -> (r: String)
    ensures
        r@ == a@ + b@,
{
    let mut s = String::from_str(a);
    s.append(b);
    s
}

/// Joins three texts.
pub(crate) fn join3(a: &str, b: &str, c: &str) -> (r: String)
    ensures
        r@ == a@ + b@ + c@,
{
    let mut s = String::from_str(a);
    s.append(b);
    s.append(c);
    s
}

/// Joins five texts.
pub(crate) fn join5(a: &str, b: &str, c: &str, d: &str, e: &str) -> (r: String)
    ensures
        r@ == a@ + b@ + c@ + d@ + e@,
{
    let mut s = String::from_str(a);
    s.append(b);
    s.append(c);
    s.append(d);
    s.append(e);
    s
}

} // verus!
