//! The work that the installer hands to its surroundings, as plain values:
//! which tool to run with which arguments, which file to write. The library
//! decides what is done and in what order; whoever drives it performs each
//! action and reports how it ended.

use vstd::prelude::*;
use vstd::string::StringExecFns;

verus! {

/// One piece of work outside the library.
#[derive(Clone, Debug, PartialEq, Eq)]
pub enum Action {
    /// Run a program with arguments and wait for it; its output is reported back.
    Run { program: String, args: Vec<String> },
    /// Run a program and hand it a text on its standard input.
    Feed { program: String, args: Vec<String>, input: String },
    /// Run a program and append what it prints to a file.
    Capture { program: String, args: Vec<String>, path: String },
    /// Replace the contents of a file.
    Write { path: String, contents: String },
    /// Append a line to a file, creating the file if need be.
    Append { path: String, line: String },
    /// Test whether a file exists and can be read.
    Exists { path: String },
    /// Read a file; its contents are reported back.
    Read { path: String },
}

/// An action as a mathematical value.
pub enum ActionView {
    Run { program: Seq<char>, args: Seq<Seq<char>> },
    Feed { program: Seq<char>, args: Seq<Seq<char>>, input: Seq<char> },
    Capture { program: Seq<char>, args: Seq<Seq<char>>, path: Seq<char> },
    Write { path: Seq<char>, contents: Seq<char> },
    Append { path: Seq<char>, line: Seq<char> },
    Exists { path: Seq<char> },
    Read { path: Seq<char> },
}

impl View for Action {
    type V = ActionView;

    open spec fn view(&self) -> ActionView {
        match *self {
            Action::Run { program, args } => ActionView::Run {
                program: program@,
                args: args.deep_view(),
            },
            Action::Feed { program, args, input } => ActionView::Feed {
                program: program@,
                args: args.deep_view(),
                input: input@,
            },
            Action::Capture { program, args, path } => ActionView::Capture {
                program: program@,
                args: args.deep_view(),
                path: path@,
            },
            Action::Write { path, contents } => ActionView::Write {
                path: path@,
                contents: contents@,
            },
            Action::Append { path, line } => ActionView::Append { path: path@, line: line@ },
            Action::Exists { path } => ActionView::Exists { path: path@ },
            Action::Read { path } => ActionView::Read { path: path@ },
        }
    }
}

impl DeepView for Action {
    type V = ActionView;

    open spec fn deep_view(&self) -> ActionView {
        self@
    }
}

impl ActionView {
    /// The program that the action runs, or the file that it touches.
    pub open spec fn subject(self) -> Seq<char> {
        match self {
            ActionView::Run { program, .. } => program,
            ActionView::Feed { program, .. } => program,
            ActionView::Capture { program, .. } => program,
            ActionView::Write { path, .. } => path,
            ActionView::Append { path, .. } => path,
            ActionView::Exists { path } => path,
            ActionView::Read { path } => path,
        }
    }
}

/// How an action ended.
#[derive(Clone, Copy, PartialEq, Eq, Structural, Debug)]
pub enum Outcome {
    /// The action was carried out and reported success.
    Done,
    /// The action was carried out and reported failure.
    Failed,
    /// The action could not be started at all: the tool is missing or may not
    /// be run.
    NotStarted,
}

/// Which step of a sequence of actions went wrong, and whether its tool could
/// be started at all.
#[derive(Clone, Copy, PartialEq, Eq, Structural, Debug)]
pub struct StepError {
    pub step: usize,
    pub started: bool,
}

/// The outcome of the step at `cursor`, as the place of the next step or as the
/// error that ends the sequence.
pub open spec fn advance_spec(cursor: usize, outcome: Outcome) -> Result<usize, StepError> {
    match outcome {
        Outcome::Done => Ok(
            if cursor < usize::MAX {
                (cursor + 1) as usize
            } else {
                cursor
            },
        ),
        Outcome::Failed => Err(StepError { step: cursor, started: true }),
        Outcome::NotStarted => Err(StepError { step: cursor, started: false }),
    }
}

/// Moves on to the next step after a step that succeeded; any other outcome
/// ends the sequence with an error that names the step.
pub fn advance(cursor: usize, outcome: Outcome) -> (r: Result<usize, StepError>)
    ensures
        r == advance_spec(cursor, outcome),
{
    match outcome {
        Outcome::Done => Ok(
            if cursor < usize::MAX {
                cursor + 1
            } else {
                cursor
            },
        ),
        Outcome::Failed => Err(StepError { step: cursor, started: true }),
        Outcome::NotStarted => Err(StepError { step: cursor, started: false }),
    }
}

/// An owned copy of a text.
pub fn owned(s: &str) -> (r: String)
    ensures
        r@ == s@,
{
    s.to_owned()
}

/// The text `a` followed by the text `b`.
pub fn join(a: &str, b: &str) -> (r: String)
    ensures
        r@ == a@ + b@,
{
    let mut r = a.to_owned();
    r.append(b);
    r
}

/// The action that runs `program` with `args`.
pub fn run(program: &str, args: Vec<String>) -> (action: Action)
    ensures
        action@ == (ActionView::Run { program: program@, args: args.deep_view() }),
{
    Action::Run { program: owned(program), args }
}

/// A copy of an action.
pub fn copy_action(action: &Action) -> (copy: Action)
    ensures
        copy@ == action@,
{
    match action {
        Action::Run { program, args } => Action::Run {
            program: program.clone(),
            args: copy_texts(args),
        },
        Action::Feed { program, args, input } => Action::Feed {
            program: program.clone(),
            args: copy_texts(args),
            input: input.clone(),
        },
        Action::Capture { program, args, path } => Action::Capture {
            program: program.clone(),
            args: copy_texts(args),
            path: path.clone(),
        },
        Action::Write { path, contents } => Action::Write {
            path: path.clone(),
            contents: contents.clone(),
        },
        Action::Append { path, line } => Action::Append { path: path.clone(), line: line.clone() },
        Action::Exists { path } => Action::Exists { path: path.clone() },
        Action::Read { path } => Action::Read { path: path.clone() },
    }
}

/// A copy of a list of texts.
pub fn copy_texts(texts: &Vec<String>) -> (copy: Vec<String>)
    ensures
        copy.deep_view() == texts.deep_view(),
        copy@ == texts@,
{
    let mut copy: Vec<String> = Vec::new();
    let mut i: usize = 0;
    while i < texts.len()
        invariant
            i <= texts.len(),
            copy@ == texts@.take(i as int),
        decreases texts.len() - i,
    {
        copy.push(texts[i].clone());
        i += 1;
    }
    assert(copy@ == texts@);
    assert(copy.deep_view() =~= texts.deep_view());
    copy
}

} // verus!
