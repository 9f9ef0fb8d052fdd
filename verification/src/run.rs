//! One run of the tool, as a conversation: the run says what is to be done
//! to the file, the caller does it and says what came of it.
//!
//! The run touches no file itself. It decides, from the command line and from
//! what the caller reports, which action comes next and how the run ends.

use crate::error::{Access, Error};
use crate::extract::{document_links, get_link_data};
use crate::input::{input_path, is_text_path, path_of_args};
use crate::link::{Link, LinkView};
use crate::listing::{
    format_link, heading, item, items, lemma_items_concat, links_heading, listing, section,
};
use vstd::prelude::*;

verus! {

/// What the run asks of its caller.
#[derive(Debug, Clone, PartialEq, Eq)]
pub enum Action {
    /// Make this path absolute. The actions that follow speak of the file at
    /// the absolute path.
    Resolve(String),
    /// Open the file and read all of it.
    Read,
    /// Open the file for appending.
    OpenForAppend,
    /// Write this text to the file that was opened for appending.
    Write(String),
    /// Leave with status 0. The run is over.
    Finish,
    /// Print the diagnostic of the error and leave with its exit code. The
    /// run is over.
    Fail(Error),
}

/// An `Action` as the contracts see it.
pub enum ActionView {
    Resolve(Seq<char>),
    Read,
    OpenForAppend,
    Write(Seq<char>),
    Finish,
    Fail(Error),
}

impl View for Action {
    type V = ActionView;

    open spec fn view(&self) -> ActionView {
        match self {
            Action::Resolve(path) => ActionView::Resolve(path@),
            Action::Read => ActionView::Read,
            Action::OpenForAppend => ActionView::OpenForAppend,
            Action::Write(text) => ActionView::Write(text@),
            Action::Finish => ActionView::Finish,
            Action::Fail(e) => ActionView::Fail(*e),
        }
    }
}

/// What came of the action that the run asked for last.
#[derive(Debug, Clone, PartialEq, Eq)]
pub enum Outcome {
    /// It was done, and there is nothing to hand back.
    Done,
    /// The file was read: this is what it holds.
    Content(String),
    /// The file could not be opened.
    NotOpened,
    /// The action failed in another way.
    Failed,
}

/// An `Outcome` as the contracts see it.
pub enum OutcomeView {
    Done,
    Content(Seq<char>),
    NotOpened,
    Failed,
}

impl View for Outcome {
    type V = OutcomeView;

    open spec fn view(&self) -> OutcomeView {
        match self {
            Outcome::Done => OutcomeView::Done,
            Outcome::Content(text) => OutcomeView::Content(text@),
            Outcome::NotOpened => OutcomeView::NotOpened,
            Outcome::Failed => OutcomeView::Failed,
        }
    }
}

/// How far a run has come: which action it waits for.
pub enum Stage {
    /// The path is being made absolute.
    Resolving,
    /// The file is being read.
    Reading,
    /// The file is being opened, to append the listing of these links.
    Opening(Seq<LinkView>),
    /// The heading and the items of the first `asked` links were handed out
    /// to be written, and the last of these writes is under way.
    Writing { links: Seq<LinkView>, asked: nat },
    /// The run is over, and this is how it ended.
    Over(Option<Error>),
}

/// The action that ends a run.
pub open spec fn last_action(end: Option<Error>) -> ActionView {
    match end {
        None => ActionView::Finish,
        Some(e) => ActionView::Fail(e),
    }
}

/// A run that ends here with a failure.
pub open spec fn failed(e: Error) -> (Stage, ActionView) {
    (Stage::Over(Some(e)), ActionView::Fail(e))
}

/// How a run begins: the command line is judged before anything else is
/// done, and only a path that is accepted is handed out.
pub open spec fn start(args: Seq<Seq<char>>) -> (Stage, ActionView) {
    match path_of_args(args) {
        Ok(path) => (Stage::Resolving, ActionView::Resolve(path)),
        Err(e) => failed(e),
    }
}

/// How a run goes on when the text of the file is in: a text without links
/// ends the run at once, and nothing is opened or written.
pub open spec fn after_reading(text: Seq<char>) -> (Stage, ActionView) {
    match document_links(text) {
        Err(e) => failed(e),
        Ok(links) => if links.len() == 0 {
            (Stage::Over(None), ActionView::Finish)
        } else {
            (Stage::Opening(links), ActionView::OpenForAppend)
        },
    }
}

/// How a run goes on. Whatever is reported but what lets the run go on
/// counts as the failure of the action that was under way. A run that is
/// over stays so, and repeats how it ended.
pub open spec fn advance(stage: Stage, outcome: OutcomeView) -> (Stage, ActionView) {
    match stage {
        Stage::Resolving => match outcome {
            OutcomeView::Done => (Stage::Reading, ActionView::Read),
            _ => failed(Error::PathResolution),
        },
        Stage::Reading => match outcome {
            OutcomeView::Content(text) => after_reading(text),
            OutcomeView::NotOpened => failed(Error::FileOpen(Access::Read)),
            _ => failed(Error::FileRead),
        },
        Stage::Opening(links) => match outcome {
            OutcomeView::Done => (Stage::Writing { links, asked: 0 }, ActionView::Write(heading())),
            _ => failed(Error::FileOpen(Access::Append)),
        },
        Stage::Writing { links, asked } => match outcome {
            OutcomeView::Done => if asked < links.len() {
                (
                    Stage::Writing { links, asked: asked + 1 },
                    ActionView::Write(item(links[asked as int])),
                )
            } else {
                (Stage::Over(None), ActionView::Finish)
            },
            _ => failed(Error::FileWrite),
        },
        Stage::Over(end) => (Stage::Over(end), last_action(end)),
    }
}

/// Where a run stands.
#[derive(Debug)]
enum Progress {
    Resolving,
    Reading,
    Opening { links: Vec<Link> },
    Writing { links: Vec<Link>, asked: usize },
    Over { end: Option<Error> },
}

/// A run of the tool. It is made by `Run::begin` and moved on by
/// `Run::step`.
#[derive(Debug)]
pub struct Run {
    progress: Progress,
}

impl View for Run {
    type V = Stage;

    closed spec fn view(&self) -> Stage {
        match self.progress {
            Progress::Resolving => Stage::Resolving,
            Progress::Reading => Stage::Reading,
            Progress::Opening { links } => Stage::Opening(links.deep_view()),
            Progress::Writing { links, asked } => Stage::Writing {
                links: links.deep_view(),
                asked: asked as nat,
            },
            Progress::Over { end } => Stage::Over(end),
        }
    }
}

impl Run {
    /// Begins a run on a command line: the name of the program, then its
    /// arguments. Gives the run and the first thing it asks for.
    pub fn begin(args: &Vec<String>) -> (r: (Run, Action))
        ensures
            (r.0@, r.1@) == start(args.deep_view()),
    {
        match input_path(args) {
            Ok(path) => (Run { progress: Progress::Resolving }, Action::Resolve(path.clone())),
            Err(e) => Run::fail(e),
        }
    }

    /// Moves the run on: `outcome` is what came of the action that it asked
    /// for last. Gives the run as it then stands and what it asks for next.
    pub fn step(self, outcome: Outcome) -> (r: (Run, Action))
        ensures
            (r.0@, r.1@) == advance(self@, outcome@),
    {
        match self.progress {
            Progress::Resolving => match outcome {
                Outcome::Done => (Run { progress: Progress::Reading }, Action::Read),
                _ => Run::fail(Error::PathResolution),
            },
            Progress::Reading => match outcome {
                Outcome::Content(text) => Run::read(text.as_str()),
                Outcome::NotOpened => Run::fail(Error::FileOpen(Access::Read)),
                _ => Run::fail(Error::FileRead),
            },
            Progress::Opening { links } => match outcome {
                Outcome::Done => (
                    Run { progress: Progress::Writing { links, asked: 0 } },
                    Action::Write(links_heading()),
                ),
                _ => Run::fail(Error::FileOpen(Access::Append)),
            },
            Progress::Writing { links, asked } => match outcome {
                Outcome::Done => if asked < links.len() {
                    let line = format_link(&links[asked]);
                    (
                        Run { progress: Progress::Writing { links, asked: asked + 1 } },
                        Action::Write(line),
                    )
                } else {
                    (Run { progress: Progress::Over { end: None } }, Action::Finish)
                },
                _ => Run::fail(Error::FileWrite),
            },
            Progress::Over { end } => match end {
                None => (Run { progress: Progress::Over { end: None } }, Action::Finish),
                Some(e) => Run::fail(e),
            },
        }
    }

    /// Whether the run is over: it then asks for nothing more.
    pub fn is_over(&self) -> (over: bool)
        ensures
            over == (self@ is Over),
    {
        match self.progress {
            Progress::Over { .. } => true,
            _ => false,
        }
    }

    /// Ends the run with a failure.
    fn fail(e: Error) -> (r: (Run, Action))
        ensures
            (r.0@, r.1@) == failed(e),
    {
        (Run { progress: Progress::Over { end: Some(e) } }, Action::Fail(e))
    }

    /// Goes on with the text of the file: finds its links, and ends the run
    /// where it has none.
    fn read(text: &str) -> (r: (Run, Action))
        ensures
            (r.0@, r.1@) == after_reading(text@),
    {
        match get_link_data(text) {
            Err(e) => Run::fail(e),
            Ok(links) => if links.len() == 0 {
                (Run { progress: Progress::Over { end: None } }, Action::Finish)
            } else {
                (Run { progress: Progress::Opening { links } }, Action::OpenForAppend)
            },
        }
    }
}

/// The actions that a run asks for from `stage` on, one for each outcome
/// that is reported to it.
pub open spec fn actions_from(stage: Stage, outcomes: Seq<OutcomeView>) -> Seq<ActionView>
    decreases outcomes.len(),
{
    if outcomes.len() == 0 {
        Seq::empty()
    } else {
        seq![advance(stage, outcomes.first()).1] + actions_from(
            advance(stage, outcomes.first()).0,
            outcomes.drop_first(),
        )
    }
}

/// Where a run stands that stood at `stage` and was told these outcomes.
pub open spec fn stage_after(stage: Stage, outcomes: Seq<OutcomeView>) -> Stage
    decreases outcomes.len(),
{
    if outcomes.len() == 0 {
        stage
    } else {
        stage_after(advance(stage, outcomes.first()).0, outcomes.drop_first())
    }
}

/// All the actions of a run on `args`: the one it begins with, then those
/// with which it answers the outcomes.
pub open spec fn actions(args: Seq<Seq<char>>, outcomes: Seq<OutcomeView>) -> Seq<ActionView> {
    seq![start(args).1] + actions_from(start(args).0, outcomes)
}

/// The text that an action hands out to be written.
pub open spec fn text_of(action: ActionView) -> Seq<char> {
    match action {
        ActionView::Write(text) => text,
        _ => Seq::empty(),
    }
}

/// All the text that the actions hand out to be written, in their order.
pub open spec fn written(actions: Seq<ActionView>) -> Seq<char>
    decreases actions.len(),
{
    if actions.len() == 0 {
        Seq::empty()
    } else {
        text_of(actions.first()) + written(actions.drop_first())
    }
}

/// What a run appends to a file that holds `text` when nothing fails: the
/// section of the links of the text, and nothing where there is no link or
/// the links cannot be had.
pub open spec fn appendix(text: Seq<char>) -> Seq<char> {
    match document_links(text) {
        Ok(links) => match section(links) {
            Some(text) => text,
            None => Seq::empty(),
        },
        Err(_) => Seq::empty(),
    }
}

/// The text that a run was given as the content of the file: the one
/// reported to the second action, the first being the resolving of the path.
pub open spec fn text_read(outcomes: Seq<OutcomeView>) -> Option<Seq<char>> {
    if outcomes.len() >= 2 && outcomes[0] is Done && outcomes[1] is Content {
        Some(outcomes[1]->Content_0)
    } else {
        None
    }
}

/// What a file holds after a run on it in which nothing failed.
pub open spec fn content_after_run(content: Seq<char>) -> Seq<char> {
    content + appendix(content)
}

/// What a first action and the actions after it hand out to be written.
proof fn lemma_written_first(action: ActionView, rest: Seq<ActionView>)
    ensures
        written(seq![action] + rest) == text_of(action) + written(rest),
{
    assert((seq![action] + rest).drop_first() =~= rest);
}

/// A run that is over asks for nothing but to leave, writes nothing, and
/// stays over.
pub proof fn lemma_over_stays_over(end: Option<Error>, outcomes: Seq<OutcomeView>)
    ensures
        actions_from(Stage::Over(end), outcomes).len() == outcomes.len(),
        forall|i: int|
            0 <= i < outcomes.len() ==> #[trigger] actions_from(Stage::Over(end), outcomes)[i]
                == last_action(end),
        written(actions_from(Stage::Over(end), outcomes)) == Seq::<char>::empty(),
        stage_after(Stage::Over(end), outcomes) == Stage::Over(end),
    decreases outcomes.len(),
{
    if outcomes.len() > 0 {
        let rest = outcomes.drop_first();
        lemma_over_stays_over(end, rest);
        lemma_written_first(last_action(end), actions_from(Stage::Over(end), rest));
    }
}

/// A run that fails at its next step has nothing more written.
proof fn lemma_failed(stage: Stage, outcomes: Seq<OutcomeView>, e: Error)
    requires
        outcomes.len() > 0,
        advance(stage, outcomes.first()) == failed(e),
    ensures
        written(actions_from(stage, outcomes)) == Seq::<char>::empty(),
        stage_after(stage, outcomes) == Stage::Over(Some(e)),
{
    let rest = outcomes.drop_first();
    lemma_over_stays_over(Some(e), rest);
    lemma_written_first(ActionView::Fail(e), actions_from(Stage::Over(Some(e)), rest));
}

/// The items from `from` on are the item at `from`, then the items after it.
proof fn lemma_items_first(links: Seq<LinkView>, from: int)
    requires
        0 <= from < links.len(),
    ensures
        items(links.skip(from)) == item(links[from]) + items(links.skip(from + 1)),
{
    let head = seq![links[from]];
    lemma_items_concat(head, links.skip(from + 1));
    assert(head + links.skip(from + 1) =~= links.skip(from));
    assert(head.drop_last() =~= Seq::<LinkView>::empty());
    assert(items(Seq::<LinkView>::empty()) =~= Seq::<char>::empty());
}

/// A run that writes hands out the items that are left, in their order, and
/// all of them if it ends without a failure.
proof fn lemma_writing(links: Seq<LinkView>, asked: nat, outcomes: Seq<OutcomeView>)
    requires
        asked <= links.len(),
    ensures
        written(actions_from(Stage::Writing { links, asked }, outcomes)).is_prefix_of(
            items(links.skip(asked as int)),
        ),
        stage_after(Stage::Writing { links, asked }, outcomes) == Stage::Over(None) ==> written(
            actions_from(Stage::Writing { links, asked }, outcomes),
        ) == items(links.skip(asked as int)),
    decreases outcomes.len(),
{
    if outcomes.len() > 0 {
        let rest = outcomes.drop_first();
        if !(outcomes.first() is Done) {
            lemma_failed(Stage::Writing { links, asked }, outcomes, Error::FileWrite);
        } else if asked < links.len() {
            let next = Stage::Writing { links, asked: asked + 1 };
            lemma_writing(links, asked + 1, rest);
            lemma_items_first(links, asked as int);
            lemma_written_first(
                ActionView::Write(item(links[asked as int])),
                actions_from(next, rest),
            );
        } else {
            lemma_over_stays_over(None, rest);
            lemma_written_first(ActionView::Finish, actions_from(Stage::Over(None), rest));
        }
    }
}

/// A run that opens the file hands out the listing from its start, and all
/// of it if it ends without a failure.
proof fn lemma_opening(links: Seq<LinkView>, outcomes: Seq<OutcomeView>)
    ensures
        written(actions_from(Stage::Opening(links), outcomes)).is_prefix_of(listing(links)),
        stage_after(Stage::Opening(links), outcomes) == Stage::Over(None) ==> written(
            actions_from(Stage::Opening(links), outcomes),
        ) == listing(links),
{
    if outcomes.len() > 0 {
        let rest = outcomes.drop_first();
        if outcomes.first() is Done {
            let next = Stage::Writing { links, asked: 0 };
            lemma_writing(links, 0, rest);
            lemma_written_first(ActionView::Write(heading()), actions_from(next, rest));
            assert(links.skip(0) =~= links);
        } else {
            lemma_failed(Stage::Opening(links), outcomes, Error::FileOpen(Access::Append));
        }
    }
}

/// A run that reads hands out the appendix of the text that it is given from
/// its start, and all of it if it ends without a failure; without a text it
/// hands out nothing and does not end well.
proof fn lemma_reading(outcomes: Seq<OutcomeView>)
    ensures
        outcomes.len() > 0 && outcomes[0] is Content ==> {
            &&& written(actions_from(Stage::Reading, outcomes)).is_prefix_of(
                appendix(outcomes[0]->Content_0),
            )
            &&& stage_after(Stage::Reading, outcomes) == Stage::Over(None) ==> written(
                actions_from(Stage::Reading, outcomes),
            ) == appendix(outcomes[0]->Content_0)
        },
        !(outcomes.len() > 0 && outcomes[0] is Content) ==> {
            &&& written(actions_from(Stage::Reading, outcomes)) == Seq::<char>::empty()
            &&& stage_after(Stage::Reading, outcomes) != Stage::Over(None)
        },
{
    if outcomes.len() > 0 {
        let rest = outcomes.drop_first();
        match outcomes.first() {
            OutcomeView::Content(text) => {
                match document_links(text) {
                    Err(e) => {
                        lemma_failed(Stage::Reading, outcomes, e);
                    },
                    Ok(links) => {
                        if links.len() == 0 {
                            lemma_over_stays_over(None, rest);
                            lemma_written_first(
                                ActionView::Finish,
                                actions_from(Stage::Over(None), rest),
                            );
                        } else {
                            lemma_opening(links, rest);
                            lemma_written_first(
                                ActionView::OpenForAppend,
                                actions_from(Stage::Opening(links), rest),
                            );
                        }
                    },
                }
            },
            OutcomeView::NotOpened => {
                lemma_failed(Stage::Reading, outcomes, Error::FileOpen(Access::Read));
            },
            _ => {
                lemma_failed(Stage::Reading, outcomes, Error::FileRead);
            },
        }
    }
}

/// Whatever is reported to a run, the text that it hands out to be written
/// is the beginning of the appendix of the text that it read, and nothing
/// where it read none: a run writes the listing from its start, in order,
/// and no other text. And a run that ends without a failure has read a text
/// and handed out the whole appendix of it.
pub proof fn lemma_run_writes_appendix(args: Seq<Seq<char>>, outcomes: Seq<OutcomeView>)
    ensures
        match text_read(outcomes) {
            Some(text) => written(actions(args, outcomes)).is_prefix_of(appendix(text)),
            None => written(actions(args, outcomes)) == Seq::<char>::empty(),
        },
        stage_after(start(args).0, outcomes) == Stage::Over(None) ==> {
            &&& text_read(outcomes) is Some
            &&& written(actions(args, outcomes)) == appendix(text_read(outcomes)->Some_0)
        },
{
    let first = start(args).1;
    lemma_written_first(first, actions_from(start(args).0, outcomes));
    match path_of_args(args) {
        Err(e) => {
            lemma_over_stays_over(Some(e), outcomes);
        },
        Ok(_) => {
            if outcomes.len() > 0 {
                let rest = outcomes.drop_first();
                if outcomes.first() is Done {
                    lemma_reading(rest);
                    lemma_written_first(ActionView::Read, actions_from(Stage::Reading, rest));
                } else {
                    lemma_failed(Stage::Resolving, outcomes, Error::PathResolution);
                }
            }
        },
    }
}

/// A path that ends neither in `.txt` nor in `.md` ends the run before any
/// file is touched: whatever the run is told, it asks for nothing but to
/// leave with that failure.
pub proof fn lemma_unsupported_path_touches_no_file(
    args: Seq<Seq<char>>,
    outcomes: Seq<OutcomeView>,
)
    requires
        args.len() >= 2,
        !is_text_path(args[1]),
    ensures
        forall|i: int|
            0 <= i < actions(args, outcomes).len() ==> #[trigger] actions(args, outcomes)[i]
                == ActionView::Fail(Error::UnsupportedFileType),
{
    lemma_over_stays_over(Some(Error::UnsupportedFileType), outcomes);
}

/// A command line without a path ends the run in the same way.
pub proof fn lemma_missing_input_touches_no_file(args: Seq<Seq<char>>, outcomes: Seq<OutcomeView>)
    requires
        args.len() < 2,
    ensures
        forall|i: int|
            0 <= i < actions(args, outcomes).len() ==> #[trigger] actions(args, outcomes)[i]
                == ActionView::Fail(Error::MissingInput),
{
    lemma_over_stays_over(Some(Error::MissingInput), outcomes);
}

/// A file without links is left as it is: the run that has read it opens no
/// file to append to and hands out nothing to be written, and it ends
/// without a failure.
pub proof fn lemma_no_links_no_change(
    args: Seq<Seq<char>>,
    text: Seq<char>,
    outcomes: Seq<OutcomeView>,
)
    requires
        path_of_args(args) is Ok,
        text_read(outcomes) == Some(text),
        document_links(text) == Ok::<Seq<LinkView>, Error>(Seq::empty()),
    ensures
        forall|i: int|
            0 <= i < actions(args, outcomes).len() ==> {
                let action = #[trigger] actions(args, outcomes)[i];
                !(action is OpenForAppend) && !(action is Write)
            },
        stage_after(start(args).0, outcomes) == Stage::Over(None),
        content_after_run(text) == text,
{
    let read = outcomes.drop_first();
    let rest = read.drop_first();
    lemma_over_stays_over(None, rest);
    assert(read.first() == outcomes[1]);
    assert(advance(Stage::Reading, read.first()) == (Stage::Over(None), ActionView::Finish));
    assert(actions_from(Stage::Reading, read) == seq![ActionView::Finish] + actions_from(
        Stage::Over(None),
        rest,
    ));
    assert(stage_after(Stage::Reading, read) == Stage::Over(None));
    assert(actions_from(Stage::Resolving, outcomes) == seq![ActionView::Read] + actions_from(
        Stage::Reading,
        read,
    ));
}

/// A run only ever adds to the end of the file, and what it adds depends on
/// what the file holds when the run reads it. A file with links grows with
/// every run: a second run leaves the first listing where it is and appends
/// the listing of the file as the first run left it.
pub proof fn lemma_runs_accumulate(content: Seq<char>)
    ensures
        content.is_prefix_of(content_after_run(content)),
        document_links(content) is Ok && document_links(content)->Ok_0.len() > 0
            ==> content_after_run(content).len() > content.len(),
        content_after_run(content_after_run(content)) == content + appendix(content) + appendix(
            content + appendix(content),
        ),
{
    reveal_strlit("\n**Links**\n");
}

/// Two runs on one file, one after the other and neither failing: the
/// second reads what the first has left, so the file ends up holding what it
/// held, then the listing of that, then the listing of both together.
pub proof fn lemma_two_runs(
    args: Seq<Seq<char>>,
    content: Seq<char>,
    first: Seq<OutcomeView>,
    second: Seq<OutcomeView>,
)
    requires
        text_read(first) == Some(content),
        stage_after(start(args).0, first) == Stage::Over(None),
        text_read(second) == Some(content + written(actions(args, first))),
        stage_after(start(args).0, second) == Stage::Over(None),
    ensures
        content + written(actions(args, first)) + written(actions(args, second))
            == content_after_run(content_after_run(content)),
{
    lemma_run_writes_appendix(args, first);
    lemma_run_writes_appendix(args, second);
}

} // verus!
