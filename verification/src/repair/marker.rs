//! What the per-directory record that the repair pass has already run here says.
//!
//! A file in the data directory rather than a document in the database: the pass has to be able
//! to answer "has this run?" for a directory whose collections are exactly what is in doubt.

use crate::text;
use vstd::prelude::*;

verus! {

/// Whether this directory has already been through a completed pass.
#[derive(Clone, Copy, Debug, PartialEq, Eq, Structural)]
pub enum MarkerState {
    Recorded,
    Missing,
}

/// A leading dot keeps this clear of every name the storage engine uses, none of which start
/// with one.
pub const FILE_NAME: &'static str = ".embedded-mongodb-index-repair";

/// The name a marker has until it is complete.
pub const PARTIAL_FILE_NAME: &'static str = ".embedded-mongodb-index-repair.partial";

/// First line of a marker this build wrote, and the only part that is read. A later pass that
/// has to run again everywhere changes this string and every existing marker stops counting.
pub const RECORD: &'static str = "embedded-mongodb index repair v1";

pub const EXPLANATION: &'static str = "Written by embedded-mongodb after checking this directory for the missing index entries that
builds before the DatabaseHolder::openDb fix left behind. See the README section `Repairing a
directory an older build damaged`. Delete this file to have the next open check again.
";

/// Where the first line feed stands: at the end where there is none.
pub open spec fn line_feed(contents: Seq<char>) -> int
    decreases contents.len(),
{
    if contents.len() == 0 {
        0
    } else if contents[0] == '\n' {
        0
    } else {
        1 + line_feed(contents.drop_first())
    }
}

/// The first line, without the line feed that ends it or the carriage return before that: none
/// where there is nothing at all.
pub open spec fn first_line(contents: Seq<char>) -> Option<Seq<char>> {
    let end = line_feed(contents);
    if contents.len() == 0 {
        None
    } else if end < contents.len() && end > 0 && contents[end - 1] == '\r' {
        Some(contents.take(end - 1))
    } else {
        Some(contents.take(end))
    }
}

/// What the contents of a marker file say: a file that could not be read says nothing.
pub open spec fn state_of(contents: Option<Seq<char>>) -> MarkerState {
    match contents {
        Some(contents) => if first_line(contents) == Some(RECORD@) {
            MarkerState::Recorded
        } else {
            MarkerState::Missing
        },
        None => MarkerState::Missing,
    }
}

/// `Missing` for anything this build did not write, an unreadable file and a truncated one
/// included. Every uncertain answer has to come out `Missing`: the cost of re-running a pass
/// that already ran is one scan, and the cost of skipping one that never finished is leaving a
/// collection damaged for good.
pub fn marker_state(contents: Option<&str>) -> (state: MarkerState)
    ensures
        state == state_of(
            match contents {
                Some(contents) => Some(contents@),
                None => None,
            },
        ),
{
    let read: Vec<char> = match contents {
        Some(contents) => text::characters(contents),
        None => return MarkerState::Missing,
    };
    let record: Vec<char> = text::characters(RECORD);
    let mut end: usize = 0;
    assert(read@.skip(0) =~= read@);
    while end < read.len() && read[end] != '\n'
        invariant
            end <= read@.len(),
            line_feed(read@) == end + line_feed(read@.skip(end as int)),
        decreases read@.len() - end,
    {
        assert(read@.skip(end as int).drop_first() =~= read@.skip(end + 1));
        end += 1;
    }
    assert(line_feed(read@) == end);
    if read.len() == 0 {
        return MarkerState::Missing;
    }
    let fed: bool = end < read.len();
    if fed && end > 0 && read[end - 1] == '\r' {
        end -= 1;
    }
    let ghost line = read@.take(end as int);
    if end != record.len() {
        assert(line.len() != RECORD@.len());
        return MarkerState::Missing;
    }
    let mut i: usize = 0;
    while i < end
        invariant
            i <= end <= read@.len(),
            end == record@.len(),
            record@ == RECORD@,
            line == read@.take(end as int),
            contents is Some && contents->0@ == read@,
            first_line(read@) == Some(line),
            forall|j: int| 0 <= j < i ==> line[j] == #[trigger] record@[j],
        decreases end - i,
    {
        if read[i] != record[i] {
            assert(line[i as int] != RECORD@[i as int]);
            return MarkerState::Missing;
        }
        i += 1;
    }
    assert(line =~= RECORD@);
    MarkerState::Recorded
}

/// The contents of a marker.
pub fn marker_contents() -> (contents: String)
    ensures
        contents@ == recorded_contents(),
{
    let mut contents: String = RECORD.to_owned();
    contents.append("\n");
    contents.append(EXPLANATION);
    contents
}

/// Something to be done to the files of a data directory.
pub enum FileAction {
    /// Create the file of [`PARTIAL_FILE_NAME`], write this into it and put it on the device.
    WritePartial(String),
    /// Give that file the name [`FILE_NAME`], in place of any file of that name.
    Publish,
    /// Remove the file of [`PARTIAL_FILE_NAME`].
    RemovePartial,
}

/// [`FileAction`] by what it does.
pub enum FileActionView {
    WritePartial(Seq<char>),
    Publish,
    RemovePartial,
}

impl View for FileAction {
    type V = FileActionView;

    open spec fn view(&self) -> FileActionView {
        match self {
            FileAction::WritePartial(contents) => FileActionView::WritePartial(contents@),
            FileAction::Publish => FileActionView::Publish,
            FileAction::RemovePartial => FileActionView::RemovePartial,
        }
    }
}

/// What a marker holds.
pub open spec fn recorded_contents() -> Seq<char> {
    RECORD@ + "\n"@ + EXPLANATION@
}

/// Where the writing of a marker stands: which action is waiting for its outcome.
pub enum RecordingView<E> {
    Writing,
    Publishing,
    /// Removing what was left of a file that could not be written because of `cause`.
    Removing { cause: E },
}

/// What an outcome makes of the writing of a marker.
pub enum RecordingNext<E> {
    Continue(RecordingView<E>),
    Done(Result<(), E>),
}

impl<E> RecordingView<E> {
    /// The action that is waiting for its outcome.
    pub open spec fn action(self) -> FileActionView {
        match self {
            RecordingView::Writing => FileActionView::WritePartial(recorded_contents()),
            RecordingView::Publishing => FileActionView::Publish,
            RecordingView::Removing { .. } => FileActionView::RemovePartial,
        }
    }

    /// What the outcome of that action makes of the writing. A removal that fails changes
    /// nothing: the failure that is owed is the one that made it necessary.
    pub open spec fn answered(self, outcome: Result<(), E>) -> RecordingNext<E> {
        match self {
            RecordingView::Writing => match outcome {
                Ok(_) => RecordingNext::Continue(RecordingView::Publishing),
                Err(cause) => RecordingNext::Continue(RecordingView::Removing { cause }),
            },
            RecordingView::Publishing => RecordingNext::Done(outcome),
            RecordingView::Removing { cause } => RecordingNext::Done(Err(cause)),
        }
    }
}

enum Stage<E> {
    Writing,
    Publishing,
    Removing(E),
}

/// The writing of a marker, waiting for the outcome of the action it last asked for.
///
/// Through a temporary name and a rename, because the failure this guards against is a process
/// that dies partway through the write: a rename is atomic, so a reader sees either no marker or
/// the whole one. Nothing else will ever look at a partial file, so one that could not be written
/// is removed again.
pub struct Recording<E> {
    stage: Stage<E>,
}

/// What the writing of a marker does next.
pub enum RecordingStep<E> {
    /// Has this done, and waits for its outcome.
    Act(Recording<E>, FileAction),
    Done(Result<(), E>),
}

impl<E> View for Recording<E> {
    type V = RecordingView<E>;

    closed spec fn view(&self) -> RecordingView<E> {
        match self.stage {
            Stage::Writing => RecordingView::Writing,
            Stage::Publishing => RecordingView::Publishing,
            Stage::Removing(cause) => RecordingView::Removing { cause },
        }
    }
}

impl<E> Recording<E> {
    /// The writing of a marker, and the action it starts with.
    pub fn new() -> (start: (Recording<E>, FileAction))
        ensures
            start.0@ == RecordingView::<E>::Writing,
            start.1@ == start.0@.action(),
    {
        (Recording { stage: Stage::Writing }, FileAction::WritePartial(marker_contents()))
    }

    /// Takes the outcome of the action that was asked for.
    pub fn answered(self, outcome: Result<(), E>) -> (step: RecordingStep<E>)
        ensures
            match (self@.answered(outcome), step) {
                (RecordingNext::Continue(next), RecordingStep::Act(recording, action)) => {
                    &&& recording@ == next
                    &&& action@ == next.action()
                },
                (RecordingNext::Done(expected), RecordingStep::Done(result)) => {
                    &&& result == expected
                },
                _ => false,
            },
    {
        match (self.stage, outcome) {
            (Stage::Writing, Ok(_)) => RecordingStep::Act(
                Recording { stage: Stage::Publishing },
                FileAction::Publish,
            ),
            (Stage::Writing, Err(cause)) => RecordingStep::Act(
                Recording { stage: Stage::Removing(cause) },
                FileAction::RemovePartial,
            ),
            (Stage::Publishing, outcome) => RecordingStep::Done(outcome),
            (Stage::Removing(cause), _) => RecordingStep::Done(Err(cause)),
        }
    }
}

/// The two files of a data directory that the writing of a marker touches: what each holds, or
/// nothing where it is not there.
#[verifier::ext_equal]
pub struct Files {
    pub marker: Option<Seq<char>>,
    pub partial: Option<Seq<char>>,
}

/// Whether `after` is what an action with this outcome may make of `before`: all of it where it
/// succeeds, and nothing where it fails -- but for a write that fails, which may leave any part
/// of the file behind.
pub open spec fn may_become<E>(
    before: Files,
    action: FileActionView,
    outcome: Result<(), E>,
    after: Files,
) -> bool {
    match (action, outcome) {
        (FileActionView::WritePartial(contents), Ok(_)) => {
            after == Files { partial: Some(contents), ..before }
        },
        (FileActionView::WritePartial(_), Err(_)) => after.marker == before.marker,
        (FileActionView::Publish, Ok(_)) => {
            after == Files { marker: before.partial, partial: None }
        },
        (FileActionView::RemovePartial, Ok(_)) => after == Files { partial: None, ..before },
        (_, Err(_)) => after == before,
    }
}

/// A marker is written as a whole or not at all. Where the writing answers success the directory
/// reads as recorded and no partial file is left, whether or not there was a marker before.
/// Where it answers failure the marker is as it was; and where it was the partial file that could
/// not be written, that is what it answers, with the file removed again if that can be done.
///
/// `first` and `second` are the outcomes of the two actions it takes, and `before`, `between` and
/// `after` the files before, between and after them.
pub proof fn a_marker_is_written_as_a_whole_or_not_at_all<E>(
    first: Result<(), E>,
    second: Result<(), E>,
    before: Files,
    between: Files,
    after: Files,
)
    requires
        ({
            let start = RecordingView::<E>::Writing;
            let next = start.answered(first);
            &&& may_become(before, start.action(), first, between)
            &&& next is Continue
            &&& may_become(between, next->Continue_0.action(), second, after)
        }),
    ensures
        ({
            let end = RecordingView::<E>::Writing.answered(first)->Continue_0.answered(second);
            &&& end is Done
            &&& end->Done_0 is Ok <==> first is Ok && second is Ok
            &&& end->Done_0 is Ok ==> state_of(after.marker) == MarkerState::Recorded
                && after.partial is None
            &&& end->Done_0 is Err ==> after.marker == before.marker
            &&& first is Err ==> end->Done_0 == first && (second is Ok ==> after.partial is None)
            &&& first is Ok ==> end->Done_0 == second
        }),
{
    recorded_reads_back();
}

/// Where no line feed stands in `line`, the first one of a text that goes on with a line feed
/// stands right behind it.
proof fn lemma_line_feed_behind(line: Seq<char>, rest: Seq<char>)
    requires
        forall|i: int| 0 <= i < line.len() ==> #[trigger] line[i] != '\n',
        rest.len() > 0,
        rest[0] == '\n',
    ensures
        line_feed(line + rest) == line.len(),
    decreases line.len(),
{
    let whole = line + rest;
    if line.len() > 0 {
        assert(whole[0] == line[0]);
        lemma_line_feed_behind(line.drop_first(), rest);
        assert(whole.drop_first() =~= line.drop_first() + rest);
    } else {
        assert(whole[0] == rest[0]);
    }
}

/// What is recorded reads back as recorded.
pub proof fn recorded_reads_back()
    ensures
        state_of(Some(recorded_contents())) == MarkerState::Recorded,
{
    reveal_strlit("embedded-mongodb index repair v1");
    reveal_strlit("\n");
    let rest = "\n"@ + EXPLANATION@;
    let whole = RECORD@ + "\n"@ + EXPLANATION@;
    assert(whole =~= RECORD@ + rest);
    assert(RECORD@.len() == 32);
    assert(forall|i: int| 0 <= i < RECORD@.len() ==> #[trigger] RECORD@[i] != '\n');
    lemma_line_feed_behind(RECORD@, rest);
    assert(whole[31] == '1');
    assert(whole.take(32) =~= RECORD@);
}

/// A marker cut short inside its first line, or never begun, does not count.
pub proof fn a_truncated_marker_does_not_count(length: int)
    requires
        0 <= length < RECORD@.len(),
    ensures
        state_of(Some(RECORD@.take(length))) == MarkerState::Missing,
{
    let cut = RECORD@.take(length);
    lemma_line_feed_in_range(cut);
    if let Some(line) = first_line(cut) {
        assert(line.len() <= cut.len());
    }
}

/// The first line feed stands somewhere in the text or at its end.
proof fn lemma_line_feed_in_range(contents: Seq<char>)
    ensures
        0 <= line_feed(contents) <= contents.len(),
    decreases contents.len(),
{
    if contents.len() > 0 {
        lemma_line_feed_in_range(contents.drop_first());
    }
}

} // verus!
