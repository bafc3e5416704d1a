//! What the pass does with one collection: check it, repair it where it is damaged, and check
//! again whether that worked.

use crate::command::{Request, RequestView};
use crate::document;
use crate::error::Error;
use crate::repair::commands;
use crate::repair::commands::{validate, Mode};
use crate::repair::namespace::{Namespace, NamespaceView};
use crate::repair::report;
use crate::repair::report::{Damage, DamageView, Health, HealthView, Repaired, RepairedView};
use vstd::prelude::*;

verus! {

/// Something the pass says out loud. Moving a user's documents into another collection is only
/// acceptable if the process says so, so these are as much the deliverable as the repair itself.
#[derive(Debug)]
pub enum Notice {
    /// A collection is about to be repaired. Said before the repair runs, so that one which dies
    /// partway through still leaves the name of the collection it was working on behind.
    Damaged(Damage),
    /// A repair changed something.
    Repaired {
        repaired: Repaired,
        /// The repair *deleted* records that it could not read. The one thing this pass can do
        /// that cannot be undone, so it is said separately and cannot be read past.
        deleted: bool,
        /// Documents moved with nowhere named to look for them.
        destination_unknown: bool,
    },
    /// A collection is still damaged after a repair.
    StillDamaged(Damage),
}

/// [`Notice`] by what it says.
pub enum NoticeView {
    Damaged(DamageView),
    Repaired { repaired: RepairedView, deleted: bool, destination_unknown: bool },
    StillDamaged(DamageView),
}

impl View for Notice {
    type V = NoticeView;

    open spec fn view(&self) -> NoticeView {
        match self {
            Notice::Damaged(damage) => NoticeView::Damaged(damage@),
            Notice::Repaired { repaired, deleted, destination_unknown } => NoticeView::Repaired {
                repaired: repaired@,
                deleted: *deleted,
                destination_unknown: *destination_unknown,
            },
            Notice::StillDamaged(damage) => NoticeView::StillDamaged(damage@),
        }
    }
}

/// What is said of a repair: nothing where it changed nothing.
pub open spec fn said_of(repaired: RepairedView) -> Option<NoticeView> {
    if repaired.changed_anything() {
        Some(
            NoticeView::Repaired {
                repaired,
                deleted: repaired.removed_corrupt_records != 0,
                destination_unknown: repaired.moved_documents != 0 && repaired.lost_and_found
                    is None,
            },
        )
    } else {
        None
    }
}

/// What is said of a repair: nothing where it changed nothing.
pub fn announce_repair(repaired: Repaired) -> (notice: Option<Notice>)
    ensures
        match notice {
            Some(notice) => said_of(repaired@) == Some(notice@),
            None => said_of(repaired@) is None,
        },
        repaired.inserted_index_entries > 0 ==> notice is Some,
        repaired.moved_documents > 0 ==> notice is Some,
        repaired.removed_corrupt_records > 0 ==> notice is Some,
        repaired.removed_extra_index_entries > 0 ==> notice is Some,
{
    if !repaired.changed_anything() {
        return None;
    }
    let deleted: bool = repaired.removed_corrupt_records != 0;
    let destination_unknown: bool = repaired.moved_documents != 0
        && repaired.lost_and_found.is_none();
    Some(Notice::Repaired { repaired, deleted, destination_unknown })
}

/// Which answer a visit is waiting for.
#[derive(Clone, Copy, Debug, PartialEq, Eq, Structural)]
pub enum Stage {
    Check,
    Repair,
    Confirm,
}

/// Where a visit stands.
#[verifier::ext_equal]
pub struct VisitView {
    pub namespace: NamespaceView,
    pub stage: Stage,
}

/// What an answer makes of a visit.
pub enum VisitNext {
    Send(VisitView),
    Visited,
    /// The command failed, and this is that failure.
    Failed,
    /// The scan did not finish, for this reason.
    Unfinished(Seq<char>),
}

impl VisitView {
    /// The command that is waiting for its answer.
    pub open spec fn request(self) -> RequestView {
        RequestView {
            database: self.namespace.database,
            command: commands::validate_fields(
                self.namespace.collection,
                match self.stage {
                    Stage::Repair => Mode::Repair,
                    _ => Mode::Check,
                },
            ),
        }
    }

    /// What the answer to that command makes of the visit, and what is said of it.
    pub open spec fn answered(self, reply: Result<bson::Document, Error>) -> (
        VisitNext,
        Option<NoticeView>,
    ) {
        match (self.stage, reply) {
            (Stage::Check, Ok(response)) => match report::health(document::fields(response)) {
                HealthView::Sound => (VisitNext::Visited, None),
                HealthView::Damaged(damage) => (
                    VisitNext::Send(VisitView { stage: Stage::Repair, ..self }),
                    Some(NoticeView::Damaged(damage)),
                ),
                HealthView::Inconclusive(reason) => (VisitNext::Unfinished(reason), None),
            },
            (Stage::Repair, Ok(response)) => (
                VisitNext::Send(VisitView { stage: Stage::Confirm, ..self }),
                said_of(report::repaired(document::fields(response))),
            ),
            (Stage::Confirm, Ok(response)) => match report::health(document::fields(response)) {
                HealthView::Sound => (VisitNext::Visited, None),
                HealthView::Damaged(damage) => (
                    VisitNext::Visited,
                    Some(NoticeView::StillDamaged(damage)),
                ),
                HealthView::Inconclusive(reason) => (VisitNext::Unfinished(reason), None),
            },
            (_, Err(_)) => (VisitNext::Failed, None),
        }
    }
}

/// Why a collection whose scan did not finish counts as one that was not checked.
pub open spec fn unfinished_reason(namespace: NamespaceView, reason: Seq<char>) -> Seq<char> {
    "validate on "@ + namespace.text() + " did not finish: "@ + reason
}

/// A visit to one collection, waiting for the answer to the command it last asked to have sent.
pub struct Visit {
    namespace: Namespace,
    stage: Stage,
}

/// What a visit does next.
pub enum VisitStep {
    /// Has this command sent, and waits for its answer.
    Send(Visit, Request),
    Done(Result<(), Error>),
}

impl View for Visit {
    type V = VisitView;

    closed spec fn view(&self) -> VisitView {
        VisitView { namespace: self.namespace@, stage: self.stage }
    }
}

impl Visit {
    /// A visit to `namespace`, and the command it starts with.
    pub fn new(namespace: Namespace) -> (start: (Visit, Request))
        ensures
            start.0@ == (VisitView { namespace: namespace@, stage: Stage::Check }),
            start.1@ == start.0@.request(),
    {
        let request: Request = validate(&namespace, Mode::Check);
        (Visit { namespace, stage: Stage::Check }, request)
    }

    /// Takes the answer to the command that was sent. What there is to say of it is said before
    /// anything else is done: by the time a repair has been answered documents may already have
    /// moved to another collection, and the record of where they went must not be able to leave
    /// with a failure of the confirmation that follows.
    pub fn answered(self, reply: Result<bson::Document, Error>) -> (step: (
        Option<Notice>,
        VisitStep,
    ))
        ensures
            match step.0 {
                Some(notice) => self@.answered(reply).1 == Some(notice@),
                None => self@.answered(reply).1 is None,
            },
            match (self@.answered(reply).0, step.1) {
                (VisitNext::Send(next), VisitStep::Send(visit, request)) => {
                    &&& visit@ == next
                    &&& request@ == next.request()
                },
                (VisitNext::Visited, VisitStep::Done(Ok(_))) => true,
                (VisitNext::Failed, VisitStep::Done(Err(error))) => {
                    &&& reply == Err::<bson::Document, Error>(error)
                },
                (VisitNext::Unfinished(reason), VisitStep::Done(Err(error))) => {
                    &&& error.is_invalid_response(unfinished_reason(self@.namespace, reason))
                },
                _ => false,
            },
    {
        let response: bson::Document = match reply {
            Ok(response) => response,
            Err(error) => return (None, VisitStep::Done(Err(error))),
        };
        match self.stage {
            Stage::Check => match Health::parse(&response) {
                Health::Sound => (None, VisitStep::Done(Ok(()))),
                Health::Damaged(damage) => {
                    let request: Request = validate(&self.namespace, Mode::Repair);
                    (
                        Some(Notice::Damaged(damage)),
                        VisitStep::Send(
                            Visit { namespace: self.namespace, stage: Stage::Repair },
                            request,
                        ),
                    )
                },
                // Not repaired and not passed over: a scan that threw says nothing about whether
                // the collection is sound, so the honest answer is that this one was never
                // checked.
                Health::Inconclusive(reason) => (
                    None,
                    VisitStep::Done(Err(did_not_finish(&self.namespace, reason.as_str()))),
                ),
            },
            Stage::Repair => {
                let repaired: Repaired = Repaired::parse(&response);
                // The repair reply reports the state `validate` *found*, not the one it left.
                // Asking again is the only honest way to say whether it worked.
                let request: Request = validate(&self.namespace, Mode::Check);
                (
                    announce_repair(repaired),
                    VisitStep::Send(
                        Visit { namespace: self.namespace, stage: Stage::Confirm },
                        request,
                    ),
                )
            },
            Stage::Confirm => match Health::parse(&response) {
                Health::Sound => (None, VisitStep::Done(Ok(()))),
                Health::Damaged(residual) => (
                    Some(Notice::StillDamaged(residual)),
                    VisitStep::Done(Ok(())),
                ),
                // A confirmation that threw leaves the repair unconfirmed, which is not
                // something to record as done either.
                Health::Inconclusive(reason) => (
                    None,
                    VisitStep::Done(Err(did_not_finish(&self.namespace, reason.as_str()))),
                ),
            },
        }
    }
}

/// Why a collection whose scan did not finish counts as one that was not checked.
fn did_not_finish(namespace: &Namespace, reason: &str) -> (error: Error)
    ensures
        error.is_invalid_response(unfinished_reason(namespace@, reason@)),
{
    let mut message: String = "validate on ".to_owned();
    let dotted: String = namespace.dotted();
    message.append(dotted.as_str());
    message.append(" did not finish: ");
    message.append(reason);
    Error::InvalidResponse(message)
}

/// Where a visit ends when its commands are answered by `replies`, one after the other.
pub open spec fn run_visit(visit: VisitView, replies: Seq<Result<bson::Document, Error>>) -> VisitNext
    decreases replies.len(),
{
    if replies.len() == 0 {
        VisitNext::Send(visit)
    } else {
        match visit.answered(replies[0]).0 {
            VisitNext::Send(next) => run_visit(next, replies.drop_first()),
            end => end,
        }
    }
}

/// A visit that counts is one whose every scan finished: it either found the collection sound at
/// once, or repaired it and got a verdict on that. It takes three commands at most, and sends
/// the repair only where damage was found.
pub proof fn a_visit_counts_only_with_a_verdict(
    namespace: NamespaceView,
    replies: Seq<Result<bson::Document, Error>>,
)
    requires
        replies.len() >= 3,
    ensures
        ({
            let start = VisitView { namespace, stage: Stage::Check };
            let end = run_visit(start, replies);
            &&& !(end is Send)
            &&& end is Visited <==> {
                &&& replies[0] is Ok
                &&& {
                    ||| report::health(document::fields(replies[0]->Ok_0)) is Sound
                    ||| {
                        &&& report::health(document::fields(replies[0]->Ok_0)) is Damaged
                        &&& replies[1] is Ok
                        &&& replies[2] is Ok
                        &&& !(report::health(document::fields(replies[2]->Ok_0)) is Inconclusive)
                    }
                }
            }
            &&& start.answered(replies[0]).0 is Send <==> replies[0] is Ok && report::health(
                document::fields(replies[0]->Ok_0),
            ) is Damaged
        }),
{
    reveal_with_fuel(run_visit, 4);
    let second = replies.drop_first();
    let third = second.drop_first();
    assert(second[0] == replies[1] && third[0] == replies[2]);
}

/// Documents that moved are always spoken of: a repair that reports having moved, inserted or
/// removed anything is announced, with a word of its own where records were deleted or where it
/// cannot be said where documents went.
pub proof fn nothing_moves_in_silence(repaired: RepairedView)
    requires
        repaired.changed_anything(),
    ensures
        said_of(repaired) is Some,
        said_of(repaired)->0->deleted <==> repaired.removed_corrupt_records != 0,
        repaired.moved_documents > 0 ==> repaired.lost_and_found is Some
            || said_of(repaired)->0->destination_unknown,
{
}

} // verus!
