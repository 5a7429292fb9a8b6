//! Batch coordinator: from a batch of messages to the ordered list of what is
//! to be done about it.
//!
//! Nothing here fails a batch. A body that does not decode and a record that
//! yields no command each become a step of their own, to be reported, and the
//! steps of the other items are not affected.

use crate::command::{
    extract_command, extracted, recognized, ExtractError, Field, UpdateCommand, UpdateCommandView,
};
use crate::envelope::{
    decoded_records, ChangeRecord, ChangeRecordView, DecodeError, InnerEnvelope, OuterEnvelope,
};
use vstd::prelude::*;

verus! {

/// One thing to do about a batch.
#[derive(Debug)]
pub enum BatchStep {
    /// Report a body that is no storage event.
    Undecodable(DecodeError),
    /// Report a record that yields no command.
    Rejected { record: ChangeRecord, error: ExtractError },
    /// Hand the command to the retrying executor.
    Execute(UpdateCommand),
}

/// Mathematical content of a [`BatchStep`].
pub enum BatchStepView {
    Undecodable { body: Seq<char>, cause: serde_json::Error },
    Rejected { record: ChangeRecordView, error: ExtractError },
    Execute(UpdateCommandView),
}

impl DeepView for BatchStep {
    type V = BatchStepView;

    open spec fn deep_view(&self) -> BatchStepView {
        match self {
            BatchStep::Undecodable(e) => BatchStepView::Undecodable {
                body: e.body@,
                cause: e.cause,
            },
            BatchStep::Rejected { record, error } => BatchStepView::Rejected {
                record: record.deep_view(),
                error: *error,
            },
            BatchStep::Execute(command) => BatchStepView::Execute(command.deep_view()),
        }
    }
}

/// The step of one change record: its command, or its rejection.
pub open spec fn record_step(record: ChangeRecordView) -> BatchStepView {
    match extracted(record) {
        Ok(command) => BatchStepView::Execute(command),
        Err(error) => BatchStepView::Rejected { record, error },
    }
}

/// The steps of a decoded envelope: one per record, in order.
pub open spec fn envelope_steps(records: Seq<ChangeRecordView>) -> Seq<BatchStepView> {
    Seq::new(records.len(), |i: int| record_step(records[i]))
}

/// The steps of one message: none without a body, one report for a body that
/// does not decode, else the steps of the envelope.
pub open spec fn message_steps(body: Option<Seq<char>>) -> Seq<BatchStepView> {
    match body {
        None => Seq::empty(),
        Some(text) => match decoded_records(text) {
            Err(cause) => seq![BatchStepView::Undecodable { body: text, cause }],
            Ok(records) => envelope_steps(records),
        },
    }
}

/// The steps of a batch: those of its messages, one message after the other.
pub open spec fn batch_steps(bodies: Seq<Option<Seq<char>>>) -> Seq<BatchStepView>
    decreases bodies.len(),
{
    if bodies.len() == 0 {
        Seq::empty()
    } else {
        batch_steps(bodies.drop_last()) + message_steps(bodies.last())
    }
}

/// Plans one change record: extraction, then either the command or the
/// rejection with a copy of the record.
pub fn plan_record(record: &ChangeRecord) -> (step: BatchStep)
    ensures
        step.deep_view() == record_step(record.deep_view()),
{
    match extract_command(record) {
        Ok(command) => BatchStep::Execute(command),
        Err(error) => BatchStep::Rejected { record: record.duplicate(), error },
    }
}

/// Plans a decoded envelope: one step per record, in the order of the records.
pub fn plan_envelope(envelope: &InnerEnvelope) -> (steps: Vec<BatchStep>)
    ensures
        steps.deep_view() == envelope_steps(envelope.deep_view()),
{
    let mut steps: Vec<BatchStep> = Vec::new();
    let mut i: usize = 0;
    while i < envelope.records.len()
        invariant
            i <= envelope.records.len(),
            steps.len() == i,
            forall|j: int|
                0 <= j < i ==> (#[trigger] steps[j]).deep_view() == record_step(
                    envelope.records[j].deep_view(),
                ),
        decreases envelope.records.len() - i,
    {
        steps.push(plan_record(&envelope.records[i]));
        i += 1;
    }
    assert(steps.deep_view() =~= envelope_steps(envelope.deep_view()));
    steps
}

/// Plans what came of decoding one body: the steps of the envelope, or the
/// single report of the failure.
pub fn plan_decoded(decoded: Result<InnerEnvelope, DecodeError>) -> (steps: Vec<BatchStep>)
    ensures
        steps.deep_view() == match decoded {
            Ok(envelope) => envelope_steps(envelope.deep_view()),
            Err(e) => seq![BatchStepView::Undecodable { body: e.body@, cause: e.cause }],
        },
{
    match decoded {
        Ok(envelope) => plan_envelope(&envelope),
        Err(e) => {
            let mut steps: Vec<BatchStep> = Vec::new();
            steps.push(BatchStep::Undecodable(e));
            assert(steps.deep_view() =~= seq![
                BatchStepView::Undecodable { body: e.body@, cause: e.cause },
            ]);
            steps
        },
    }
}

/// Plans one message. A message without a body is skipped: nothing is decoded
/// and nothing is reported.
pub fn plan_message(message: &OuterEnvelope) -> (steps: Vec<BatchStep>)
    ensures
        steps.deep_view() == message_steps(message.deep_view()),
{
    match message.decode() {
        None => {
            let steps: Vec<BatchStep> = Vec::new();
            assert(steps.deep_view() =~= Seq::<BatchStepView>::empty());
            steps
        },
        Some(decoded) => plan_decoded(decoded),
    }
}

/// Plans a whole batch: the steps of every message, in the order of the
/// messages. Every batch has a plan.
pub fn plan_batch(batch: &Vec<OuterEnvelope>) -> (steps: Vec<BatchStep>)
    ensures
        steps.deep_view() == batch_steps(batch.deep_view()),
{
    let mut steps: Vec<BatchStep> = Vec::new();
    let mut i: usize = 0;
    assert(batch.deep_view().take(0) =~= Seq::<Option<Seq<char>>>::empty());
    assert(steps.deep_view() =~= Seq::<BatchStepView>::empty());
    while i < batch.len()
        invariant
            i <= batch.len(),
            steps.deep_view() == batch_steps(batch.deep_view().take(i as int)),
        decreases batch.len() - i,
    {
        let mut more = plan_message(&batch[i]);
        let ghost before = steps.deep_view();
        let ghost added = more.deep_view();
        steps.append(&mut more);
        proof {
            let bodies = batch.deep_view();
            assert(bodies.take(i + 1).drop_last() =~= bodies.take(i as int));
            assert(bodies.take(i + 1).last() == batch[i as int].deep_view());
            assert(steps.deep_view() =~= before + added);
        }
        i += 1;
    }
    assert(batch.deep_view().take(batch.len() as int) =~= batch.deep_view());
    steps
}

/// The plan of two batches in a row is the plan of the first followed by the
/// plan of the second: what one message holds has no bearing on the steps of
/// another.
pub proof fn batches_are_planned_in_turn(
    first: Seq<Option<Seq<char>>>,
    second: Seq<Option<Seq<char>>>,
)
    ensures
        batch_steps(first + second) == batch_steps(first) + batch_steps(second),
    decreases second.len(),
{
    if second.len() == 0 {
        assert(first + second =~= first);
        assert(batch_steps(first) + batch_steps(second) =~= batch_steps(first));
    } else {
        batches_are_planned_in_turn(first, second.drop_last());
        assert((first + second).drop_last() =~= first + second.drop_last());
        assert((first + second).last() == second.last());
        assert(batch_steps(first + second) =~= batch_steps(first) + batch_steps(second));
    }
}

/// A message without a body leaves no trace in the plan, neither a command
/// nor a report: the plan is that of the batch without the message.
pub proof fn absent_body_is_skipped(bodies: Seq<Option<Seq<char>>>, i: int)
    requires
        0 <= i < bodies.len(),
        bodies[i] is None,
    ensures
        message_steps(bodies[i]) == Seq::<BatchStepView>::empty(),
        batch_steps(bodies) == batch_steps(bodies.remove(i)),
{
    let before = bodies.take(i);
    let absent = seq![bodies[i]];
    let after = bodies.skip(i + 1);
    assert(bodies =~= before + absent + after);
    assert(bodies.remove(i) =~= before + after);
    assert(absent.drop_last() =~= Seq::empty());
    assert(batch_steps(absent) =~= Seq::empty()) by {
        reveal_with_fuel(batch_steps, 2);
    }
    batches_are_planned_in_turn(before, absent);
    batches_are_planned_in_turn(before + absent, after);
    batches_are_planned_in_turn(before, after);
    assert(batch_steps(before) + batch_steps(absent) =~= batch_steps(before));
}

/// An envelope of `n` records is planned in exactly `n` steps, the step at
/// place `j` being that of record `j` alone: it is the same in every other
/// envelope that holds the same record at that place.
pub proof fn one_step_per_record(
    records: Seq<ChangeRecordView>,
    others: Seq<ChangeRecordView>,
    j: int,
)
    requires
        0 <= j < records.len(),
        j < others.len(),
        others[j] == records[j],
    ensures
        envelope_steps(records).len() == records.len(),
        envelope_steps(records)[j] == record_step(records[j]),
        envelope_steps(others)[j] == envelope_steps(records)[j],
{
}

/// A record that lacks one of its four fields is rejected and never handed to
/// the executor. The error names the first check that fails: the region first,
/// then bucket, key and version.
pub proof fn incomplete_record_is_rejected(record: ChangeRecordView)
    requires
        record.region is None || record.storage_location is None || record.object_key is None
            || record.object_version is None,
    ensures
        extracted(record) is Err,
        record_step(record) == (BatchStepView::Rejected {
            record,
            error: extracted(record)->Err_0,
        }),
        record.region is None ==> extracted(record)->Err_0 == ExtractError::InvalidRegion,
        recognized(record.region) is Some && record.storage_location is None ==> extracted(
            record,
        )->Err_0 == ExtractError::MissingField(Field::Bucket),
        recognized(record.region) is Some && record.storage_location is Some
            && record.object_key is None ==> extracted(record)->Err_0
            == ExtractError::MissingField(Field::Key),
        recognized(record.region) is Some && record.storage_location is Some
            && record.object_key is Some && record.object_version is None ==> extracted(
            record,
        )->Err_0 == ExtractError::MissingField(Field::Version),
{
}

} // verus!
