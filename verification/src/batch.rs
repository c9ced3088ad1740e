//! Batch processing as a sequence of decisions: for each item in turn, what
//! to do with it, and how its outcome is recorded. The caller performs each
//! step (reading, cleaning or shredding a file) and reports its outcome.

use vstd::prelude::*;

use crate::profiles::{apply_profile, selection_after_profile};
use crate::text::owned;
use crate::types::{
    category_list, BatchAction, BatchItem, BatchItemResult, BatchResult, CleanOptions,
    CleanResult, MetadataReport, PrivyFileError, ShredResult,
};

verus! {

/// What to do for one item of a batch.
pub enum BatchStep {
    /// Read and report the file's metadata.
    ReadMetadata { path: String },
    /// Clean the file with these options.
    Clean { path: String, options: CleanOptions },
    /// Shred the file with the batch's shred options.
    Shred { path: String },
}

/// What performing a step produced.
pub enum BatchOutcome {
    Metadata(MetadataReport),
    Cleaned(CleanResult),
    Shredded(ShredResult),
}

/// The message recorded for a completed item.
pub open spec fn action_message(action: BatchAction) -> Seq<char> {
    match action {
        BatchAction::MetadataOnly => "Metadata read"@,
        BatchAction::Clean => "Cleaned"@,
        BatchAction::Shred => "Shredded"@,
        BatchAction::CleanAndShred => "Cleaned and shredded original"@,
    }
}

/// Do the clean options of a step follow from the batch's options for an
/// action: the profile resolved, and for "clean and shred" the original
/// neither preserved nor kept?
pub open spec fn step_options_for(
    action: BatchAction,
    base: CleanOptions,
    options: CleanOptions,
) -> bool {
    &&& category_list(options.categories) == selection_after_profile(
        base.profile,
        category_list(base.categories),
    )
    &&& options.output_dir == base.output_dir
    &&& options.profile == base.profile
    &&& if action == BatchAction::CleanAndShred {
        !options.preserve_original && options.shred_original
    } else {
        options.preserve_original == base.preserve_original && options.shred_original
            == base.shred_original
    }
}

/// Is `step` the right step for `item` under the batch's clean options?
pub open spec fn step_for(item: BatchItem, base: CleanOptions, step: BatchStep) -> bool {
    match item.action {
        BatchAction::MetadataOnly => step matches BatchStep::ReadMetadata { path } && path@
            == item.path@,
        BatchAction::Shred => step matches BatchStep::Shred { path } && path@ == item.path@,
        _ => step matches BatchStep::Clean { path, options } && path@ == item.path@
            && step_options_for(item.action, base, options),
    }
}

/// The step an item calls for.
pub fn plan_batch_item(item: &BatchItem, clean_options: &CleanOptions) -> (r: BatchStep)
    ensures
        step_for(*item, *clean_options, r),
{
    match item.action {
        BatchAction::MetadataOnly => BatchStep::ReadMetadata { path: item.path.clone() },
        BatchAction::Clean => {
            let options = apply_profile(clean_options.duplicate());
            BatchStep::Clean { path: item.path.clone(), options }
        },
        BatchAction::Shred => BatchStep::Shred { path: item.path.clone() },
        BatchAction::CleanAndShred => {
            let mut options = apply_profile(clean_options.duplicate());
            options.preserve_original = false;
            options.shred_original = true;
            BatchStep::Clean { path: item.path.clone(), options }
        },
    }
}

/// The record of a completed item: successful, with the action's message.
pub open spec fn result_for(item: BatchItem, r: BatchItemResult) -> bool {
    &&& r.path@ == item.path@
    &&& r.success
    &&& r.message@ == action_message(item.action)
}

/// Does an outcome answer an item's action: metadata for reading, a shred
/// record for shredding, a clean record for cleaning, and for "clean and
/// shred" a clean record whose original was shredded?
pub open spec fn outcome_fits(action: BatchAction, outcome: BatchOutcome) -> bool {
    match action {
        BatchAction::MetadataOnly => outcome is Metadata,
        BatchAction::Shred => outcome is Shredded,
        BatchAction::Clean => outcome is Cleaned,
        BatchAction::CleanAndShred => outcome matches BatchOutcome::Cleaned(c) && c.original_shredded,
    }
}

/// The outcome sits in its own slot of the record, and the other slots are
/// empty.
pub open spec fn holds_outcome(r: BatchItemResult, outcome: BatchOutcome) -> bool {
    match outcome {
        BatchOutcome::Metadata(m) => r.metadata == Some(m) && r.clean_result is None
            && r.shred_result is None,
        BatchOutcome::Cleaned(c) => r.clean_result == Some(c) && r.metadata is None
            && r.shred_result is None,
        BatchOutcome::Shredded(s) => r.shred_result == Some(s) && r.metadata is None
            && r.clean_result is None,
    }
}

/// The slots of a record are filled as its item's action calls for: the
/// metadata for reading, the shred record for shredding, the clean record
/// for cleaning (with the original shredded for "clean and shred").
pub open spec fn slots_for_action(action: BatchAction, r: BatchItemResult) -> bool {
    match action {
        BatchAction::MetadataOnly => r.metadata is Some && r.clean_result is None
            && r.shred_result is None,
        BatchAction::Shred => r.shred_result is Some && r.metadata is None && r.clean_result is None,
        BatchAction::Clean => r.clean_result is Some && r.metadata is None && r.shred_result is None,
        BatchAction::CleanAndShred => (r.clean_result matches Some(c) && c.original_shredded)
            && r.metadata is None && r.shred_result is None,
    }
}

/// Does an outcome answer an item's action?
pub fn outcome_fits_item(item: &BatchItem, outcome: &BatchOutcome) -> (r: bool)
    ensures
        r == outcome_fits(item.action, *outcome),
{
    match item.action {
        BatchAction::MetadataOnly => matches!(outcome, BatchOutcome::Metadata(_)),
        BatchAction::Shred => matches!(outcome, BatchOutcome::Shredded(_)),
        BatchAction::Clean => matches!(outcome, BatchOutcome::Cleaned(_)),
        BatchAction::CleanAndShred => match outcome {
            BatchOutcome::Cleaned(c) => c.original_shredded,
            _ => false,
        },
    }
}

/// Record the outcome of an item.
pub fn batch_item_result(item: &BatchItem, outcome: BatchOutcome) -> (r: BatchItemResult)
    ensures
        result_for(*item, r),
        holds_outcome(r, outcome),
        outcome_fits(item.action, outcome) ==> slots_for_action(item.action, r),
{
    let message = match item.action {
        BatchAction::MetadataOnly => owned("Metadata read"),
        BatchAction::Clean => owned("Cleaned"),
        BatchAction::Shred => owned("Shredded"),
        BatchAction::CleanAndShred => owned("Cleaned and shredded original"),
    };
    let (metadata, clean_result, shred_result) = match outcome {
        BatchOutcome::Metadata(m) => (Some(m), None, None),
        BatchOutcome::Cleaned(c) => (None, Some(c), None),
        BatchOutcome::Shredded(s) => (None, None, Some(s)),
    };
    BatchItemResult {
        path: item.path.clone(),
        success: true,
        message,
        clean_result,
        shred_result,
        metadata,
    }
}

/// A progress notice, without its percentage: how many items are done, how
/// many there are, the item's file and what is happening to it.
pub struct ProgressNotice {
    pub current: usize,
    pub total: usize,
    pub file_path: String,
    pub status: String,
}

/// A batch in progress: how many items are done, and their records.
pub struct BatchRun {
    done: usize,
    results: Vec<BatchItemResult>,
}

impl BatchRun {
    /// How many items are done.
    pub closed spec fn done_count(&self) -> nat {
        self.done as nat
    }

    /// The records so far.
    pub closed spec fn records(&self) -> Seq<BatchItemResult> {
        self.results@
    }

    /// The run is consistent with the batch: one record per finished item,
    /// in item order.
    pub open spec fn tracks(&self, items: Seq<BatchItem>) -> bool {
        &&& self.done_count() <= items.len()
        &&& self.records().len() == self.done_count()
        &&& forall|i: int|
            0 <= i < self.done_count() ==> result_for(items[i], #[trigger] self.records()[i])
                && slots_for_action(items[i].action, self.records()[i])
    }

    /// A run with nothing done.
    pub fn start() -> (r: BatchRun)
        ensures
            r.done_count() == 0,
            r.records() == Seq::<BatchItemResult>::empty(),
    {
        BatchRun { done: 0, results: Vec::new() }
    }

    /// How many items are done.
    pub fn current(&self) -> (r: usize)
        ensures
            r == self.done_count(),
    {
        self.done
    }

    /// The records so far.
    pub fn results(&self) -> (r: &Vec<BatchItemResult>)
        ensures
            r@ == self.records(),
    {
        &self.results
    }

    /// The step for the next item, or `None` when every item is done.
    pub fn next_step(&self, items: &[BatchItem], clean_options: &CleanOptions) -> (r: Option<
        BatchStep,
    >)
        requires
            self.tracks(items@),
        ensures
            self.done_count() < items@.len() ==> (r matches Some(s) && step_for(
                items@[self.done_count() as int],
                *clean_options,
                s,
            )),
            self.done_count() == items@.len() ==> r is None,
    {
        if self.done < items.len() {
            Some(plan_batch_item(&items[self.done], clean_options))
        } else {
            None
        }
    }

    /// Record the outcome of the next item; the outcome must answer the
    /// item's action.
    pub fn record(&mut self, items: &[BatchItem], outcome: BatchOutcome)
        requires
            old(self).tracks(items@),
            old(self).done_count() < items@.len(),
            outcome_fits(items@[old(self).done_count() as int].action, outcome),
        ensures
            final(self).tracks(items@),
            final(self).done_count() == old(self).done_count() + 1,
            final(self).records().drop_last() == old(self).records(),
            result_for(items@[old(self).done_count() as int], final(self).records().last()),
            holds_outcome(final(self).records().last(), outcome),
    {
        let r = batch_item_result(&items[self.done], outcome);
        self.results.push(r);
        self.done = self.done + 1;
        proof {
            assert(self.results@.drop_last() =~= old(self).results@);
        }
    }

    /// The notice given before the next item is performed: "Processing",
    /// with the number of items done so far.
    pub fn starting_notice(&self, items: &[BatchItem]) -> (r: ProgressNotice)
        requires
            self.tracks(items@),
            self.done_count() < items@.len(),
        ensures
            r.current == self.done_count(),
            r.total == items@.len(),
            r.file_path@ == items@[self.done_count() as int].path@,
            r.status@ == "Processing"@,
    {
        ProgressNotice {
            current: self.done,
            total: items.len(),
            file_path: items[self.done].path.clone(),
            status: owned("Processing"),
        }
    }

    /// The notice given once an item is recorded: "Done", with the number
    /// of items done, that item included.
    pub fn finished_notice(&self, items: &[BatchItem]) -> (r: ProgressNotice)
        requires
            self.tracks(items@),
            0 < self.done_count(),
        ensures
            r.current == self.done_count(),
            r.total == items@.len(),
            r.file_path@ == items@[self.done_count() - 1].path@,
            r.status@ == "Done"@,
    {
        ProgressNotice {
            current: self.done,
            total: items.len(),
            file_path: items[self.done - 1].path.clone(),
            status: owned("Done"),
        }
    }

    /// A batch stops at the first item that fails: the run ends there, no
    /// report is written, and the batch's answer is that item's error.
    pub fn fail(self, error: PrivyFileError) -> (r: Result<BatchResult, PrivyFileError>)
        ensures
            r == Err::<BatchResult, PrivyFileError>(error),
    {
        Err(error)
    }

    /// The result of a finished batch, with the path of its written report.
    pub fn finish(self, items: &[BatchItem], report_path: String) -> (r: BatchResult)
        requires
            self.tracks(items@),
            self.done_count() == items@.len(),
        ensures
            r.items@ == self.records(),
            r.items@.len() == items@.len(),
            forall|i: int|
                0 <= i < items@.len() ==> result_for(items@[i], #[trigger] r.items@[i])
                    && slots_for_action(items@[i].action, r.items@[i]),
            r.report_path matches Some(p) && p == report_path,
    {
        BatchResult { items: self.results, report_path: Some(report_path) }
    }
}

/// A finished batch holds exactly one record per item, in item order, each
/// with its item's path, marked successful, with the message of its item's
/// action, and with the slot of that action filled: metadata for reading,
/// the shred record for shredding, the clean record for cleaning, and for
/// "clean and shred" a clean record whose original was shredded.
pub proof fn law_batch_records_every_item(run: BatchRun, items: Seq<BatchItem>)
    requires
        run.tracks(items),
        run.done_count() == items.len(),
    ensures
        run.records().len() == items.len(),
        forall|i: int|
            0 <= i < items.len() ==> (#[trigger] run.records()[i]).path@ == items[i].path@
                && run.records()[i].success && run.records()[i].message@ == action_message(
                items[i].action,
            ) && slots_for_action(items[i].action, run.records()[i]),
        forall|i: int|
            0 <= i < items.len() ==> ((#[trigger] run.records()[i]).metadata is Some
                <==> items[i].action == BatchAction::MetadataOnly) && (run.records()[i].shred_result is Some
                <==> items[i].action == BatchAction::Shred) && (run.records()[i].clean_result is Some
                <==> (items[i].action == BatchAction::Clean || items[i].action
                == BatchAction::CleanAndShred)),
{
    assert forall|i: int| 0 <= i < items.len() implies (#[trigger] run.records()[i]).path@
        == items[i].path@ && run.records()[i].success && run.records()[i].message@
        == action_message(items[i].action) && slots_for_action(
        items[i].action,
        run.records()[i],
    ) by {
        assert(result_for(items[i], run.records()[i]));
    }
    assert forall|i: int| 0 <= i < items.len() implies ((#[trigger] run.records()[i]).metadata
        is Some <==> items[i].action == BatchAction::MetadataOnly) && (
    run.records()[i].shred_result is Some <==> items[i].action == BatchAction::Shred) && (
    run.records()[i].clean_result is Some <==> (items[i].action == BatchAction::Clean
        || items[i].action == BatchAction::CleanAndShred)) by {
        assert(slots_for_action(items[i].action, run.records()[i]));
    }
}

/// A "clean and shred" item is cleaned with the original neither preserved
/// nor kept, whatever the batch's options say; a "clean" item keeps them.
pub proof fn law_clean_and_shred_discards_original(
    item: BatchItem,
    base: CleanOptions,
    step: BatchStep,
)
    requires
        step_for(item, base, step),
    ensures
        item.action == BatchAction::CleanAndShred ==> (step matches BatchStep::Clean {
            options,
            ..
        } && !options.preserve_original && options.shred_original),
        item.action == BatchAction::Clean ==> (step matches BatchStep::Clean { options, .. }
            && options.preserve_original == base.preserve_original),
{
}

/// The message each action's record carries: "Metadata read", "Cleaned",
/// "Shredded", and "Cleaned and shredded original".
pub proof fn law_action_messages(action: BatchAction)
    ensures
        action_message(action) == match action {
            BatchAction::MetadataOnly => "Metadata read"@,
            BatchAction::Clean => "Cleaned"@,
            BatchAction::Shred => "Shredded"@,
            BatchAction::CleanAndShred => "Cleaned and shredded original"@,
        },
{
}

} // verus!
