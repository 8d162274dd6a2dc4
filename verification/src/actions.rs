//! Actions: what is asked of one, and what one hands back.

use vstd::prelude::*;
use crate::options::ActionOptions;
use crate::text::{chars_equal, chars_of};

verus! {

/// A request to run an action on one file.
#[derive(Debug)]
pub struct ActionRequest {
    pub file_path: String,
    pub options: ActionOptions,
}

/// What an action produced: new files, and what it has to say, if
/// anything. The file that the action was given is never among its
/// outputs: an action leaves its input as it is.
#[derive(Debug)]
pub struct ActionResult {
    input: String,
    output_files: Vec<String>,
    diagnostic: Option<String>,
}

/// Whether none of `outputs` is the file at `input`.
pub open spec fn are_new(outputs: Seq<String>, input: Seq<char>) -> bool {
    forall|i: int| 0 <= i < outputs.len() ==> (#[trigger] outputs[i])@ != input
}

/// Tests whether none of `outputs` is the file at `input`.
pub fn all_new(outputs: &Vec<String>, input: &str) -> (yes: bool)
    ensures
        yes == are_new(outputs@, input@),
{
    let wanted = chars_of(input);
    let mut i: usize = 0;
    while i < outputs.len()
        invariant
            i <= outputs.len(),
            wanted@ == input@,
            forall|j: int| 0 <= j < i ==> (#[trigger] outputs@[j])@ != input@,
        decreases outputs.len() - i,
    {
        let output = chars_of(outputs[i].as_str());
        if chars_equal(&output, &wanted) {
            return false;
        }
        i += 1;
    }
    true
}

impl ActionResult {
    #[verifier::type_invariant]
    spec fn outputs_are_new(&self) -> bool {
        are_new(self.output_files@, self.input@)
    }

    /// The file that the action was given.
    pub closed spec fn input_path(&self) -> Seq<char> {
        self.input@
    }

    /// The files that the action produced, in order.
    pub closed spec fn outputs(&self) -> Seq<String> {
        self.output_files@
    }

    /// What the action has to say.
    pub closed spec fn note(&self) -> Option<String> {
        self.diagnostic
    }

    /// The result of an action that was run for `request` and produced
    /// `output_files`. There is no such result where the action names the
    /// file it was given as one of its outputs.
    pub fn new(request: &ActionRequest, output_files: Vec<String>, diagnostic: Option<String>) -> (result: Option<
        ActionResult,
    >)
        ensures
            match result {
                Some(r) => {
                    &&& are_new(output_files@, request.file_path@)
                    &&& r.input_path() == request.file_path@
                    &&& r.outputs() == output_files@
                    &&& r.note() == diagnostic
                },
                None => !are_new(output_files@, request.file_path@),
            },
    {
        if all_new(&output_files, request.file_path.as_str()) {
            Some(ActionResult { input: request.file_path.clone(), output_files, diagnostic })
        } else {
            None
        }
    }

    /// The files that the action produced, in order. None of them is the
    /// file that the action was given.
    pub fn output_files(&self) -> (files: &Vec<String>)
        ensures
            files@ == self.outputs(),
            are_new(files@, self.input_path()),
    {
        proof {
            use_type_invariant(self);
        }
        &self.output_files
    }

    /// What the action has to say, if anything.
    pub fn diagnostic(&self) -> (text: &Option<String>)
        ensures
            *text == self.note(),
    {
        &self.diagnostic
    }
}

} // verus!
