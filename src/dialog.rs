use vstd::prelude::*;

verus! {

/// The title of the folder picker that the bridge command opens.
pub fn folder_dialog_title() -> (r: &'static str)
    ensures
        r@ == "Select Contracts Directory"@,
{
    "Select Contracts Directory"
}

/// How the user, or the host, answered one folder picker.
#[derive(Clone, Debug)]
pub enum PickerAnswer {
    /// The user confirmed the folder at `path`.
    Chosen { path: String },
    /// The user closed the picker without choosing.
    Cancelled,
    /// The host has no native dialog to offer.
    Unavailable,
}

/// Why the bridge command could not ask the user.
#[derive(Clone, Copy, Debug, PartialEq, Eq, Structural)]
pub enum DialogError {
    /// The native dialog subsystem is missing.
    Unavailable,
}

/// What the bridge command returns for answer `a`: the chosen path as it
/// came, nothing on cancellation, an error only when no dialog exists.
pub open spec fn outcome(a: PickerAnswer) -> Result<Option<String>, DialogError> {
    match a {
        PickerAnswer::Chosen { path } => Ok(Some(path)),
        PickerAnswer::Cancelled => Ok(None),
        PickerAnswer::Unavailable => Err(DialogError::Unavailable),
    }
}

/// The bridge command's result for one picker answer. A cancellation is a
/// successful empty result; the chosen path is returned unchanged. Each
/// invocation depends on its own answer only.
pub fn select_directory(answer: PickerAnswer) -> (r: Result<Option<String>, DialogError>)
    ensures
        r == outcome(answer),
        answer is Cancelled ==> r == Ok::<Option<String>, DialogError>(None),
        answer matches PickerAnswer::Chosen { path } ==> r matches Ok(Some(p)) && p@ == path@,
        r is Err <==> answer is Unavailable,
{
    match answer {
        PickerAnswer::Chosen { path } => Ok(Some(path)),
        PickerAnswer::Cancelled => Ok(None),
        PickerAnswer::Unavailable => Err(DialogError::Unavailable),
    }
}

/// Invocations of the bridge command share no state: whatever two callers
/// receive is fixed by their own answers, so the results of two invocations
/// agree exactly when the answers do, in whichever order they complete.
pub proof fn lemma_invocations_independent(first: PickerAnswer, second: PickerAnswer)
    ensures
        (outcome(first) == outcome(second)) <==> (first == second),
        first matches PickerAnswer::Chosen { path } ==> outcome(first) == Ok::<
            Option<String>,
            DialogError,
        >(Some(path)),
        second matches PickerAnswer::Chosen { path } ==> outcome(second) == Ok::<
            Option<String>,
            DialogError,
        >(Some(path)),
{
}

} // verus!
