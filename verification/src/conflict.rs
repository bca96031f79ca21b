//! Deciding what happens to an item whose destination already exists.

use vstd::prelude::*;

verus! {

/// What the user can answer when asked about one conflict.
#[derive(Debug, Clone, Copy, PartialEq, Eq, Structural)]
pub enum ReplaceOrSkip {
    /// Overwrite this destination.
    Replace,
    /// Overwrite this destination and all that are still open.
    ReplaceAll,
    /// Leave this item as it is.
    Skip,
    /// Leave this item and all that are still open as they are.
    SkipAll,
    /// Stop resolving; open conflicts stay untouched.
    Abort,
}

/// What is done with one conflicting item.
#[derive(Debug, Clone, Copy, PartialEq, Eq, Structural)]
pub enum Resolution {
    Replace,
    Skip,
    Abort,
}

/// What the resolver does with the conflicts that are still open.
#[derive(Debug, Clone, Copy, PartialEq, Eq, Structural)]
pub enum Policy {
    /// Ask about each.
    Ask,
    /// Replace each without asking.
    ReplaceAll,
    /// Skip each without asking.
    SkipAll,
    /// Touch none of them.
    Aborted,
}

/// The buttons of the confirmation dialog.
#[derive(Debug, Clone, Copy, PartialEq, Eq, Structural)]
pub enum ConfirmButton {
    Overwrite,
    Skip,
    Cancel,
}

/// How a confirmation dialog was left.
#[derive(Debug, Clone, Copy, PartialEq, Eq, Structural)]
pub enum DialogResponse {
    /// One of the dialog's own buttons, by its code.
    Other(u16),
    /// The cancel button.
    Cancel,
    /// The dialog was closed.
    Close,
    /// The window was destroyed, or any other way out.
    Dismissed,
}

/// The response code of "replace this one".
pub const REPLACE: u16 = 0;

/// The response code of "replace all".
pub const REPLACE_ALL: u16 = 1;

/// The response code of "skip this one".
pub const SKIP: u16 = 2;

/// The response code of "skip all".
pub const SKIP_ALL: u16 = 3;

/// The answer that a dialog response stands for. Cancelling or closing the
/// dialog abandons the open conflicts; anything that is not understood skips
/// the item asked about.
pub open spec fn answer_of(response: DialogResponse) -> ReplaceOrSkip {
    match response {
        DialogResponse::Other(code) => if code == REPLACE {
            ReplaceOrSkip::Replace
        } else if code == REPLACE_ALL {
            ReplaceOrSkip::ReplaceAll
        } else if code == SKIP_ALL {
            ReplaceOrSkip::SkipAll
        } else {
            ReplaceOrSkip::Skip
        },
        DialogResponse::Cancel => ReplaceOrSkip::Abort,
        DialogResponse::Close => ReplaceOrSkip::Abort,
        DialogResponse::Dismissed => ReplaceOrSkip::Skip,
    }
}

/// Reads the user's answer from the way the dialog was left.
pub fn response_to_enum(response: &DialogResponse) -> (answer: ReplaceOrSkip)
    ensures
        answer == answer_of(*response),
{
    match response {
        DialogResponse::Other(value) => {
            let code: u16 = *value;
            if code == REPLACE {
                ReplaceOrSkip::Replace
            } else if code == REPLACE_ALL {
                ReplaceOrSkip::ReplaceAll
            } else if code == SKIP {
                ReplaceOrSkip::Skip
            } else if code == SKIP_ALL {
                ReplaceOrSkip::SkipAll
            } else {
                ReplaceOrSkip::Skip
            }
        },
        DialogResponse::Cancel => ReplaceOrSkip::Abort,
        DialogResponse::Close => ReplaceOrSkip::Abort,
        DialogResponse::Dismissed => ReplaceOrSkip::Skip,
    }
}

/// The answer that a button gives, with the box "do this for all conflicts"
/// ticked or not.
pub open spec fn button_answer(button: ConfirmButton, for_all: bool) -> ReplaceOrSkip {
    match button {
        ConfirmButton::Overwrite => if for_all {
            ReplaceOrSkip::ReplaceAll
        } else {
            ReplaceOrSkip::Replace
        },
        ConfirmButton::Skip => if for_all {
            ReplaceOrSkip::SkipAll
        } else {
            ReplaceOrSkip::Skip
        },
        ConfirmButton::Cancel => ReplaceOrSkip::Abort,
    }
}

/// The response with which the dialog ends when `button` is released. Read
/// back by `response_to_enum` it gives the button's answer.
pub fn button_response(button: ConfirmButton, for_all: bool) -> (response: DialogResponse)
    ensures
        answer_of(response) == button_answer(button, for_all),
        button == ConfirmButton::Cancel <==> response == DialogResponse::Cancel,
        button != ConfirmButton::Cancel ==> response is Other,
{
    match button {
        ConfirmButton::Overwrite => if for_all {
            DialogResponse::Other(REPLACE_ALL)
        } else {
            DialogResponse::Other(REPLACE)
        },
        ConfirmButton::Skip => if for_all {
            DialogResponse::Other(SKIP_ALL)
        } else {
            DialogResponse::Other(SKIP)
        },
        ConfirmButton::Cancel => DialogResponse::Cancel,
    }
}

/// What a policy does with the next conflict without asking; `None` where it
/// asks.
pub open spec fn standing_of(policy: Policy) -> Option<Resolution> {
    match policy {
        Policy::Ask => None,
        Policy::ReplaceAll => Some(Resolution::Replace),
        Policy::SkipAll => Some(Resolution::Skip),
        Policy::Aborted => Some(Resolution::Abort),
    }
}

/// The policy after an answer. An answer "for all", or to abort, settles the
/// policy; once settled it stays.
pub open spec fn policy_after(policy: Policy, answer: ReplaceOrSkip) -> Policy {
    if policy != Policy::Ask {
        policy
    } else {
        match answer {
            ReplaceOrSkip::Replace => Policy::Ask,
            ReplaceOrSkip::Skip => Policy::Ask,
            ReplaceOrSkip::ReplaceAll => Policy::ReplaceAll,
            ReplaceOrSkip::SkipAll => Policy::SkipAll,
            ReplaceOrSkip::Abort => Policy::Aborted,
        }
    }
}

/// What is done with the item that was asked about. Under a settled policy the
/// answer is not looked at.
pub open spec fn resolution_of(policy: Policy, answer: ReplaceOrSkip) -> Resolution {
    match standing_of(policy) {
        Some(resolution) => resolution,
        None => match answer {
            ReplaceOrSkip::Replace => Resolution::Replace,
            ReplaceOrSkip::ReplaceAll => Resolution::Replace,
            ReplaceOrSkip::Skip => Resolution::Skip,
            ReplaceOrSkip::SkipAll => Resolution::Skip,
            ReplaceOrSkip::Abort => Resolution::Abort,
        },
    }
}

/// Once an answer for all conflicts is given, every later conflict is resolved
/// the same way and nobody is asked again, whatever is answered.
pub proof fn lemma_settled_policy_stays(policy: Policy, answers: Seq<ReplaceOrSkip>, k: int)
    requires
        policy != Policy::Ask,
        0 <= k <= answers.len(),
    ensures
        policy_through(policy, answers, k) == policy,
        standing_of(policy_through(policy, answers, k)) is Some,
    decreases k,
{
    if k > 0 {
        lemma_settled_policy_stays(policy, answers, k - 1);
    }
}

/// The policy after the first `k` of `answers`.
pub open spec fn policy_through(policy: Policy, answers: Seq<ReplaceOrSkip>, k: int) -> Policy
    decreases k,
{
    if k <= 0 {
        policy
    } else {
        policy_after(policy_through(policy, answers, k - 1), answers[k - 1])
    }
}

/// Remembers an answer "for all" and applies it to the conflicts that follow.
#[derive(Debug, Clone, Copy)]
pub struct ConflictResolver {
    policy: Policy,
}

impl View for ConflictResolver {
    type V = Policy;

    closed spec fn view(&self) -> Policy {
        self.policy
    }
}

impl ConflictResolver {
    /// A resolver that asks about each conflict.
    pub fn new() -> (resolver: Self)
        ensures
            resolver@ == Policy::Ask,
    {
        ConflictResolver { policy: Policy::Ask }
    }

    /// The policy in force.
    pub fn policy(&self) -> (policy: Policy)
        ensures
            policy == self@,
    {
        self.policy
    }

    /// What is done with the next conflict without asking; `None` where the
    /// user has to be asked.
    pub fn standing(&self) -> (resolution: Option<Resolution>)
        ensures
            resolution == standing_of(self@),
    {
        match self.policy {
            Policy::Ask => None,
            Policy::ReplaceAll => Some(Resolution::Replace),
            Policy::SkipAll => Some(Resolution::Skip),
            Policy::Aborted => Some(Resolution::Abort),
        }
    }

    /// Takes the user's answer for one conflict and says what is done with it.
    pub fn decide(&mut self, answer: ReplaceOrSkip) -> (resolution: Resolution)
        ensures
            resolution == resolution_of(old(self)@, answer),
            final(self)@ == policy_after(old(self)@, answer),
    {
        match self.policy {
            Policy::Ask => match answer {
                ReplaceOrSkip::Replace => Resolution::Replace,
                ReplaceOrSkip::Skip => Resolution::Skip,
                ReplaceOrSkip::ReplaceAll => {
                    self.policy = Policy::ReplaceAll;
                    Resolution::Replace
                },
                ReplaceOrSkip::SkipAll => {
                    self.policy = Policy::SkipAll;
                    Resolution::Skip
                },
                ReplaceOrSkip::Abort => {
                    self.policy = Policy::Aborted;
                    Resolution::Abort
                },
            },
            Policy::ReplaceAll => Resolution::Replace,
            Policy::SkipAll => Resolution::Skip,
            Policy::Aborted => Resolution::Abort,
        }
    }
}

} // verus!
