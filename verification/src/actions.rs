//! Countermeasure actions: what the rule engine instructs its host to do.

use vstd::prelude::*;
use vstd::string::StringExecFns;

use crate::strings::spec_decimal;
use crate::strings::u64_to_decimal;

verus! {

/// Mathematical model of an [`Action`].
pub ghost enum ActionView {
    InjectNoise { count: u32 },
    OpenBackgroundTabs { urls: Seq<Seq<char>> },
    SuggestBreak,
    ClickOffTopic,
    ScrollLimit { max_items: u32 },
    ApplyLens { lens_name: Seq<char> },
    Log { message: Seq<char> },
}

/// A tagged countermeasure instruction; it carries no execution logic of its
/// own.
#[derive(Debug, PartialEq, Eq)]
pub enum Action {
    InjectNoise { count: u32 },
    OpenBackgroundTabs { urls: Vec<String> },
    SuggestBreak,
    ClickOffTopic,
    ScrollLimit { max_items: u32 },
    ApplyLens { lens_name: String },
    Log { message: String },
}

impl DeepView for Action {
    type V = ActionView;

    open spec fn deep_view(&self) -> ActionView {
        match *self {
            Action::InjectNoise { count } => ActionView::InjectNoise { count },
            Action::OpenBackgroundTabs { urls } => ActionView::OpenBackgroundTabs {
                urls: urls.deep_view(),
            },
            Action::SuggestBreak => ActionView::SuggestBreak,
            Action::ClickOffTopic => ActionView::ClickOffTopic,
            Action::ScrollLimit { max_items } => ActionView::ScrollLimit { max_items },
            Action::ApplyLens { lens_name } => ActionView::ApplyLens { lens_name: lens_name@ },
            Action::Log { message } => ActionView::Log { message: message@ },
        }
    }
}

impl Clone for Action {
    fn clone(&self) -> (r: Self)
        ensures
            r.deep_view() == self.deep_view(),
    {
        match self {
            Action::InjectNoise { count } => Action::InjectNoise { count: *count },
            Action::OpenBackgroundTabs { urls } => {
                let copied = urls.clone();
                proof {
                    assert(copied.deep_view() =~= urls.deep_view());
                }
                Action::OpenBackgroundTabs { urls: copied }
            },
            Action::SuggestBreak => Action::SuggestBreak,
            Action::ClickOffTopic => Action::ClickOffTopic,
            Action::ScrollLimit { max_items } => Action::ScrollLimit { max_items: *max_items },
            Action::ApplyLens { lens_name } => Action::ApplyLens { lens_name: lens_name.clone() },
            Action::Log { message } => Action::Log { message: message.clone() },
        }
    }
}

/// The fixed human-readable sentence for an action.
pub open spec fn spec_narration(a: ActionView) -> Seq<char> {
    match a {
        ActionView::InjectNoise { count } => "Inject "@ + spec_decimal(count as nat)
            + " off-profile clicks"@,
        ActionView::OpenBackgroundTabs { urls } => "Open "@ + spec_decimal(urls.len())
            + " background tabs for profile dilution"@,
        ActionView::SuggestBreak => "Suggest taking a break"@,
        ActionView::ClickOffTopic => "Click off-topic content"@,
        ActionView::ScrollLimit { max_items } => "Limit scroll to "@ + spec_decimal(
            max_items as nat,
        ) + " items"@,
        ActionView::ApplyLens { lens_name } => "Apply lens: "@ + lens_name,
        ActionView::Log { message } => message,
    }
}

impl Action {
    /// The human-readable description of this action.
    pub fn narrate(&self) -> (r: String)
        ensures
            r@ == spec_narration(self.deep_view()),
    {
        match self {
            Action::InjectNoise { count } => {
                let r = String::from_str("Inject ").concat(
                    u64_to_decimal(*count as u64).as_str(),
                ).concat(" off-profile clicks");
                proof {
                    assert(r@ =~= spec_narration(self.deep_view()));
                }
                r
            },
            Action::OpenBackgroundTabs { urls } => {
                let r = String::from_str("Open ").concat(
                    u64_to_decimal(urls.len() as u64).as_str(),
                ).concat(" background tabs for profile dilution");
                proof {
                    assert(urls.deep_view().len() == urls@.len());
                    assert(r@ =~= spec_narration(self.deep_view()));
                }
                r
            },
            Action::SuggestBreak => String::from_str("Suggest taking a break"),
            Action::ClickOffTopic => String::from_str("Click off-topic content"),
            Action::ScrollLimit { max_items } => {
                let r = String::from_str("Limit scroll to ").concat(
                    u64_to_decimal(*max_items as u64).as_str(),
                ).concat(" items");
                proof {
                    assert(r@ =~= spec_narration(self.deep_view()));
                }
                r
            },
            Action::ApplyLens { lens_name } => {
                let r = String::from_str("Apply lens: ").concat(lens_name.as_str());
                proof {
                    assert(r@ =~= spec_narration(self.deep_view()));
                }
                r
            },
            Action::Log { message } => message.clone(),
        }
    }
}

} // verus!
