use vstd::prelude::*;
use vstd::string::*;

use crate::domain::confirmation_token::ConfirmationToken;
use crate::subscriptions::{
    after_confirm, confirm_outcome, ConfirmError, ConfirmOutcome, SubscriptionStore,
};

verus! {

/// The query of a confirmation request.
#[derive(Debug)]
pub struct Parameters {
    subscription_token: String,
}

impl Parameters {
    pub fn new(subscription_token: String) -> (r: Parameters)
        ensures
            r.spec_token() == subscription_token@,
    {
        Parameters { subscription_token }
    }

    pub closed spec fn spec_token(&self) -> Seq<char> {
        self.subscription_token@
    }

    pub fn subscription_token(&self) -> (r: &str)
        ensures
            r@ == self.spec_token(),
    {
        self.subscription_token.as_str()
    }
}

/// Handles a confirmation request against `store`.
pub fn confirm(store: &mut SubscriptionStore, parameters: &Parameters) -> (r: Result<
    ConfirmOutcome,
    ConfirmError,
>)
    requires
        old(store).wf(),
    ensures
        final(store).wf(),
        r == confirm_outcome(old(store)@, parameters.spec_token()),
        final(store)@ == after_confirm(old(store)@, parameters.spec_token()),
{
    store.confirm_token(parameters.subscription_token())
}

/// The path, below the application's base URL, that confirms a subscription.
pub open spec fn confirm_path() -> Seq<char> {
    "/subscriptions/confirm?subscription_token="@
}

/// The link sent to a new subscriber: the base URL, the confirmation path and the token.
pub fn confirmation_link(base_url: &str, token: &ConfirmationToken) -> (r: String)
    ensures
        r@ == base_url@ + confirm_path() + token@,
{
    let link = String::from_str(base_url);
    let link = link.concat("/subscriptions/confirm?subscription_token=");
    link.concat(token.as_str())
}

} // verus!
