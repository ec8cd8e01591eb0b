use vstd::prelude::*;

verus! {

/// Settings that the webhook transport needs.
#[derive(Debug, Clone)]
pub struct AppSettings {
    /// The secret with which the provider signs webhook payloads.
    pub stripe_endpoint_secret: String,
}

impl AppSettings {
    pub fn new(stripe_endpoint_secret: String) -> (r: Self)
        ensures
            r.stripe_endpoint_secret == stripe_endpoint_secret,
    {
        AppSettings { stripe_endpoint_secret }
    }
}

} // verus!
