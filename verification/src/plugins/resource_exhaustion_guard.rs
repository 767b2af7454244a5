//! The `resource_exhaustion_guard` plugin: blocks calls that drain money or compute (mass refunds, bulk payouts, unbounded provisioning).
use crate::signature::{agrees, all_compile, signature_violation, views, MatchKind};
use crate::{PluginModel, SecurityPlugin};
use vstd::prelude::*;

verus! {

/// The signatures of the `resource_exhaustion_guard` plugin, in the order they are tried.
pub open spec fn resource_exhaustion_signatures() -> Seq<Seq<char>> {
    seq![
        r"(?i)\bwhile\s*\(\s*true\s*\)\s*\{\s*execute_transfer"@,
        r"(?i)\bmax_transaction_limit\s*=\s*true\b"@,
        r"(?i)\btrigger_mass_refund\(\)"@,
        r"(?i)\bexecute_bulk_payout\b"@,
        r"(?i)\bcancel_all_subscriptions\b"@,
        r"(?i)\bprovision_max_gpu_instances\b"@,
        r"(?i)\btwilio_api_spam_flood\b"@,
        r"(?i)\bloop_expensive_reasoning_model\b"@,
        r"(?i)\bgenerate_infinite_gift_cards\b"@,
        r"(?i)\bapply_100_percent_discount\b"@,
        r"(?i)\bauto_pay_unverified_invoice\b"@,
        r"(?i)\bset_user_balance_zero\b"@,
        r"(?i)\bplace_max_micro_bids\b"@,
        r"(?i)\block_entire_inventory_carts\b"@
    ]
}

/// The model of a fresh `ResourceExhaustionGuard`.
pub open spec fn resource_exhaustion_model() -> PluginModel {
    PluginModel {
        name: "resource_exhaustion_guard"@,
        prefix: "Financial or Resource Drain Prevented: Signature match '"@,
        kind: MatchKind::Regex,
        patterns: resource_exhaustion_signatures(),
    }
}

/// The signature list, as strings.
pub fn resource_exhaustion_signature_list() -> (v: Vec<String>)
    ensures
        views(v@) == resource_exhaustion_signatures(),
{
    let v = vec![
        String::from_str(r"(?i)\bwhile\s*\(\s*true\s*\)\s*\{\s*execute_transfer"),
        String::from_str(r"(?i)\bmax_transaction_limit\s*=\s*true\b"),
        String::from_str(r"(?i)\btrigger_mass_refund\(\)"),
        String::from_str(r"(?i)\bexecute_bulk_payout\b"),
        String::from_str(r"(?i)\bcancel_all_subscriptions\b"),
        String::from_str(r"(?i)\bprovision_max_gpu_instances\b"),
        String::from_str(r"(?i)\btwilio_api_spam_flood\b"),
        String::from_str(r"(?i)\bloop_expensive_reasoning_model\b"),
        String::from_str(r"(?i)\bgenerate_infinite_gift_cards\b"),
        String::from_str(r"(?i)\bapply_100_percent_discount\b"),
        String::from_str(r"(?i)\bauto_pay_unverified_invoice\b"),
        String::from_str(r"(?i)\bset_user_balance_zero\b"),
        String::from_str(r"(?i)\bplace_max_micro_bids\b"),
        String::from_str(r"(?i)\block_entire_inventory_carts\b")
    ];
    assert(views(v@) =~= resource_exhaustion_signatures());
    v
}

/// Blocks calls that drain money or compute (mass refunds, bulk payouts, unbounded provisioning).
pub struct ResourceExhaustionGuard {
    signatures: Vec<String>,
}

impl ResourceExhaustionGuard {
    /// The guard holds its fixed signature list, and every signature compiles.
    #[verifier::type_invariant]
    spec fn well_formed(self) -> bool {
        &&& views(self.signatures@) == resource_exhaustion_signatures()
        &&& all_compile(views(self.signatures@))
    }

    /// The plugin's name, message prefix and signatures.
    pub closed spec fn model(self) -> PluginModel {
        PluginModel {
            name: "resource_exhaustion_guard"@,
            prefix: "Financial or Resource Drain Prevented: Signature match '"@,
            kind: MatchKind::Regex,
            patterns: views(self.signatures@),
        }
    }

    /// The plugin with its fixed signature list.
    pub fn new() -> (g: Self)
        requires
            all_compile(resource_exhaustion_signatures()),
        ensures
            g.model() == resource_exhaustion_model(),
    {
        ResourceExhaustionGuard { signatures: resource_exhaustion_signature_list() }
    }
}

impl SecurityPlugin for ResourceExhaustionGuard {
    fn name(&self) -> (r: &str)
        ensures
            r@ == self.model().name,
            self.model() == resource_exhaustion_model(),
    {
        proof {
            use_type_invariant(self);
        }
        "resource_exhaustion_guard"
    }

    fn validate(&self, method_name: &str, args: &[String]) -> (r: Result<(), String>)
        ensures
            agrees(r, self.model().outcome(views(args@))),
            self.model() == resource_exhaustion_model(),
    {
        proof {
            use_type_invariant(self);
        }
        signature_violation(MatchKind::Regex, &self.signatures, args, "Financial or Resource Drain Prevented: Signature match '")
    }
}

} // verus!
