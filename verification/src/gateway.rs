//! A GlobalProtect gateway as presented in the portal's configuration.
//!
//! Each gateway has a display name, an address, a priority, and optional
//! per-region priority rules used for sorting.

use vstd::prelude::*;
use vstd::string::StringExecFns;

verus! {

/// A region-based priority override from the portal's gateway list.
#[derive(Debug, Clone)]
pub struct PriorityRule {
    pub name: String,
    pub priority: u32,
}

/// One gateway entry from the portal configuration.
#[derive(Debug, Clone)]
pub struct Gateway {
    pub name: String,
    pub address: String,
    pub priority: u32,
    pub priority_rules: Vec<PriorityRule>,
}

/// The abstract value of a priority rule.
pub struct PriorityRuleView {
    pub name: Seq<char>,
    pub priority: u32,
}

/// The abstract value of a gateway entry.
pub struct GatewayView {
    pub name: Seq<char>,
    pub address: Seq<char>,
    pub priority: u32,
    pub priority_rules: Seq<PriorityRuleView>,
}

impl View for PriorityRule {
    type V = PriorityRuleView;

    open spec fn view(&self) -> PriorityRuleView {
        PriorityRuleView { name: self.name@, priority: self.priority }
    }
}

impl View for Gateway {
    type V = GatewayView;

    open spec fn view(&self) -> GatewayView {
        GatewayView {
            name: self.name@,
            address: self.address@,
            priority: self.priority,
            priority_rules: self.priority_rules@.map_values(|r: PriorityRule| r@),
        }
    }
}

/// The abstract values of a list of gateways.
pub open spec fn gateways_view(gateways: Seq<Gateway>) -> Seq<GatewayView> {
    gateways.map_values(|g: Gateway| g@)
}

/// The display text of a gateway: its name, then its address in parentheses.
pub open spec fn gateway_display_text(g: GatewayView) -> Seq<char> {
    g.name + " ("@ + g.address + ")"@
}

/// The display text of a gateway is its name, then ` (`, then its address,
/// then `)`, whatever characters the name and the address hold.
pub proof fn lemma_display_text_layout(g: GatewayView)
    ensures
        ({
            let t = gateway_display_text(g);
            let n = g.name.len() as int;
            &&& t.len() == g.name.len() + g.address.len() + 3
            &&& t.subrange(0, n) == g.name
            &&& t.subrange(n, n + 2) == " ("@
            &&& t.subrange(n + 2, t.len() - 1) == g.address
            &&& t[t.len() - 1] == ')'
        }),
{
    reveal_strlit(" (");
    reveal_strlit(")");
    let t = gateway_display_text(g);
    let n = g.name.len() as int;
    assert(t.subrange(0, n) =~= g.name);
    assert(t.subrange(n, n + 2) =~= " ("@);
    assert(t.subrange(n + 2, t.len() - 1) =~= g.address);
}

/// Two gateways with the same name display alike only when their addresses
/// are the same.
pub proof fn lemma_display_text_shows_address(a: GatewayView, b: GatewayView)
    requires
        a.name == b.name,
    ensures
        gateway_display_text(a) == gateway_display_text(b) ==> a.address == b.address,
{
    lemma_display_text_layout(a);
    lemma_display_text_layout(b);
}

impl Gateway {
    /// A gateway known only by name and address (no priority data), the shape
    /// used when connecting directly to a gateway without a portal config.
    pub fn new(name: String, address: String) -> (r: Self)
        ensures
            r@ == (GatewayView {
                name: name@,
                address: address@,
                priority: 0,
                priority_rules: Seq::empty(),
            }),
    {
        let r = Gateway { name, address, priority: 0, priority_rules: Vec::new() };
        assert(r@.priority_rules =~= Seq::<PriorityRuleView>::empty());
        r
    }

    pub fn name(&self) -> (r: &str)
        ensures
            r@ == self@.name,
    {
        self.name.as_str()
    }

    /// The address to actually connect to.
    pub fn server(&self) -> (r: &str)
        ensures
            r@ == self@.address,
    {
        self.address.as_str()
    }

    /// The display text `name (address)`.
    pub fn display_string(&self) -> (r: String)
        ensures
            r@ == gateway_display_text(self@),
    {
        let mut out = String::from_str(self.name.as_str());
        out.append(" (");
        out.append(self.address.as_str());
        out.append(")");
        out
    }
}

} // verus!
