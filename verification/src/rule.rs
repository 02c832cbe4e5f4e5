use vstd::prelude::*;
use vstd::std_specs::cmp::PartialEqSpecImpl;
use vstd::string::StringExecFns;
use crate::consts::{Actions, Directions, Protocols};

verus! {

/// A firewall rule: what traffic it matches, what it does with it, and
/// whether it is in force. The texts are handed to the native firewall as
/// they are, in its own notation for ports, addresses and the like; the
/// name is what a rule is looked up by.
#[derive(Debug)]
pub struct FwRule {
    pub name: String,
    pub description: String,
    pub app_name: String,
    pub service_name: String,
    pub protocol: Protocols,
    pub icmp_type: String,
    pub local_ports: String,
    pub remote_ports: String,
    pub local_adresses: String,
    pub remote_addresses: String,
    pub profile1: String,
    pub profile2: String,
    pub profile3: String,
    pub direction: Directions,
    pub action: Actions,
    pub interface_types: String,
    pub interfaces: String,
    pub enabled: bool,
    pub grouping: String,
    pub edge_traversal: bool,
}

/// What a rule says, with each text as its sequence of characters.
#[verifier::ext_equal]
pub struct RuleModel {
    pub name: Seq<char>,
    pub description: Seq<char>,
    pub app_name: Seq<char>,
    pub service_name: Seq<char>,
    pub protocol: Protocols,
    pub icmp_type: Seq<char>,
    pub local_ports: Seq<char>,
    pub remote_ports: Seq<char>,
    pub local_adresses: Seq<char>,
    pub remote_addresses: Seq<char>,
    pub profile1: Seq<char>,
    pub profile2: Seq<char>,
    pub profile3: Seq<char>,
    pub direction: Directions,
    pub action: Actions,
    pub interface_types: Seq<char>,
    pub interfaces: Seq<char>,
    pub enabled: bool,
    pub grouping: Seq<char>,
    pub edge_traversal: bool,
}

impl RuleModel {
    /// The rule that says nothing: every text empty, any protocol, any
    /// direction, blocking, not enabled, no edge traversal.
    pub open spec fn blank() -> RuleModel {
        RuleModel {
            name: Seq::empty(),
            description: Seq::empty(),
            app_name: Seq::empty(),
            service_name: Seq::empty(),
            protocol: Protocols::Any,
            icmp_type: Seq::empty(),
            local_ports: Seq::empty(),
            remote_ports: Seq::empty(),
            local_adresses: Seq::empty(),
            remote_addresses: Seq::empty(),
            profile1: Seq::empty(),
            profile2: Seq::empty(),
            profile3: Seq::empty(),
            direction: Directions::Any,
            action: Actions::Block,
            interface_types: Seq::empty(),
            interfaces: Seq::empty(),
            enabled: false,
            grouping: Seq::empty(),
            edge_traversal: false,
        }
    }

    /// The rule as text for a reader: one line for each field with its
    /// label in front, the three profiles on one line, and a closing line of
    /// dashes. The line of the interface types carries `interfaces`, and the
    /// line of the interfaces carries `interface_types`.
    pub open spec fn text(self) -> Seq<char> {
        "name: "@ + self.name
            + "\ndescription: "@ + self.description
            + "\napplication name: "@ + self.app_name
            + "\nservice name: "@ + self.service_name
            + "\nprotocol: "@ + self.protocol.text()
            + "\nicmp type: "@ + self.icmp_type
            + "\nlocal ports: "@ + self.local_ports
            + "\nremote ports: "@ + self.remote_ports
            + "\nlocal address: "@ + self.local_adresses
            + "\nremote address: "@ + self.remote_addresses
            + "\nprofiles: "@ + self.profile1
            + " "@ + self.profile2
            + " "@ + self.profile3
            + "\ndirection: "@ + self.direction.text()
            + "\naction: "@ + self.action.text()
            + "\ninterfaces types: "@ + self.interfaces
            + "\ninterfaces: "@ + self.interface_types
            + "\nenabled: "@ + switch_text(self.enabled)
            + "\ngrouping: "@ + self.grouping
            + "\nedge traversal: "@ + switch_text(self.edge_traversal)
            + "\n---"@
    }

    /// The same rule, switched off.
    pub open spec fn disabled(self) -> RuleModel {
        RuleModel { enabled: false, ..self }
    }
}

/// The word that a switch is shown as.
pub open spec fn switch_text(on: bool) -> Seq<char> {
    if on {
        "true"@
    } else {
        "false"@
    }
}

/// The word that a switch is shown as.
fn switch_word(on: bool) -> (s: &'static str)
    ensures
        s@ == switch_text(on),
{
    if on {
        "true"
    } else {
        "false"
    }
}

impl FwRule {
    /// The rule as text for a reader.
    pub fn to_string(&self) -> (s: String)
        ensures
            s@ == self@.text(),
    {
        let mut s = String::from_str("name: ");
        s.append(self.name.as_str());
        s.append("\ndescription: ");
        s.append(self.description.as_str());
        s.append("\napplication name: ");
        s.append(self.app_name.as_str());
        s.append("\nservice name: ");
        s.append(self.service_name.as_str());
        s.append("\nprotocol: ");
        s.append(self.protocol.to_string().as_str());
        s.append("\nicmp type: ");
        s.append(self.icmp_type.as_str());
        s.append("\nlocal ports: ");
        s.append(self.local_ports.as_str());
        s.append("\nremote ports: ");
        s.append(self.remote_ports.as_str());
        s.append("\nlocal address: ");
        s.append(self.local_adresses.as_str());
        s.append("\nremote address: ");
        s.append(self.remote_addresses.as_str());
        s.append("\nprofiles: ");
        s.append(self.profile1.as_str());
        s.append(" ");
        s.append(self.profile2.as_str());
        s.append(" ");
        s.append(self.profile3.as_str());
        s.append("\ndirection: ");
        s.append(self.direction.to_string().as_str());
        s.append("\naction: ");
        s.append(self.action.to_string().as_str());
        s.append("\ninterfaces types: ");
        s.append(self.interfaces.as_str());
        s.append("\ninterfaces: ");
        s.append(self.interface_types.as_str());
        s.append("\nenabled: ");
        s.append(switch_word(self.enabled));
        s.append("\ngrouping: ");
        s.append(self.grouping.as_str());
        s.append("\nedge traversal: ");
        s.append(switch_word(self.edge_traversal));
        s.append("\n---");
        s
    }
}

impl View for FwRule {
    type V = RuleModel;

    open spec fn view(&self) -> RuleModel {
        RuleModel {
            name: self.name@,
            description: self.description@,
            app_name: self.app_name@,
            service_name: self.service_name@,
            protocol: self.protocol,
            icmp_type: self.icmp_type@,
            local_ports: self.local_ports@,
            remote_ports: self.remote_ports@,
            local_adresses: self.local_adresses@,
            remote_addresses: self.remote_addresses@,
            profile1: self.profile1@,
            profile2: self.profile2@,
            profile3: self.profile3@,
            direction: self.direction,
            action: self.action,
            interface_types: self.interface_types@,
            interfaces: self.interfaces@,
            enabled: self.enabled,
            grouping: self.grouping@,
            edge_traversal: self.edge_traversal,
        }
    }
}

impl DeepView for FwRule {
    type V = RuleModel;

    open spec fn deep_view(&self) -> RuleModel {
        self@
    }
}

impl Default for FwRule {
    fn default() -> (rule: FwRule)
        ensures
            rule@ == RuleModel::blank(),
    {
        FwRule {
            name: String::new(),
            description: String::new(),
            app_name: String::new(),
            service_name: String::new(),
            protocol: Protocols::Any,
            icmp_type: String::new(),
            local_ports: String::new(),
            remote_ports: String::new(),
            local_adresses: String::new(),
            remote_addresses: String::new(),
            profile1: String::new(),
            profile2: String::new(),
            profile3: String::new(),
            direction: Directions::Any,
            action: Actions::Block,
            interface_types: String::new(),
            interfaces: String::new(),
            enabled: false,
            grouping: String::new(),
            edge_traversal: false,
        }
    }
}

impl Clone for FwRule {
    fn clone(&self) -> (rule: FwRule)
        ensures
            rule == *self,
    {
        FwRule {
            name: self.name.clone(),
            description: self.description.clone(),
            app_name: self.app_name.clone(),
            service_name: self.service_name.clone(),
            protocol: self.protocol,
            icmp_type: self.icmp_type.clone(),
            local_ports: self.local_ports.clone(),
            remote_ports: self.remote_ports.clone(),
            local_adresses: self.local_adresses.clone(),
            remote_addresses: self.remote_addresses.clone(),
            profile1: self.profile1.clone(),
            profile2: self.profile2.clone(),
            profile3: self.profile3.clone(),
            direction: self.direction,
            action: self.action,
            interface_types: self.interface_types.clone(),
            interfaces: self.interfaces.clone(),
            enabled: self.enabled,
            grouping: self.grouping.clone(),
            edge_traversal: self.edge_traversal,
        }
    }
}

impl PartialEq for FwRule {
    fn eq(&self, other: &FwRule) -> (same: bool) {
        self.name == other.name
            && self.description == other.description
            && self.app_name == other.app_name
            && self.service_name == other.service_name
            && self.protocol == other.protocol
            && self.icmp_type == other.icmp_type
            && self.local_ports == other.local_ports
            && self.remote_ports == other.remote_ports
            && self.local_adresses == other.local_adresses
            && self.remote_addresses == other.remote_addresses
            && self.profile1 == other.profile1
            && self.profile2 == other.profile2
            && self.profile3 == other.profile3
            && self.direction == other.direction
            && self.action == other.action
            && self.interface_types == other.interface_types
            && self.interfaces == other.interfaces
            && self.enabled == other.enabled
            && self.grouping == other.grouping
            && self.edge_traversal == other.edge_traversal
    }
}

impl PartialEqSpecImpl for FwRule {
    open spec fn obeys_eq_spec() -> bool {
        true
    }

    open spec fn eq_spec(&self, other: &FwRule) -> bool {
        self@ == other@
    }
}

} // verus!
