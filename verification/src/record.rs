use vstd::prelude::*;
use crate::consts::{Actions, Directions, Protocols};
use crate::consts::{ACTION_BLOCK, DIRECTION_ANY, PROTOCOL_ANY};
use crate::error::Error;
use crate::rule::{FwRule, RuleModel};
use crate::text::{
    blank_slot, decode_text, encode_text, fits, lemma_read_fits, lemma_read_written,
    lemma_written_empty, read, slot_of, TEXT_CAPACITY,
};

verus! {

/// A rule as the native firewall interface lays it out: one text slot of
/// fixed size per text, one integer code per choice and per switch, in the
/// order the interface expects.
#[derive(Debug, PartialEq, Eq)]
pub struct NativeRecord {
    pub name: [u8; TEXT_CAPACITY],
    pub description: [u8; TEXT_CAPACITY],
    pub app_name: [u8; TEXT_CAPACITY],
    pub service_name: [u8; TEXT_CAPACITY],
    pub protocol: i32,
    pub icmp_type: [u8; TEXT_CAPACITY],
    pub local_ports: [u8; TEXT_CAPACITY],
    pub remote_ports: [u8; TEXT_CAPACITY],
    pub local_adresses: [u8; TEXT_CAPACITY],
    pub remote_addresses: [u8; TEXT_CAPACITY],
    pub profile1: [u8; TEXT_CAPACITY],
    pub profile2: [u8; TEXT_CAPACITY],
    pub profile3: [u8; TEXT_CAPACITY],
    pub direction: i32,
    pub action: i32,
    pub interface_types: [u8; TEXT_CAPACITY],
    pub interfaces: [u8; TEXT_CAPACITY],
    pub enabled: i32,
    pub grouping: [u8; TEXT_CAPACITY],
    pub edge_traversal: i32,
}

/// What a native record holds, with each text slot as its sequence of bytes.
#[verifier::ext_equal]
pub struct RecordModel {
    pub name: Seq<u8>,
    pub description: Seq<u8>,
    pub app_name: Seq<u8>,
    pub service_name: Seq<u8>,
    pub protocol: i32,
    pub icmp_type: Seq<u8>,
    pub local_ports: Seq<u8>,
    pub remote_ports: Seq<u8>,
    pub local_adresses: Seq<u8>,
    pub remote_addresses: Seq<u8>,
    pub profile1: Seq<u8>,
    pub profile2: Seq<u8>,
    pub profile3: Seq<u8>,
    pub direction: i32,
    pub action: i32,
    pub interface_types: Seq<u8>,
    pub interfaces: Seq<u8>,
    pub enabled: i32,
    pub grouping: Seq<u8>,
    pub edge_traversal: i32,
}

impl View for NativeRecord {
    type V = RecordModel;

    open spec fn view(&self) -> RecordModel {
        RecordModel {
            name: self.name@,
            description: self.description@,
            app_name: self.app_name@,
            service_name: self.service_name@,
            protocol: self.protocol,
            icmp_type: self.icmp_type@,
            local_ports: self.local_ports@,
            remote_ports: self.remote_ports@,
            local_adresses: self.local_adresses@,
            remote_addresses: self.remote_addresses@,
            profile1: self.profile1@,
            profile2: self.profile2@,
            profile3: self.profile3@,
            direction: self.direction,
            action: self.action,
            interface_types: self.interface_types@,
            interfaces: self.interfaces@,
            enabled: self.enabled,
            grouping: self.grouping@,
            edge_traversal: self.edge_traversal,
        }
    }
}

impl DeepView for NativeRecord {
    type V = RecordModel;

    open spec fn deep_view(&self) -> RecordModel {
        self@
    }
}

impl Clone for NativeRecord {
    fn clone(&self) -> (rec: NativeRecord)
        ensures
            rec == *self,
    {
        NativeRecord {
            name: self.name,
            description: self.description,
            app_name: self.app_name,
            service_name: self.service_name,
            protocol: self.protocol,
            icmp_type: self.icmp_type,
            local_ports: self.local_ports,
            remote_ports: self.remote_ports,
            local_adresses: self.local_adresses,
            remote_addresses: self.remote_addresses,
            profile1: self.profile1,
            profile2: self.profile2,
            profile3: self.profile3,
            direction: self.direction,
            action: self.action,
            interface_types: self.interface_types,
            interfaces: self.interfaces,
            enabled: self.enabled,
            grouping: self.grouping,
            edge_traversal: self.edge_traversal,
        }
    }
}

/// The code written for a switch: one when it is on, zero when it is off.
pub open spec fn switch_code(on: bool) -> i32 {
    if on {
        1
    } else {
        0
    }
}

/// What a code says of a switch: it is on unless the code is zero.
pub open spec fn switch_of_code(code: i32) -> bool {
    code != 0
}

impl RecordModel {
    /// The record that nothing was written into: blank slots, the code for
    /// any protocol, and zero for every other code.
    pub open spec fn blank() -> RecordModel {
        RecordModel {
            name: blank_slot(),
            description: blank_slot(),
            app_name: blank_slot(),
            service_name: blank_slot(),
            protocol: PROTOCOL_ANY,
            icmp_type: blank_slot(),
            local_ports: blank_slot(),
            remote_ports: blank_slot(),
            local_adresses: blank_slot(),
            remote_addresses: blank_slot(),
            profile1: blank_slot(),
            profile2: blank_slot(),
            profile3: blank_slot(),
            direction: DIRECTION_ANY,
            action: ACTION_BLOCK,
            interface_types: blank_slot(),
            interfaces: blank_slot(),
            enabled: 0,
            grouping: blank_slot(),
            edge_traversal: 0,
        }
    }

    /// Whether every slot has the size of a native text slot, as the slots
    /// of every `NativeRecord` have.
    pub open spec fn sized(self) -> bool {
        &&& self.name.len() == TEXT_CAPACITY
        &&& self.description.len() == TEXT_CAPACITY
        &&& self.app_name.len() == TEXT_CAPACITY
        &&& self.service_name.len() == TEXT_CAPACITY
        &&& self.icmp_type.len() == TEXT_CAPACITY
        &&& self.local_ports.len() == TEXT_CAPACITY
        &&& self.remote_ports.len() == TEXT_CAPACITY
        &&& self.local_adresses.len() == TEXT_CAPACITY
        &&& self.remote_addresses.len() == TEXT_CAPACITY
        &&& self.profile1.len() == TEXT_CAPACITY
        &&& self.profile2.len() == TEXT_CAPACITY
        &&& self.profile3.len() == TEXT_CAPACITY
        &&& self.interface_types.len() == TEXT_CAPACITY
        &&& self.interfaces.len() == TEXT_CAPACITY
        &&& self.grouping.len() == TEXT_CAPACITY
    }

    /// Whether every slot holds a text.
    pub open spec fn readable(self) -> bool {
        &&& read(self.name) is Some
        &&& read(self.description) is Some
        &&& read(self.app_name) is Some
        &&& read(self.service_name) is Some
        &&& read(self.icmp_type) is Some
        &&& read(self.local_ports) is Some
        &&& read(self.remote_ports) is Some
        &&& read(self.local_adresses) is Some
        &&& read(self.remote_addresses) is Some
        &&& read(self.profile1) is Some
        &&& read(self.profile2) is Some
        &&& read(self.profile3) is Some
        &&& read(self.interface_types) is Some
        &&& read(self.interfaces) is Some
        &&& read(self.grouping) is Some
    }

    /// The rule that a record stands for, if every slot holds a text: each
    /// text read from its slot, each choice from its code, each switch on
    /// unless its code is zero.
    pub open spec fn to_rule(self) -> Option<RuleModel> {
        if self.readable() {
            Some(
                RuleModel {
                    name: read(self.name)->0,
                    description: read(self.description)->0,
                    app_name: read(self.app_name)->0,
                    service_name: read(self.service_name)->0,
                    protocol: Protocols::of_code(self.protocol),
                    icmp_type: read(self.icmp_type)->0,
                    local_ports: read(self.local_ports)->0,
                    remote_ports: read(self.remote_ports)->0,
                    local_adresses: read(self.local_adresses)->0,
                    remote_addresses: read(self.remote_addresses)->0,
                    profile1: read(self.profile1)->0,
                    profile2: read(self.profile2)->0,
                    profile3: read(self.profile3)->0,
                    direction: Directions::of_code(self.direction),
                    action: Actions::of_code(self.action),
                    interface_types: read(self.interface_types)->0,
                    interfaces: read(self.interfaces)->0,
                    enabled: switch_of_code(self.enabled),
                    grouping: read(self.grouping)->0,
                    edge_traversal: switch_of_code(self.edge_traversal),
                },
            )
        } else {
            None
        }
    }
}

impl RuleModel {
    /// Whether every text of the rule fits into a native text slot.
    pub open spec fn fits(self) -> bool {
        &&& fits(self.name)
        &&& fits(self.description)
        &&& fits(self.app_name)
        &&& fits(self.service_name)
        &&& fits(self.icmp_type)
        &&& fits(self.local_ports)
        &&& fits(self.remote_ports)
        &&& fits(self.local_adresses)
        &&& fits(self.remote_addresses)
        &&& fits(self.profile1)
        &&& fits(self.profile2)
        &&& fits(self.profile3)
        &&& fits(self.interface_types)
        &&& fits(self.interfaces)
        &&& fits(self.grouping)
    }

    /// Whether no text of the rule holds the character NUL, which a native
    /// text slot reads as the end of the text.
    pub open spec fn nul_free(self) -> bool {
        &&& !self.name.contains('\0')
        &&& !self.description.contains('\0')
        &&& !self.app_name.contains('\0')
        &&& !self.service_name.contains('\0')
        &&& !self.icmp_type.contains('\0')
        &&& !self.local_ports.contains('\0')
        &&& !self.remote_ports.contains('\0')
        &&& !self.local_adresses.contains('\0')
        &&& !self.remote_addresses.contains('\0')
        &&& !self.profile1.contains('\0')
        &&& !self.profile2.contains('\0')
        &&& !self.profile3.contains('\0')
        &&& !self.interface_types.contains('\0')
        &&& !self.interfaces.contains('\0')
        &&& !self.grouping.contains('\0')
    }

    /// The record that stands for a rule whose texts fit: each text written
    /// into a blank slot, each choice and each switch as its code.
    pub open spec fn to_record(self) -> RecordModel
        recommends
            self.fits(),
    {
        RecordModel {
            name: slot_of(self.name),
            description: slot_of(self.description),
            app_name: slot_of(self.app_name),
            service_name: slot_of(self.service_name),
            protocol: self.protocol.spec_code(),
            icmp_type: slot_of(self.icmp_type),
            local_ports: slot_of(self.local_ports),
            remote_ports: slot_of(self.remote_ports),
            local_adresses: slot_of(self.local_adresses),
            remote_addresses: slot_of(self.remote_addresses),
            profile1: slot_of(self.profile1),
            profile2: slot_of(self.profile2),
            profile3: slot_of(self.profile3),
            direction: self.direction.spec_code(),
            action: self.action.spec_code(),
            interface_types: slot_of(self.interface_types),
            interfaces: slot_of(self.interfaces),
            enabled: switch_code(self.enabled),
            grouping: slot_of(self.grouping),
            edge_traversal: switch_code(self.edge_traversal),
        }
    }
}

impl Default for NativeRecord {
    fn default() -> (rec: NativeRecord)
        ensures
            rec@ == RecordModel::blank(),
    {
        let rec = NativeRecord {
            name: [0u8; TEXT_CAPACITY],
            description: [0u8; TEXT_CAPACITY],
            app_name: [0u8; TEXT_CAPACITY],
            service_name: [0u8; TEXT_CAPACITY],
            protocol: PROTOCOL_ANY,
            icmp_type: [0u8; TEXT_CAPACITY],
            local_ports: [0u8; TEXT_CAPACITY],
            remote_ports: [0u8; TEXT_CAPACITY],
            local_adresses: [0u8; TEXT_CAPACITY],
            remote_addresses: [0u8; TEXT_CAPACITY],
            profile1: [0u8; TEXT_CAPACITY],
            profile2: [0u8; TEXT_CAPACITY],
            profile3: [0u8; TEXT_CAPACITY],
            direction: DIRECTION_ANY,
            action: ACTION_BLOCK,
            interface_types: [0u8; TEXT_CAPACITY],
            interfaces: [0u8; TEXT_CAPACITY],
            enabled: 0,
            grouping: [0u8; TEXT_CAPACITY],
            edge_traversal: 0,
        };
        assert(rec@ =~~= RecordModel::blank());
        rec
    }
}

/// Lays a rule out as a native record, starting from the blank record. A
/// rule with a text that does not fit into its slot is refused.
pub fn rule_to_record(rule: &FwRule) -> (res: Result<NativeRecord, Error>)
    ensures
        match res {
            Ok(rec) => rule@.fits() && rec@ == rule@.to_record(),
            Err(e) => !rule@.fits() && e == Error::TooLong,
        },
{
    let mut rec = NativeRecord::default();
    encode_text(rule.name.as_str(), &mut rec.name)?;
    encode_text(rule.description.as_str(), &mut rec.description)?;
    encode_text(rule.app_name.as_str(), &mut rec.app_name)?;
    encode_text(rule.service_name.as_str(), &mut rec.service_name)?;
    rec.protocol = rule.protocol.code();
    encode_text(rule.icmp_type.as_str(), &mut rec.icmp_type)?;
    encode_text(rule.local_ports.as_str(), &mut rec.local_ports)?;
    encode_text(rule.remote_ports.as_str(), &mut rec.remote_ports)?;
    encode_text(rule.local_adresses.as_str(), &mut rec.local_adresses)?;
    encode_text(rule.remote_addresses.as_str(), &mut rec.remote_addresses)?;
    encode_text(rule.profile1.as_str(), &mut rec.profile1)?;
    encode_text(rule.profile2.as_str(), &mut rec.profile2)?;
    encode_text(rule.profile3.as_str(), &mut rec.profile3)?;
    rec.direction = rule.direction.code();
    rec.action = rule.action.code();
    encode_text(rule.interface_types.as_str(), &mut rec.interface_types)?;
    encode_text(rule.interfaces.as_str(), &mut rec.interfaces)?;
    rec.enabled = if rule.enabled {
        1
    } else {
        0
    };
    encode_text(rule.grouping.as_str(), &mut rec.grouping)?;
    rec.edge_traversal = if rule.edge_traversal {
        1
    } else {
        0
    };
    assert(rec@ =~~= rule@.to_record());
    Ok(rec)
}

/// Reads the rule that a native record stands for. A record with a slot
/// that holds no text is a decoding error.
pub fn record_to_rule(rec: &NativeRecord) -> (res: Result<FwRule, Error>)
    ensures
        match res {
            Ok(rule) => rec@.to_rule() == Some(rule@),
            Err(e) => rec@.to_rule() is None && e == Error::Decode,
        },
{
    let name = decode_text(&rec.name)?;
    let description = decode_text(&rec.description)?;
    let app_name = decode_text(&rec.app_name)?;
    let service_name = decode_text(&rec.service_name)?;
    let icmp_type = decode_text(&rec.icmp_type)?;
    let local_ports = decode_text(&rec.local_ports)?;
    let remote_ports = decode_text(&rec.remote_ports)?;
    let local_adresses = decode_text(&rec.local_adresses)?;
    let remote_addresses = decode_text(&rec.remote_addresses)?;
    let profile1 = decode_text(&rec.profile1)?;
    let profile2 = decode_text(&rec.profile2)?;
    let profile3 = decode_text(&rec.profile3)?;
    let interface_types = decode_text(&rec.interface_types)?;
    let interfaces = decode_text(&rec.interfaces)?;
    let grouping = decode_text(&rec.grouping)?;
    let rule = FwRule {
        name,
        description,
        app_name,
        service_name,
        protocol: Protocols::from(rec.protocol),
        icmp_type,
        local_ports,
        remote_ports,
        local_adresses,
        remote_addresses,
        profile1,
        profile2,
        profile3,
        direction: Directions::from(rec.direction),
        action: Actions::from(rec.action),
        interface_types,
        interfaces,
        enabled: rec.enabled != 0,
        grouping,
        edge_traversal: rec.edge_traversal != 0,
    };
    assert(rec@.to_rule()->0 =~~= rule@);
    Ok(rule)
}

/// The rules that a sequence of records stands for, one for each record and
/// in the same order, if every record stands for a rule.
pub open spec fn to_rules(records: Seq<RecordModel>) -> Option<Seq<RuleModel>> {
    if forall|i: int| 0 <= i < records.len() ==> (#[trigger] records[i]).to_rule() is Some {
        Some(Seq::new(records.len(), |i: int| records[i].to_rule()->0))
    } else {
        None
    }
}

/// Reads the rules that the records stand for, in the order of the records.
/// One record with a slot that holds no text makes the whole a decoding
/// error.
pub fn decode_records(records: &[NativeRecord]) -> (res: Result<Vec<FwRule>, Error>)
    ensures
        match res {
            Ok(rules) => rules@.len() == records@.len() && to_rules(records.deep_view()) == Some(
                rules.deep_view(),
            ),
            Err(e) => to_rules(records.deep_view()) is None && e == Error::Decode,
        },
{
    let mut rules: Vec<FwRule> = Vec::new();
    let mut i: usize = 0;
    while i < records.len()
        invariant
            0 <= i <= records@.len(),
            rules@.len() == i,
            forall|j: int| 0 <= j < i ==> records@[j]@.to_rule() == Some(#[trigger] rules@[j]@),
        decreases records@.len() - i,
    {
        match record_to_rule(&records[i]) {
            Ok(rule) => {
                rules.push(rule);
            },
            Err(e) => {
                assert(records.deep_view()[i as int].to_rule() is None);
                return Err(e);
            },
        }
        i += 1;
    }
    proof {
        let models = records.deep_view();
        assert forall|j: int| 0 <= j < models.len() implies (#[trigger] models[j]).to_rule()
            is Some by {
            assert(records@[j]@.to_rule() == Some(rules@[j]@));
        }
        assert(to_rules(models)->0 =~= rules.deep_view()) by {
            assert forall|j: int| 0 <= j < models.len() implies to_rules(models)->0[j]
                == rules.deep_view()[j] by {
                assert(records@[j]@.to_rule() == Some(rules@[j]@));
            }
        }
    }
    Ok(rules)
}

/// The blank record is the record of the blank rule.
pub proof fn lemma_blank_record()
    ensures
        RuleModel::blank().fits(),
        RuleModel::blank().to_record() == RecordModel::blank(),
{
    lemma_written_empty(blank_slot());
    assert(RuleModel::blank().to_record() =~~= RecordModel::blank());
}

/// A rule whose texts fit and hold no NUL comes back unchanged from its
/// record: every text, every choice and every switch.
pub proof fn lemma_rule_round_trip(rule: RuleModel)
    requires
        rule.fits(),
        rule.nul_free(),
    ensures
        rule.to_record().sized(),
        rule.to_record().to_rule() == Some(rule),
{
    lemma_read_written(rule.name, blank_slot());
    lemma_read_written(rule.description, blank_slot());
    lemma_read_written(rule.app_name, blank_slot());
    lemma_read_written(rule.service_name, blank_slot());
    lemma_read_written(rule.icmp_type, blank_slot());
    lemma_read_written(rule.local_ports, blank_slot());
    lemma_read_written(rule.remote_ports, blank_slot());
    lemma_read_written(rule.local_adresses, blank_slot());
    lemma_read_written(rule.remote_addresses, blank_slot());
    lemma_read_written(rule.profile1, blank_slot());
    lemma_read_written(rule.profile2, blank_slot());
    lemma_read_written(rule.profile3, blank_slot());
    lemma_read_written(rule.interface_types, blank_slot());
    lemma_read_written(rule.interfaces, blank_slot());
    lemma_read_written(rule.grouping, blank_slot());
    Protocols::lemma_codes(rule.protocol, 0);
    Directions::lemma_codes(rule.direction, 0);
    Actions::lemma_codes(rule.action, 0);
    assert(rule.to_record().to_rule()->0 =~~= rule);
}

/// The rule that a record stands for can be laid out as a record again: its
/// texts fit, and none of them holds a NUL.
pub proof fn lemma_decoded_rule_fits(rec: RecordModel)
    requires
        rec.sized(),
        rec.to_rule() is Some,
    ensures
        rec.to_rule()->0.fits(),
        rec.to_rule()->0.nul_free(),
{
    lemma_read_fits(rec.name);
    lemma_read_fits(rec.description);
    lemma_read_fits(rec.app_name);
    lemma_read_fits(rec.service_name);
    lemma_read_fits(rec.icmp_type);
    lemma_read_fits(rec.local_ports);
    lemma_read_fits(rec.remote_ports);
    lemma_read_fits(rec.local_adresses);
    lemma_read_fits(rec.remote_addresses);
    lemma_read_fits(rec.profile1);
    lemma_read_fits(rec.profile2);
    lemma_read_fits(rec.profile3);
    lemma_read_fits(rec.interface_types);
    lemma_read_fits(rec.interfaces);
    lemma_read_fits(rec.grouping);
}

/// The rule that a record stands for comes back unchanged from a record of
/// its own: what was read once is read again after it was written anew.
pub proof fn lemma_record_round_trip(rec: RecordModel)
    requires
        rec.sized(),
        rec.to_rule() is Some,
    ensures
        rec.to_rule()->0.to_record().to_rule() == rec.to_rule(),
{
    lemma_decoded_rule_fits(rec);
    lemma_rule_round_trip(rec.to_rule()->0);
}

} // verus!
