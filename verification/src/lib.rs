//! Marshaling between firewall rules and the fixed-layout records of the
//! native firewall interface, and the library's share of the four rule
//! operations: listing, creating, deleting and disabling rules.
//!
//! The native interface has three calls: one enumerates the records of all
//! rules, one creates a rule from a record, one deletes the rules of a name.
//! Each answers with a status code, zero for success. The calls themselves
//! are made by the caller of this library; the functions here prepare what
//! is handed to a call and decide what its answer means.

use vstd::prelude::*;

pub mod consts;
pub mod error;
pub mod record;
pub mod rule;
pub mod text;

pub use crate::consts::{Actions, Directions, Protocols};
pub use crate::error::{check_status, Error};
pub use crate::record::{decode_records, record_to_rule, rule_to_record, NativeRecord};
pub use crate::rule::FwRule;
pub use crate::text::{decode_text, encode_text, text_eq, TEXT_CAPACITY};

use crate::record::{lemma_decoded_rule_fits, lemma_rule_round_trip, to_rules, RecordModel};
use crate::rule::RuleModel;
use crate::text::{fits, slot_of};

verus! {

/// What an enumeration by the native interface means: with a status other
/// than zero the failure of that code, whatever the records are; otherwise
/// the rules that the records stand for, in the order of the enumeration,
/// or a decoding error if one of them stands for no rule.
pub open spec fn listing(status: u32, records: Seq<RecordModel>) -> Result<Seq<RuleModel>, Error> {
    if status != 0 {
        Err(Error::Native(status))
    } else {
        match to_rules(records) {
            Some(rules) => Ok(rules),
            None => Err(Error::Decode),
        }
    }
}

/// The names of rules, in their order.
pub open spec fn names(rules: Seq<RuleModel>) -> Seq<Seq<char>> {
    Seq::new(rules.len(), |i: int| rules[i].name)
}

/// What disabling the rule of a name comes to, given an enumeration: the
/// failure of the enumeration if it failed; "not found" if no rule carries
/// the name; otherwise the record of the first rule that carries it,
/// switched off, which is to be created anew.
pub open spec fn disabling(name: Seq<char>, status: u32, records: Seq<RecordModel>) -> Result<
    RecordModel,
    Error,
> {
    match listing(status, records) {
        Err(e) => Err(e),
        Ok(rules) => match names(rules).index_of_first(name) {
            None => Err(Error::NotFound),
            Some(i) => Ok(rules[i].disabled().to_record()),
        },
    }
}

/// Gets all the firewall rules from what the native enumeration answered:
/// its status code and the records it handed out.
pub fn get_fw_rules(status: u32, records: &[NativeRecord]) -> (res: Result<Vec<FwRule>, Error>)
    ensures
        match res {
            Ok(rules) => rules@.len() == records@.len() && listing(status, records.deep_view())
                == Ok::<Seq<RuleModel>, Error>(rules.deep_view()),
            Err(e) => listing(status, records.deep_view()) == Err::<Seq<RuleModel>, Error>(e),
        },
        res is Ok <==> status == 0 && forall|i: int|
            0 <= i < records@.len() ==> (#[trigger] records@[i]@).to_rule() is Some,
{
    if status != 0 {
        return Err(Error::Native(status));
    }
    proof {
        let models = records.deep_view();
        assert forall|i: int| 0 <= i < records@.len() implies models[i] == #[trigger] records@[i]@ by {
        }
    }
    decode_records(records)
}

/// Prepares the creation of a firewall rule: the record to hand to the
/// native creation, whose status `check_status` then turns into the outcome.
/// A rule with a text that does not fit into its slot is refused, and
/// nothing is to be created.
pub fn new_fw_rule(rule: &FwRule) -> (res: Result<NativeRecord, Error>)
    ensures
        match res {
            Ok(rec) => rule@.fits() && rec@ == rule@.to_record(),
            Err(e) => !rule@.fits() && e == Error::TooLong,
        },
{
    rule_to_record(rule)
}

/// Prepares the deletion of the firewall rules named `name`: the name in a
/// blank text slot, to hand to the native deletion, whose status
/// `check_status` then turns into the outcome. A name that does not fit
/// into a slot is refused, and nothing is to be deleted.
pub fn del_fw_rule(name: &str) -> (res: Result<[u8; TEXT_CAPACITY], Error>)
    ensures
        match res {
            Ok(slot) => fits(name@) && slot@ == slot_of(name@),
            Err(e) => !fits(name@) && e == Error::TooLong,
        },
{
    let mut slot = [0u8; TEXT_CAPACITY];
    encode_text(name, &mut slot)?;
    assert(slot@ =~= slot_of(name@));
    Ok(slot)
}

/// Finds the first rule named `name`: its position among `rules`, or
/// nothing if no rule carries the name. Names are compared character by
/// character.
pub fn find_rule(rules: &[FwRule], name: &str) -> (found: Option<usize>)
    ensures
        match found {
            Some(i) => i < rules@.len() && names(rules.deep_view()).index_of_first(name@) == Some(
                i as int,
            ),
            None => names(rules.deep_view()).index_of_first(name@) is None,
        },
{
    let ghost all = names(rules.deep_view());
    let mut i: usize = 0;
    while i < rules.len()
        invariant
            0 <= i <= rules@.len(),
            all == names(rules.deep_view()),
            forall|j: int| 0 <= j < i ==> all[j] != name@,
        decreases rules@.len() - i,
    {
        if text_eq(rules[i].name.as_str(), name) {
            proof {
                all.index_of_first_ensures(name@);
                assert(all[i as int] == name@);
            }
            return Some(i);
        }
        i += 1;
    }
    proof {
        all.index_of_first_ensures(name@);
    }
    None
}

/// Where the enumeration succeeded, disabling comes to a record exactly
/// when some rule carries the name, and to "not found" exactly when none
/// does.
pub proof fn lemma_disabling_found(name: Seq<char>, status: u32, records: Seq<RecordModel>)
    requires
        listing(status, records) is Ok,
    ensures
        disabling(name, status, records) is Ok <==> exists|i: int|
            0 <= i < listing(status, records)->Ok_0.len() && listing(status, records)->Ok_0[i].name
                == name,
        disabling(name, status, records) == Err::<RecordModel, Error>(Error::NotFound)
            <==> forall|i: int|
            0 <= i < listing(status, records)->Ok_0.len() ==> listing(status, records)->Ok_0[i].name
                != name,
{
    let rules = listing(status, records)->Ok_0;
    let all = names(rules);
    all.index_of_first_ensures(name);
    if all.contains(name) {
        let i = choose|i: int| 0 <= i < all.len() && all[i] == name;
        assert(rules[i].name == name);
    }
    if exists|i: int| 0 <= i < rules.len() && rules[i].name == name {
        let i = choose|i: int| 0 <= i < rules.len() && rules[i].name == name;
        assert(all[i] == name);
    }
}

/// The record that disabling comes to stands for the first rule of the
/// name, switched off and otherwise unchanged: an enumeration that holds
/// this record in place of the old one shows the rule as not enabled.
pub proof fn lemma_disabling_record(name: Seq<char>, status: u32, records: Seq<RecordModel>)
    requires
        forall|i: int| 0 <= i < records.len() ==> (#[trigger] records[i]).sized(),
        disabling(name, status, records) is Ok,
    ensures
        ({
            let rules = listing(status, records)->Ok_0;
            let first = names(rules).index_of_first(name)->0;
            let rule = disabling(name, status, records)->Ok_0.to_rule();
            &&& 0 <= first < rules.len()
            &&& rules[first].name == name
            &&& forall|j: int| 0 <= j < first ==> rules[j].name != name
            &&& rule == Some(rules[first].disabled())
            &&& rule->0.name == name
            &&& !rule->0.enabled
        }),
{
    let rules = listing(status, records)->Ok_0;
    let all = names(rules);
    all.index_of_first_ensures(name);
    let first = all.index_of_first(name)->0;
    assert(rules[first].name == all[first]);
    assert forall|j: int| 0 <= j < first implies rules[j].name != name by {
        assert(rules[j].name == all[j]);
    }
    assert(records[first].to_rule() == Some(rules[first]));
    lemma_decoded_rule_fits(records[first]);
    lemma_rule_round_trip(rules[first].disabled());
}

/// Decides how to disable the firewall rule named `name`, from what the
/// native enumeration answered. The first rule of that name, in the order
/// of the enumeration, is taken, switched off, and laid out as the record to
/// hand to the native creation, which replaces the rule of that name; its
/// status `check_status` then turns into the outcome. Where the enumeration
/// failed, or no rule carries the name, the error is the outcome and
/// nothing is to be created. The rules may change between the enumeration
/// and the creation; nothing here notices that.
pub fn disable_fw_rule(name: &str, status: u32, records: &[NativeRecord]) -> (res: Result<
    NativeRecord,
    Error,
>)
    ensures
        match res {
            Ok(rec) => disabling(name@, status, records.deep_view()) == Ok::<RecordModel, Error>(
                rec@,
            ),
            Err(e) => disabling(name@, status, records.deep_view()) == Err::<RecordModel, Error>(
                e,
            ),
        },
        listing(status, records.deep_view()) matches Ok(rules) ==> (res is Ok <==> exists|i: int|
            0 <= i < rules.len() && rules[i].name == name@),
        listing(status, records.deep_view()) matches Ok(rules) ==> (res == Err::<
            NativeRecord,
            Error,
        >(Error::NotFound) <==> forall|i: int| 0 <= i < rules.len() ==> rules[i].name != name@),
{
    proof {
        if listing(status, records.deep_view()) is Ok {
            lemma_disabling_found(name@, status, records.deep_view());
        }
    }
    let rules = get_fw_rules(status, records)?;
    match find_rule(rules.as_slice(), name) {
        None => Err(Error::NotFound),
        Some(i) => {
            let mut r = rules[i].clone();
            r.enabled = false;
            proof {
                let rec = records.deep_view()[i as int];
                assert(rec == records@[i as int]@);
                assert(rec.to_rule() == Some(rules@[i as int]@));
                assert(r@ =~~= rules.deep_view()[i as int].disabled());
                lemma_decoded_rule_fits(rec);
            }
            new_fw_rule(&r)
        },
    }
}

} // verus!
