//! What holds of the read-modify-write cycle on a rule.
//!
//! The gateway is not part of this library. It is stood for by one
//! assumption, [`stored`]: a rule that is stored with a parameter set is
//! listed with the fields of that set, and with the gateway's own fields as
//! they were.

use crate::forwarding::{
    lemma_protocol_code_round_trip, protocol_code, SetPortFowardingParamsView,
};
use crate::json::{find_member, last_of_its_name, lemma_absent_name, lemma_member_at};
use crate::listing::{is_rule, rule_of, status_of, status_text, NatRuleView, RuleStatus};
use crate::workflow::{mutation_document, set_document, RuleAction};
use vstd::prelude::*;

verus! {

/// The rule as it is listed once the gateway has stored a parameter set for
/// it.
pub open spec fn stored(rule: NatRuleView, params: SetPortFowardingParamsView) -> NatRuleView {
    NatRuleView {
        id: params.id,
        origin: params.origin,
        description: params.description,
        source_interface: params.source_interface,
        protocol: params.protocol,
        external_port: params.external_port,
        internal_port: params.internal_port,
        destination_ip: params.destination_ip,
        destination_mac: params.destination_mac,
        enable: params.enable,
        persistent: params.persistent,
        ..rule
    }
}

/// The rule as it is listed once it has been enabled or disabled.
pub open spec fn toggled(rule: NatRuleView, enable: bool) -> NatRuleView {
    stored(rule, rule.params().with_enable(enable))
}

/// Storing a rule with its own parameters changes nothing: the complete
/// parameter set carries every field that a client writes.
pub proof fn law_params_carry_the_rule(rule: NatRuleView)
    ensures
        stored(rule, rule.params()) == rule,
{
}

/// Enabling a rule sends the rule as it is listed with the `enable` flag
/// set, and a listing after it shows `enable` as true and every other field
/// as it was.
pub proof fn law_enable_keeps_other_fields(rule: NatRuleView)
    ensures
        mutation_document(RuleAction::Enable, rule) == set_document(
            SetPortFowardingParamsView { enable: true, ..rule.params() },
        ),
        toggled(rule, true) == (NatRuleView { enable: true, ..rule }),
{
}

/// Disabling a rule sends the rule as it is listed with the `enable` flag
/// cleared, and a listing after it shows `enable` as false and every other
/// field as it was.
pub proof fn law_disable_keeps_other_fields(rule: NatRuleView)
    ensures
        mutation_document(RuleAction::Disable, rule) == set_document(
            SetPortFowardingParamsView { enable: false, ..rule.params() },
        ),
        toggled(rule, false) == (NatRuleView { enable: false, ..rule }),
{
}

/// Disabling twice is disabling once: the second change sends what the first
/// sent, and leaves the rule as the first left it.
pub proof fn law_disable_is_idempotent(rule: NatRuleView)
    ensures
        mutation_document(RuleAction::Disable, toggled(rule, false)) == mutation_document(
            RuleAction::Disable,
            rule,
        ),
        toggled(toggled(rule, false), false) == toggled(rule, false),
{
}

/// Disabling undoes enabling: a rule that was disabled is, after being
/// enabled and disabled again, what it was.
pub proof fn law_disable_undoes_enable(rule: NatRuleView)
    ensures
        toggled(toggled(rule, true), false) == toggled(rule, false),
        !rule.enable ==> toggled(toggled(rule, true), false) == rule,
        rule.enable ==> toggled(toggled(rule, false), true) == rule,
{
}

/// The parameter set on the wire holds every field under its name: what
/// the gateway reads from a change is the rule that was listed, but for the
/// flag that the change sets.
pub proof fn law_wire_parameters_hold_every_field(params: SetPortFowardingParamsView)
    ensures
        params.document().text_member("id"@) == Some(params.id),
        params.document().text_member("origin"@) == Some(params.origin),
        params.document().text_member("description"@) == Some(params.description),
        params.document().text_member("sourceInterface"@) == Some(params.source_interface),
        params.document().text_member("protocol"@) == Some(protocol_code(params.protocol)),
        params.document().text_member("externalPort"@) == Some(params.external_port),
        params.document().text_member("internalPort"@) == Some(params.internal_port),
        params.document().text_member("destinationIPAddress"@) == Some(params.destination_ip),
        params.document().text_member("destinationMACAddress"@) == params.destination_mac,
        params.document().boolean_member("enable"@) == Some(params.enable),
        params.document().boolean_member("persistent"@) == Some(params.persistent),
{
    let members = params.document()->Object_0;
    reveal_strlit("id");
    reveal_strlit("origin");
    reveal_strlit("description");
    reveal_strlit("sourceInterface");
    reveal_strlit("protocol");
    reveal_strlit("externalPort");
    reveal_strlit("internalPort");
    reveal_strlit("destinationIPAddress");
    reveal_strlit("enable");
    reveal_strlit("persistent");
    reveal_strlit("destinationMACAddress");
    assert("id"@.len() == 2 && "id"@[0] == 'i');
    assert("origin"@.len() == 6 && "origin"@[0] == 'o');
    assert("description"@.len() == 11 && "description"@[0] == 'd');
    assert("sourceInterface"@.len() == 15 && "sourceInterface"@[0] == 's');
    assert("protocol"@.len() == 8 && "protocol"@[0] == 'p');
    assert("externalPort"@.len() == 12 && "externalPort"@[0] == 'e');
    assert("internalPort"@.len() == 12 && "internalPort"@[0] == 'i');
    assert("destinationIPAddress"@.len() == 20 && "destinationIPAddress"@[0] == 'd');
    assert("enable"@.len() == 6 && "enable"@[0] == 'e');
    assert("persistent"@.len() == 10 && "persistent"@[0] == 'p');
    assert("destinationMACAddress"@.len() == 21 && "destinationMACAddress"@[0] == 'd');
    assert(members.len() == if params.destination_mac is Some { 11int } else { 10int });
    assert(last_of_its_name(members, 0));
    lemma_member_at(members, 0);
    assert(last_of_its_name(members, 1));
    lemma_member_at(members, 1);
    assert(last_of_its_name(members, 2));
    lemma_member_at(members, 2);
    assert(last_of_its_name(members, 3));
    lemma_member_at(members, 3);
    assert(last_of_its_name(members, 4));
    lemma_member_at(members, 4);
    assert(last_of_its_name(members, 5));
    lemma_member_at(members, 5);
    assert(last_of_its_name(members, 6));
    lemma_member_at(members, 6);
    assert(last_of_its_name(members, 7));
    lemma_member_at(members, 7);
    assert(last_of_its_name(members, 8));
    lemma_member_at(members, 8);
    assert(last_of_its_name(members, 9));
    lemma_member_at(members, 9);
    if params.destination_mac is Some {
        assert(last_of_its_name(members, 10));
        lemma_member_at(members, 10);
    } else {
        lemma_absent_name(members, "destinationMACAddress"@);
    }
}

/// Reading a status's text gives the status back.
pub proof fn lemma_status_round_trip(status: RuleStatus)
    ensures
        status_of(Some(status_text(status))) == Some(status),
{
    reveal_strlit("Enabled");
    reveal_strlit("Disabled");
    assert("Enabled"@.len() == 7 && "Disabled"@.len() == 8);
}

/// A rule that is written under the names of the listing reads back as the
/// same rule.
pub proof fn law_rule_document_round_trip(rule: NatRuleView)
    ensures
        rule_of(rule.document()) == Some(rule),
{
    let doc = rule.document();
    let members = doc->Object_0;
    lemma_listing_names_differ();
    assert(members.len() == 16);
    assert(find_member(members, "Id"@) == Some(members[0].1)) by {
        assert(members[0].0 == "Id"@);
        assert(last_of_its_name(members, 0));
        lemma_member_at(members, 0);
    }
    assert(find_member(members, "Origin"@) == Some(members[1].1)) by {
        assert(members[1].0 == "Origin"@);
        assert(last_of_its_name(members, 1));
        lemma_member_at(members, 1);
    }
    assert(find_member(members, "Description"@) == Some(members[2].1)) by {
        assert(members[2].0 == "Description"@);
        assert(last_of_its_name(members, 2));
        lemma_member_at(members, 2);
    }
    assert(find_member(members, "Status"@) == Some(members[3].1)) by {
        assert(members[3].0 == "Status"@);
        assert(last_of_its_name(members, 3));
        lemma_member_at(members, 3);
    }
    assert(find_member(members, "SourceInterface"@) == Some(members[4].1)) by {
        assert(members[4].0 == "SourceInterface"@);
        assert(last_of_its_name(members, 4));
        lemma_member_at(members, 4);
    }
    assert(find_member(members, "Protocol"@) == Some(members[5].1)) by {
        assert(members[5].0 == "Protocol"@);
        assert(last_of_its_name(members, 5));
        lemma_member_at(members, 5);
    }
    assert(find_member(members, "ExternalPort"@) == Some(members[6].1)) by {
        assert(members[6].0 == "ExternalPort"@);
        assert(last_of_its_name(members, 6));
        lemma_member_at(members, 6);
    }
    assert(find_member(members, "InternalPort"@) == Some(members[7].1)) by {
        assert(members[7].0 == "InternalPort"@);
        assert(last_of_its_name(members, 7));
        lemma_member_at(members, 7);
    }
    assert(find_member(members, "DestinationIPAddress"@) == Some(members[8].1)) by {
        assert(members[8].0 == "DestinationIPAddress"@);
        assert(last_of_its_name(members, 8));
        lemma_member_at(members, 8);
    }
    assert(find_member(members, "DestinationMACAddress"@) == Some(members[9].1)) by {
        assert(members[9].0 == "DestinationMACAddress"@);
        assert(last_of_its_name(members, 9));
        lemma_member_at(members, 9);
    }
    assert(find_member(members, "LeaseDuration"@) == Some(members[10].1)) by {
        assert(members[10].0 == "LeaseDuration"@);
        assert(last_of_its_name(members, 10));
        lemma_member_at(members, 10);
    }
    assert(find_member(members, "HairpinNAT"@) == Some(members[11].1)) by {
        assert(members[11].0 == "HairpinNAT"@);
        assert(last_of_its_name(members, 11));
        lemma_member_at(members, 11);
    }
    assert(find_member(members, "SymmetricSNAT"@) == Some(members[12].1)) by {
        assert(members[12].0 == "SymmetricSNAT"@);
        assert(last_of_its_name(members, 12));
        lemma_member_at(members, 12);
    }
    assert(find_member(members, "UPnPV1Compat"@) == Some(members[13].1)) by {
        assert(members[13].0 == "UPnPV1Compat"@);
        assert(last_of_its_name(members, 13));
        lemma_member_at(members, 13);
    }
    assert(find_member(members, "Enable"@) == Some(members[14].1)) by {
        assert(members[14].0 == "Enable"@);
        assert(last_of_its_name(members, 14));
        lemma_member_at(members, 14);
    }
    assert(find_member(members, "Persistent"@) == Some(members[15].1)) by {
        assert(members[15].0 == "Persistent"@);
        assert(last_of_its_name(members, 15));
        lemma_member_at(members, 15);
    }
    lemma_protocol_code_round_trip(rule.protocol);
    if rule.status is Some {
        lemma_status_round_trip(rule.status->0);
    }
    assert(is_rule(doc));
    assert(rule_of(doc)->0 == rule);
}

/// The length and the first character of a text.
pub open spec fn mark(text: Seq<char>) -> (nat, char) {
    (text.len(), text[0])
}

/// The names of the listing differ from one another: no two have the same
/// length and the same first character.
pub proof fn lemma_listing_names_differ()
    ensures
        mark("Id"@) == (2nat, 'I'),
        mark("Origin"@) == (6nat, 'O'),
        mark("Description"@) == (11nat, 'D'),
        mark("Status"@) == (6nat, 'S'),
        mark("SourceInterface"@) == (15nat, 'S'),
        mark("Protocol"@) == (8nat, 'P'),
        mark("ExternalPort"@) == (12nat, 'E'),
        mark("InternalPort"@) == (12nat, 'I'),
        mark("DestinationIPAddress"@) == (20nat, 'D'),
        mark("DestinationMACAddress"@) == (21nat, 'D'),
        mark("LeaseDuration"@) == (13nat, 'L'),
        mark("HairpinNAT"@) == (10nat, 'H'),
        mark("SymmetricSNAT"@) == (13nat, 'S'),
        mark("UPnPV1Compat"@) == (12nat, 'U'),
        mark("Enable"@) == (6nat, 'E'),
        mark("Persistent"@) == (10nat, 'P'),
{
    reveal_strlit("Id");
    reveal_strlit("Origin");
    reveal_strlit("Description");
    reveal_strlit("Status");
    reveal_strlit("SourceInterface");
    reveal_strlit("Protocol");
    reveal_strlit("ExternalPort");
    reveal_strlit("InternalPort");
    reveal_strlit("DestinationIPAddress");
    reveal_strlit("DestinationMACAddress");
    reveal_strlit("LeaseDuration");
    reveal_strlit("HairpinNAT");
    reveal_strlit("SymmetricSNAT");
    reveal_strlit("UPnPV1Compat");
    reveal_strlit("Enable");
    reveal_strlit("Persistent");
    assert("Id"@.len() == 2 && "Id"@[0] == 'I');
    assert("Origin"@.len() == 6 && "Origin"@[0] == 'O');
    assert("Description"@.len() == 11 && "Description"@[0] == 'D');
    assert("Status"@.len() == 6 && "Status"@[0] == 'S');
    assert("SourceInterface"@.len() == 15 && "SourceInterface"@[0] == 'S');
    assert("Protocol"@.len() == 8 && "Protocol"@[0] == 'P');
    assert("ExternalPort"@.len() == 12 && "ExternalPort"@[0] == 'E');
    assert("InternalPort"@.len() == 12 && "InternalPort"@[0] == 'I');
    assert("DestinationIPAddress"@.len() == 20 && "DestinationIPAddress"@[0] == 'D');
    assert("DestinationMACAddress"@.len() == 21 && "DestinationMACAddress"@[0] == 'D');
    assert("LeaseDuration"@.len() == 13 && "LeaseDuration"@[0] == 'L');
    assert("HairpinNAT"@.len() == 10 && "HairpinNAT"@[0] == 'H');
    assert("SymmetricSNAT"@.len() == 13 && "SymmetricSNAT"@[0] == 'S');
    assert("UPnPV1Compat"@.len() == 12 && "UPnPV1Compat"@[0] == 'U');
    assert("Enable"@.len() == 6 && "Enable"@[0] == 'E');
    assert("Persistent"@.len() == 10 && "Persistent"@[0] == 'P');
}

} // verus!
