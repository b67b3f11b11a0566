//! The rules as the gateway lists them.

use crate::error::{RpcError, RpcErrorView};
use crate::forwarding::{
    optional_int, optional_text, protocol_code, protocol_of_code, DeletePortForwardingParams,
    DeletePortForwardingParamsView, Protocol, SetPortFowardingParams, SetPortFowardingParamsView,
};
use crate::json::{members_view, optional_view, Json, JsonView, Member};
use crate::reply::{reply_payload, Reply, ReplyView};
use crate::text::same_text;
use vstd::prelude::*;
use vstd::string::*;

verus! {

/// Whether the gateway applies a rule at present.
#[derive(Clone, Copy, Debug, PartialEq, Eq, Structural)]
pub enum RuleStatus {
    Enabled,
    Disabled,
}

/// The status that a text stands for.
pub open spec fn status_of(text: Option<Seq<char>>) -> Option<RuleStatus> {
    if text == Some("Enabled"@) {
        Some(RuleStatus::Enabled)
    } else if text == Some("Disabled"@) {
        Some(RuleStatus::Disabled)
    } else {
        None
    }
}

/// The text of a status.
pub open spec fn status_text(status: RuleStatus) -> Seq<char> {
    match status {
        RuleStatus::Enabled => "Enabled"@,
        RuleStatus::Disabled => "Disabled"@,
    }
}

/// A rule as the gateway lists it. A rule is persistent unless the listing
/// says that it is not. The fields from `status` on are the gateway's own: a
/// client reads them and never writes them. Each of them is `None` where the
/// listing does not hold it.
#[derive(Debug, PartialEq, Eq)]
pub struct NatRule {
    pub id: String,
    pub origin: String,
    pub description: String,
    pub source_interface: String,
    pub protocol: Protocol,
    pub external_port: String,
    pub internal_port: String,
    pub destination_ip: String,
    pub destination_mac: Option<String>,
    pub enable: bool,
    pub persistent: bool,
    pub status: Option<RuleStatus>,
    pub lease_duration: Option<i64>,
    pub hairpin_nat: Option<bool>,
    pub symmetric_snat: Option<bool>,
    pub upnp_v1_compat: Option<bool>,
}

pub struct NatRuleView {
    pub id: Seq<char>,
    pub origin: Seq<char>,
    pub description: Seq<char>,
    pub source_interface: Seq<char>,
    pub protocol: Protocol,
    pub external_port: Seq<char>,
    pub internal_port: Seq<char>,
    pub destination_ip: Seq<char>,
    pub destination_mac: Option<Seq<char>>,
    pub enable: bool,
    pub persistent: bool,
    pub status: Option<RuleStatus>,
    pub lease_duration: Option<int>,
    pub hairpin_nat: Option<bool>,
    pub symmetric_snat: Option<bool>,
    pub upnp_v1_compat: Option<bool>,
}

impl View for NatRule {
    type V = NatRuleView;

    open spec fn view(&self) -> NatRuleView {
        NatRuleView {
            id: self.id@,
            origin: self.origin@,
            description: self.description@,
            source_interface: self.source_interface@,
            protocol: self.protocol,
            external_port: self.external_port@,
            internal_port: self.internal_port@,
            destination_ip: self.destination_ip@,
            destination_mac: optional_text(self.destination_mac),
            enable: self.enable,
            persistent: self.persistent,
            status: self.status,
            lease_duration: optional_int(self.lease_duration),
            hairpin_nat: self.hairpin_nat,
            symmetric_snat: self.symmetric_snat,
            upnp_v1_compat: self.upnp_v1_compat,
        }
    }
}

/// The views of a list of rules, in order.
pub open spec fn rules_view(rules: Seq<NatRule>) -> Seq<NatRuleView> {
    Seq::new(rules.len(), |i: int| rules[i]@)
}

/// True when a document holds every member that a listed rule must have:
/// the eight texts, of which `Protocol` is a protocol's code, and the
/// `Enable` flag.
pub open spec fn is_rule(doc: JsonView) -> bool {
    &&& doc.text_member("Id"@) is Some
    &&& doc.text_member("Origin"@) is Some
    &&& doc.text_member("Description"@) is Some
    &&& doc.text_member("SourceInterface"@) is Some
    &&& doc.text_member("Protocol"@) is Some
    &&& protocol_of_code(doc.text_member("Protocol"@)->0) is Some
    &&& doc.text_member("ExternalPort"@) is Some
    &&& doc.text_member("InternalPort"@) is Some
    &&& doc.text_member("DestinationIPAddress"@) is Some
    &&& doc.boolean_member("Enable"@) is Some
}

/// Whether a rule is persistent, given what the listing says of it: it is
/// where the listing says nothing.
pub open spec fn persistent_of(listed: Option<bool>) -> bool {
    match listed {
        Some(persistent) => persistent,
        None => true,
    }
}

/// The rule that a document of the listing is, if it is one.
pub open spec fn rule_of(doc: JsonView) -> Option<NatRuleView> {
    if is_rule(doc) {
        Some(
            NatRuleView {
                id: doc.text_member("Id"@)->0,
                origin: doc.text_member("Origin"@)->0,
                description: doc.text_member("Description"@)->0,
                source_interface: doc.text_member("SourceInterface"@)->0,
                protocol: protocol_of_code(doc.text_member("Protocol"@)->0)->0,
                external_port: doc.text_member("ExternalPort"@)->0,
                internal_port: doc.text_member("InternalPort"@)->0,
                destination_ip: doc.text_member("DestinationIPAddress"@)->0,
                destination_mac: doc.text_member("DestinationMACAddress"@),
                enable: doc.boolean_member("Enable"@)->0,
                persistent: persistent_of(doc.boolean_member("Persistent"@)),
                status: status_of(doc.text_member("Status"@)),
                lease_duration: doc.integer_member("LeaseDuration"@),
                hairpin_nat: doc.boolean_member("HairpinNAT"@),
                symmetric_snat: doc.boolean_member("SymmetricSNAT"@),
                upnp_v1_compat: doc.boolean_member("UPnPV1Compat"@),
            },
        )
    } else {
        None
    }
}

/// A JSON string for a text, and `null` for none.
pub open spec fn text_or_null(text: Option<Seq<char>>) -> JsonView {
    match text {
        Some(t) => JsonView::Text(t),
        None => JsonView::Null,
    }
}

/// A JSON boolean for a truth value, and `null` for none.
pub open spec fn bool_or_null(flag: Option<bool>) -> JsonView {
    match flag {
        Some(b) => JsonView::Bool(b),
        None => JsonView::Null,
    }
}

/// A JSON integer for a number, and `null` for none.
pub open spec fn int_or_null(number: Option<int>) -> JsonView {
    match number {
        Some(n) => JsonView::Int(n),
        None => JsonView::Null,
    }
}

impl NatRuleView {
    /// The complete parameter set that stores the rule as it is listed.
    pub open spec fn params(self) -> SetPortFowardingParamsView {
        SetPortFowardingParamsView {
            id: self.id,
            origin: self.origin,
            description: self.description,
            source_interface: self.source_interface,
            protocol: self.protocol,
            external_port: self.external_port,
            internal_port: self.internal_port,
            destination_ip: self.destination_ip,
            destination_mac: self.destination_mac,
            enable: self.enable,
            persistent: self.persistent,
        }
    }

    /// The parameters that delete the rule.
    pub open spec fn delete_params(self) -> DeletePortForwardingParamsView {
        DeletePortForwardingParamsView {
            id: self.id,
            origin: self.origin,
            destination_ip: self.destination_ip,
        }
    }

    /// The rule under the names of the listing. A field of the gateway's own
    /// that the listing did not hold is `null`.
    pub open spec fn document(self) -> JsonView {
        JsonView::Object(
            seq![
                ("Id"@, JsonView::Text(self.id)),
                ("Origin"@, JsonView::Text(self.origin)),
                ("Description"@, JsonView::Text(self.description)),
                ("Status"@, text_or_null(
                    match self.status {
                        Some(status) => Some(status_text(status)),
                        None => None,
                    },
                )),
                ("SourceInterface"@, JsonView::Text(self.source_interface)),
                ("Protocol"@, JsonView::Text(protocol_code(self.protocol))),
                ("ExternalPort"@, JsonView::Text(self.external_port)),
                ("InternalPort"@, JsonView::Text(self.internal_port)),
                ("DestinationIPAddress"@, JsonView::Text(self.destination_ip)),
                ("DestinationMACAddress"@, text_or_null(self.destination_mac)),
                ("LeaseDuration"@, int_or_null(self.lease_duration)),
                ("HairpinNAT"@, bool_or_null(self.hairpin_nat)),
                ("SymmetricSNAT"@, bool_or_null(self.symmetric_snat)),
                ("UPnPV1Compat"@, bool_or_null(self.upnp_v1_compat)),
                ("Enable"@, JsonView::Bool(self.enable)),
                ("Persistent"@, JsonView::Bool(self.persistent)),
            ],
        )
    }
}

fn json_text_or_null(text: &Option<String>) -> (doc: Json)
    ensures
        doc@ == text_or_null(optional_text(*text)),
{
    match text {
        Some(t) => Json::text(t.as_str()),
        None => Json::Null,
    }
}

fn json_bool_or_null(flag: Option<bool>) -> (doc: Json)
    ensures
        doc@ == bool_or_null(flag),
{
    match flag {
        Some(b) => Json::Bool(b),
        None => Json::Null,
    }
}

fn json_int_or_null(number: Option<i64>) -> (doc: Json)
    ensures
        doc@ == int_or_null(optional_int(number)),
{
    match number {
        Some(n) => Json::Int(n),
        None => Json::Null,
    }
}

impl RuleStatus {
    /// The status that a text stands for.
    pub fn from_text(text: &Option<String>) -> (status: Option<RuleStatus>)
        ensures
            status == status_of(optional_text(*text)),
    {
        match text {
            Some(t) => {
                if same_text(t.as_str(), "Enabled") {
                    Some(RuleStatus::Enabled)
                } else if same_text(t.as_str(), "Disabled") {
                    Some(RuleStatus::Disabled)
                } else {
                    None
                }
            },
            None => None,
        }
    }

    /// The text of the status.
    pub fn text(&self) -> (text: &'static str)
        ensures
            text@ == status_text(*self),
    {
        match self {
            RuleStatus::Enabled => "Enabled",
            RuleStatus::Disabled => "Disabled",
        }
    }
}

impl NatRule {
    /// Reads a rule from a document of the listing.
    pub fn from_json(doc: &Json) -> (rule: Option<NatRule>)
        ensures
            match rule {
                Some(r) => rule_of(doc@) == Some(r@),
                None => rule_of(doc@) is None,
            },
    {
        let id = match doc.text_of("Id") {
            Some(text) => text,
            None => {
                return None;
            },
        };
        let origin = match doc.text_of("Origin") {
            Some(text) => text,
            None => {
                return None;
            },
        };
        let description = match doc.text_of("Description") {
            Some(text) => text,
            None => {
                return None;
            },
        };
        let source_interface = match doc.text_of("SourceInterface") {
            Some(text) => text,
            None => {
                return None;
            },
        };
        let protocol = match doc.text_of("Protocol") {
            Some(code) => match Protocol::from_wire_code(code.as_str()) {
                Some(protocol) => protocol,
                None => {
                    return None;
                },
            },
            None => {
                return None;
            },
        };
        let external_port = match doc.text_of("ExternalPort") {
            Some(text) => text,
            None => {
                return None;
            },
        };
        let internal_port = match doc.text_of("InternalPort") {
            Some(text) => text,
            None => {
                return None;
            },
        };
        let destination_ip = match doc.text_of("DestinationIPAddress") {
            Some(text) => text,
            None => {
                return None;
            },
        };
        let enable = match doc.bool_of("Enable") {
            Some(flag) => flag,
            None => {
                return None;
            },
        };
        let persistent = match doc.bool_of("Persistent") {
            Some(flag) => flag,
            None => true,
        };
        let status_text = doc.text_of("Status");
        Some(
            NatRule {
                id,
                origin,
                description,
                source_interface,
                protocol,
                external_port,
                internal_port,
                destination_ip,
                destination_mac: doc.text_of("DestinationMACAddress"),
                enable,
                persistent,
                status: RuleStatus::from_text(&status_text),
                lease_duration: doc.int_of("LeaseDuration"),
                hairpin_nat: doc.bool_of("HairpinNAT"),
                symmetric_snat: doc.bool_of("SymmetricSNAT"),
                upnp_v1_compat: doc.bool_of("UPnPV1Compat"),
            },
        )
    }

    /// The complete parameter set that stores the rule as it is listed.
    pub fn to_params(&self) -> (params: SetPortFowardingParams)
        ensures
            params@ == self@.params(),
    {
        SetPortFowardingParams {
            id: self.id.clone(),
            origin: self.origin.clone(),
            description: self.description.clone(),
            source_interface: self.source_interface.clone(),
            protocol: self.protocol,
            external_port: self.external_port.clone(),
            internal_port: self.internal_port.clone(),
            destination_ip: self.destination_ip.clone(),
            destination_mac: match &self.destination_mac {
                Some(mac) => Some(mac.clone()),
                None => None,
            },
            enable: self.enable,
            persistent: self.persistent,
        }
    }

    /// The parameters that delete the rule.
    pub fn to_delete_params(&self) -> (params: DeletePortForwardingParams)
        ensures
            params@ == self@.delete_params(),
    {
        DeletePortForwardingParams {
            id: self.id.clone(),
            origin: self.origin.clone(),
            destination_ip: self.destination_ip.clone(),
        }
    }

    /// The rule under the names of the listing.
    pub fn to_json(&self) -> (doc: Json)
        ensures
            doc@ == self@.document(),
    {
        let status: Option<String> = match self.status {
            Some(status) => Some(status.text().to_owned()),
            None => None,
        };
        let mut members: Vec<Member> = Vec::new();
        members.push(Member::new("Id", Json::text(self.id.as_str())));
        members.push(Member::new("Origin", Json::text(self.origin.as_str())));
        members.push(Member::new("Description", Json::text(self.description.as_str())));
        members.push(Member::new("Status", json_text_or_null(&status)));
        members.push(Member::new("SourceInterface", Json::text(self.source_interface.as_str())));
        members.push(Member::new("Protocol", Json::text(self.protocol.wire_code())));
        members.push(Member::new("ExternalPort", Json::text(self.external_port.as_str())));
        members.push(Member::new("InternalPort", Json::text(self.internal_port.as_str())));
        members.push(Member::new("DestinationIPAddress", Json::text(self.destination_ip.as_str())));
        members.push(Member::new("DestinationMACAddress", json_text_or_null(&self.destination_mac)));
        members.push(Member::new("LeaseDuration", json_int_or_null(self.lease_duration)));
        members.push(Member::new("HairpinNAT", json_bool_or_null(self.hairpin_nat)));
        members.push(Member::new("SymmetricSNAT", json_bool_or_null(self.symmetric_snat)));
        members.push(Member::new("UPnPV1Compat", json_bool_or_null(self.upnp_v1_compat)));
        members.push(Member::new("Enable", Json::Bool(self.enable)));
        members.push(Member::new("Persistent", Json::Bool(self.persistent)));
        let doc = Json::object(members);
        assert(doc@->Object_0 =~= self@.document()->Object_0);
        doc
    }
}

/// The rules that the data of a listing holds, in the order of the listing:
/// none where there is no data; one for each member of the mapping where
/// every member is a rule; `None` for any other data.
pub open spec fn rules_of(data: Option<JsonView>) -> Option<Seq<NatRuleView>> {
    match data {
        None => Some(Seq::empty()),
        Some(JsonView::Object(members)) => {
            if forall|i: int| 0 <= i < members.len() ==> is_rule(#[trigger] members[i].1) {
                Some(Seq::new(members.len(), |i: int| rule_of(members[i].1)->0))
            } else {
                None
            }
        },
        Some(_) => None,
    }
}

/// What a listing comes to, given the reply: the rules, or the failure of
/// the call, or a malformed response where the data is no mapping of rules.
pub open spec fn listed_rules(reply: ReplyView) -> Result<Seq<NatRuleView>, RpcErrorView> {
    match reply_payload(reply) {
        Ok(data) => match rules_of(data) {
            Some(rules) => Ok(rules),
            None => Err(RpcErrorView::Malformed { body: reply.body }),
        },
        Err(error) => Err(error),
    }
}

/// The first rule with the id, if there is one.
pub open spec fn find_rule(rules: Seq<NatRuleView>, id: Seq<char>) -> Option<NatRuleView>
    decreases rules.len(),
{
    if rules.len() == 0 {
        None
    } else if rules[0].id == id {
        Some(rules[0])
    } else {
        find_rule(rules.drop_first(), id)
    }
}

/// No rule is found exactly when no listed rule has the id.
pub proof fn lemma_find_rule_none(rules: Seq<NatRuleView>, id: Seq<char>)
    ensures
        find_rule(rules, id) is None <==> forall|i: int|
            0 <= i < rules.len() ==> (#[trigger] rules[i]).id != id,
        find_rule(rules, id) matches Some(rule) ==> rule.id == id && rules.contains(rule),
    decreases rules.len(),
{
    if rules.len() > 0 {
        let rest = rules.drop_first();
        lemma_find_rule_none(rest, id);
        if rules[0].id != id {
            if find_rule(rest, id) is None {
                assert forall|i: int| 0 <= i < rules.len() implies (#[trigger] rules[i]).id
                    != id by {
                    if i > 0 {
                        assert(rules[i] == rest[i - 1]);
                    }
                }
            } else {
                let rule = find_rule(rest, id)->0;
                let k = choose|k: int| 0 <= k < rest.len() && rest[k] == rule;
                assert(rules[k + 1] == rule);
            }
        }
    }
}

/// Reads the rules from the data of a listing.
pub fn rules_from_json(data: &Option<Json>) -> (rules: Option<Vec<NatRule>>)
    ensures
        match rules {
            Some(found) => rules_of(optional_view(*data)) == Some(rules_view(found@)),
            None => rules_of(optional_view(*data)) is None,
        },
{
    match data {
        None => {
            let rules: Vec<NatRule> = Vec::new();
            assert(rules_view(rules@) =~= Seq::empty());
            Some(rules)
        },
        Some(doc) => match doc.as_members() {
            Some(members) => {
                let ghost all = members_view(members@);
                let mut rules: Vec<NatRule> = Vec::new();
                let mut i: usize = 0;
                while i < members.len()
                    invariant
                        i <= members.len(),
                        rules.len() == i,
                        all == members_view(members@),
                        doc@ == JsonView::Object(all),
                        optional_view(*data) == Some(doc@),
                        forall|j: int| 0 <= j < i ==> is_rule(#[trigger] all[j].1),
                        forall|j: int| 0 <= j < i ==> rules[j]@ == rule_of(all[j].1)->0,
                    decreases members.len() - i,
                {
                    match NatRule::from_json(&members[i].value) {
                        Some(rule) => {
                            rules.push(rule);
                        },
                        None => {
                            assert(!is_rule(all[i as int].1));
                            return None;
                        },
                    }
                    i = i + 1;
                }
                assert(rules_view(rules@) =~= Seq::new(
                    all.len(),
                    |i: int| rule_of(all[i].1)->0,
                ));
                Some(rules)
            },
            None => None,
        },
    }
}

impl Reply {
    /// The rules that the reply to a listing holds.
    pub fn rules(&self) -> (rules: Result<Vec<NatRule>, RpcError>)
        ensures
            match rules {
                Ok(found) => listed_rules(self@) == Ok::<Seq<NatRuleView>, RpcErrorView>(
                    rules_view(found@),
                ),
                Err(error) => listed_rules(self@) == Err::<Seq<NatRuleView>, RpcErrorView>(error@),
            },
    {
        match self.payload() {
            Ok(data) => match rules_from_json(&data) {
                Some(rules) => Ok(rules),
                None => Err(RpcError::Malformed { body: self.body.clone() }),
            },
            Err(error) => Err(error),
        }
    }
}

/// The place of the first rule with the id in a list.
pub fn position_of(rules: &Vec<NatRule>, id: &str) -> (place: Option<usize>)
    ensures
        match place {
            Some(i) => i < rules.len() && find_rule(rules_view(rules@), id@) == Some(rules[i as int]@),
            None => find_rule(rules_view(rules@), id@) is None,
        },
{
    let ghost all = rules_view(rules@);
    let mut i: usize = 0;
    proof {
        assert(all.skip(0) =~= all);
    }
    while i < rules.len()
        invariant
            i <= rules.len(),
            all == rules_view(rules@),
            find_rule(all, id@) == find_rule(all.skip(i as int), id@),
        decreases rules.len() - i,
    {
        let ghost rest = all.skip(i as int);
        proof {
            assert(rest[0] == rules[i as int]@);
            assert(rest.drop_first() =~= all.skip(i + 1));
        }
        if same_text(rules[i].id.as_str(), id) {
            return Some(i);
        }
        i = i + 1;
    }
    proof {
        assert(all.skip(i as int).len() == 0);
    }
    None
}

/// The JSON array of rules under the names of the listing.
pub open spec fn rules_document(rules: Seq<NatRuleView>) -> JsonView {
    JsonView::Array(Seq::new(rules.len(), |i: int| rules[i].document()))
}

/// A JSON array of the rules under the names of the listing.
pub fn rules_to_json(rules: &Vec<NatRule>) -> (doc: Json)
    ensures
        doc@ == rules_document(rules_view(rules@)),
{
    let mut items: Vec<Json> = Vec::new();
    let mut i: usize = 0;
    while i < rules.len()
        invariant
            i <= rules.len(),
            items.len() == i,
            forall|j: int| 0 <= j < i ==> items[j]@ == rules[j]@.document(),
        decreases rules.len() - i,
    {
        items.push(rules[i].to_json());
        i = i + 1;
    }
    let doc = Json::array(items);
    assert(doc@->Array_0 =~= rules_document(rules_view(rules@))->Array_0);
    doc
}

} // verus!
