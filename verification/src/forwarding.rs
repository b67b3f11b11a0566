//! Port-forwarding rules: how the gateway lists them, and what it takes to
//! change them.

use crate::envelope::APPLICATION_NAME;
use crate::json::{Json, JsonView, Member};
use crate::text::{decimal, format_i64, same_text};
use vstd::prelude::*;
use vstd::string::*;

verus! {

/// Interface that a rule listens on when nothing else is asked for.
pub const DEFAULT_SOURCE_INTERFACE: &'static str = "data";

/// The transport protocols that a rule forwards.
#[derive(Clone, Copy, Debug, PartialEq, Eq, Structural)]
pub enum Protocol {
    TCP,
    UDP,
    ALL,
}

/// The code of a protocol on the wire: the IP protocol numbers, as text.
pub open spec fn protocol_code(protocol: Protocol) -> Seq<char> {
    match protocol {
        Protocol::TCP => "6"@,
        Protocol::UDP => "17"@,
        Protocol::ALL => "6,17"@,
    }
}

/// The protocol that a code on the wire stands for.
pub open spec fn protocol_of_code(code: Seq<char>) -> Option<Protocol> {
    if code == "6"@ {
        Some(Protocol::TCP)
    } else if code == "17"@ {
        Some(Protocol::UDP)
    } else if code == "6,17"@ {
        Some(Protocol::ALL)
    } else {
        None
    }
}

/// The name of a protocol on the command line.
pub open spec fn protocol_name(protocol: Protocol) -> Seq<char> {
    match protocol {
        Protocol::TCP => "tcp"@,
        Protocol::UDP => "udp"@,
        Protocol::ALL => "all"@,
    }
}

/// The protocol that a name on the command line stands for.
pub open spec fn protocol_of_name(name: Seq<char>) -> Option<Protocol> {
    if name == "tcp"@ {
        Some(Protocol::TCP)
    } else if name == "udp"@ {
        Some(Protocol::UDP)
    } else if name == "all"@ {
        Some(Protocol::ALL)
    } else {
        None
    }
}

/// Reading a protocol's code gives the protocol back.
pub proof fn lemma_protocol_code_round_trip(protocol: Protocol)
    ensures
        protocol_of_code(protocol_code(protocol)) == Some(protocol),
{
    reveal_strlit("6");
    reveal_strlit("17");
    reveal_strlit("6,17");
    assert("6"@.len() == 1 && "17"@.len() == 2 && "6,17"@.len() == 4);
}

/// Reading a protocol's name gives the protocol back.
pub proof fn lemma_protocol_name_round_trip(protocol: Protocol)
    ensures
        protocol_of_name(protocol_name(protocol)) == Some(protocol),
{
    reveal_strlit("tcp");
    reveal_strlit("udp");
    reveal_strlit("all");
    assert("tcp"@[0] == 't' && "udp"@[0] == 'u' && "all"@[0] == 'a');
}

impl Protocol {
    /// The code of the protocol on the wire.
    pub fn wire_code(&self) -> (code: &'static str)
        ensures
            code@ == protocol_code(*self),
    {
        match self {
            Protocol::TCP => "6",
            Protocol::UDP => "17",
            Protocol::ALL => "6,17",
        }
    }

    /// The protocol that a code on the wire stands for.
    pub fn from_wire_code(code: &str) -> (protocol: Option<Protocol>)
        ensures
            protocol == protocol_of_code(code@),
    {
        if same_text(code, "6") {
            Some(Protocol::TCP)
        } else if same_text(code, "17") {
            Some(Protocol::UDP)
        } else if same_text(code, "6,17") {
            Some(Protocol::ALL)
        } else {
            None
        }
    }

    /// The name of the protocol on the command line.
    pub fn name(&self) -> (name: &'static str)
        ensures
            name@ == protocol_name(*self),
    {
        match self {
            Protocol::TCP => "tcp",
            Protocol::UDP => "udp",
            Protocol::ALL => "all",
        }
    }

    /// The protocol that a name on the command line stands for.
    pub fn from_name(name: &str) -> (protocol: Option<Protocol>)
        ensures
            protocol == protocol_of_name(name@),
    {
        if same_text(name, "tcp") {
            Some(Protocol::TCP)
        } else if same_text(name, "udp") {
            Some(Protocol::UDP)
        } else if same_text(name, "all") {
            Some(Protocol::ALL)
        } else {
            None
        }
    }
}

/// The view of an optional text.
pub open spec fn optional_text(text: Option<String>) -> Option<Seq<char>> {
    match text {
        Some(t) => Some(t@),
        None => None,
    }
}

/// The integer of an optional machine integer.
pub open spec fn optional_int(number: Option<i64>) -> Option<int> {
    match number {
        Some(n) => Some(n as int),
        None => None,
    }
}

/// The complete parameter set of the call that stores a rule. The gateway
/// takes no partial update: whoever changes one field sends them all.
#[derive(Debug, PartialEq, Eq)]
pub struct SetPortFowardingParams {
    pub id: String,
    pub origin: String,
    pub description: String,
    pub source_interface: String,
    pub protocol: Protocol,
    pub external_port: String,
    pub internal_port: String,
    pub destination_ip: String,
    pub destination_mac: Option<String>,
    pub enable: bool,
    pub persistent: bool,
}

pub struct SetPortFowardingParamsView {
    pub id: Seq<char>,
    pub origin: Seq<char>,
    pub description: Seq<char>,
    pub source_interface: Seq<char>,
    pub protocol: Protocol,
    pub external_port: Seq<char>,
    pub internal_port: Seq<char>,
    pub destination_ip: Seq<char>,
    pub destination_mac: Option<Seq<char>>,
    pub enable: bool,
    pub persistent: bool,
}

impl View for SetPortFowardingParams {
    type V = SetPortFowardingParamsView;

    open spec fn view(&self) -> SetPortFowardingParamsView {
        SetPortFowardingParamsView {
            id: self.id@,
            origin: self.origin@,
            description: self.description@,
            source_interface: self.source_interface@,
            protocol: self.protocol,
            external_port: self.external_port@,
            internal_port: self.internal_port@,
            destination_ip: self.destination_ip@,
            destination_mac: optional_text(self.destination_mac),
            enable: self.enable,
            persistent: self.persistent,
        }
    }
}

impl SetPortFowardingParamsView {
    /// The parameters as a JSON object. The hardware address is a member
    /// only where there is one.
    pub open spec fn document(self) -> JsonView {
        JsonView::Object(
            seq![
                ("id"@, JsonView::Text(self.id)),
                ("origin"@, JsonView::Text(self.origin)),
                ("description"@, JsonView::Text(self.description)),
                ("sourceInterface"@, JsonView::Text(self.source_interface)),
                ("protocol"@, JsonView::Text(protocol_code(self.protocol))),
                ("externalPort"@, JsonView::Text(self.external_port)),
                ("internalPort"@, JsonView::Text(self.internal_port)),
                ("destinationIPAddress"@, JsonView::Text(self.destination_ip)),
                ("enable"@, JsonView::Bool(self.enable)),
                ("persistent"@, JsonView::Bool(self.persistent)),
            ] + match self.destination_mac {
                Some(mac) => seq![("destinationMACAddress"@, JsonView::Text(mac))],
                None => Seq::empty(),
            },
        )
    }

    /// The same parameters with the `enable` flag set to `enable`.
    pub open spec fn with_enable(self, enable: bool) -> SetPortFowardingParamsView {
        SetPortFowardingParamsView { enable, ..self }
    }
}

/// The parameters of a new rule: it comes from this client, listens on the
/// default interface, is enabled and persistent.
pub open spec fn new_rule_params(
    id: Seq<char>,
    description: Seq<char>,
    protocol: Protocol,
    external_port: Seq<char>,
    internal_port: Seq<char>,
    destination_ip: Seq<char>,
) -> SetPortFowardingParamsView {
    SetPortFowardingParamsView {
        id,
        origin: APPLICATION_NAME@,
        description,
        source_interface: DEFAULT_SOURCE_INTERFACE@,
        protocol,
        external_port,
        internal_port,
        destination_ip,
        destination_mac: None,
        enable: true,
        persistent: true,
    }
}

impl SetPortFowardingParams {
    /// The parameters of a new rule.
    pub fn new(
        id: String,
        description: String,
        protocol: Protocol,
        external_port: String,
        internal_port: String,
        destination_ip: String,
    ) -> (params: SetPortFowardingParams)
        ensures
            params@ == new_rule_params(
                id@,
                description@,
                protocol,
                external_port@,
                internal_port@,
                destination_ip@,
            ),
    {
        SetPortFowardingParams {
            id,
            origin: APPLICATION_NAME.to_owned(),
            description,
            source_interface: DEFAULT_SOURCE_INTERFACE.to_owned(),
            protocol,
            external_port,
            internal_port,
            destination_ip,
            destination_mac: None,
            enable: true,
            persistent: true,
        }
    }

    /// The same parameters with the `enable` flag set to `enable`.
    pub fn with_enable(self, enable: bool) -> (params: SetPortFowardingParams)
        ensures
            params@ == self@.with_enable(enable),
    {
        SetPortFowardingParams { enable, ..self }
    }

    /// The parameters as a JSON object.
    pub fn to_json(&self) -> (doc: Json)
        ensures
            doc@ == self@.document(),
    {
        let mut members: Vec<Member> = Vec::new();
        members.push(Member::new("id", Json::text(self.id.as_str())));
        members.push(Member::new("origin", Json::text(self.origin.as_str())));
        members.push(Member::new("description", Json::text(self.description.as_str())));
        members.push(Member::new("sourceInterface", Json::text(self.source_interface.as_str())));
        members.push(Member::new("protocol", Json::text(self.protocol.wire_code())));
        members.push(Member::new("externalPort", Json::text(self.external_port.as_str())));
        members.push(Member::new("internalPort", Json::text(self.internal_port.as_str())));
        members.push(Member::new("destinationIPAddress", Json::text(self.destination_ip.as_str())));
        members.push(Member::new("enable", Json::Bool(self.enable)));
        members.push(Member::new("persistent", Json::Bool(self.persistent)));
        match &self.destination_mac {
            Some(mac) => {
                members.push(Member::new("destinationMACAddress", Json::text(mac.as_str())));
            },
            None => {},
        }
        let doc = Json::object(members);
        assert(doc@->Object_0 =~= self@.document()->Object_0);
        doc
    }
}

/// The parameters of the call that deletes a rule.
#[derive(Debug, PartialEq, Eq)]
pub struct DeletePortForwardingParams {
    pub id: String,
    pub origin: String,
    pub destination_ip: String,
}

pub struct DeletePortForwardingParamsView {
    pub id: Seq<char>,
    pub origin: Seq<char>,
    pub destination_ip: Seq<char>,
}

impl View for DeletePortForwardingParams {
    type V = DeletePortForwardingParamsView;

    open spec fn view(&self) -> DeletePortForwardingParamsView {
        DeletePortForwardingParamsView {
            id: self.id@,
            origin: self.origin@,
            destination_ip: self.destination_ip@,
        }
    }
}

impl DeletePortForwardingParamsView {
    /// The parameters as a JSON object.
    pub open spec fn document(self) -> JsonView {
        JsonView::Object(
            seq![
                ("id"@, JsonView::Text(self.id)),
                ("origin"@, JsonView::Text(self.origin)),
                ("destinationIPAddress"@, JsonView::Text(self.destination_ip)),
            ],
        )
    }
}

impl DeletePortForwardingParams {
    /// The parameters as a JSON object.
    pub fn to_json(&self) -> (doc: Json)
        ensures
            doc@ == self@.document(),
    {
        let mut members: Vec<Member> = Vec::new();
        members.push(Member::new("id", Json::text(self.id.as_str())));
        members.push(Member::new("origin", Json::text(self.origin.as_str())));
        members.push(Member::new("destinationIPAddress", Json::text(self.destination_ip.as_str())));
        let doc = Json::object(members);
        assert(doc@->Object_0 =~= self@.document()->Object_0);
        doc
    }
}

/// A rule as it is asked for on the command line.
#[derive(Debug, PartialEq, Eq)]
pub struct FirewallRule {
    /// A unique identifier.
    pub id: String,
    /// A description.
    pub description: String,
    /// The protocol to forward.
    pub protocol: Protocol,
    /// The allowed source hosts.
    pub source_host: Option<String>,
    /// The exposed port.
    pub source_port: i16,
    /// The destination host.
    pub destination_host: String,
    /// The destination port.
    pub destination_port: i16,
}

impl FirewallRule {
    /// The parameters that store the rule: the ports travel as decimal text,
    /// the exposed port as the external one.
    pub fn into_params(self) -> (params: SetPortFowardingParams)
        ensures
            params@ == new_rule_params(
                self.id@,
                self.description@,
                self.protocol,
                decimal(self.source_port as int),
                decimal(self.destination_port as int),
                self.destination_host@,
            ),
    {
        SetPortFowardingParams::new(
            self.id,
            self.description,
            self.protocol,
            format_i64(self.source_port as i64),
            format_i64(self.destination_port as i64),
            self.destination_host,
        )
    }
}

} // verus!
