//! The request envelope of the sysbus, and the shapes that travel in it.

use crate::json::{Json, JsonView, Member};
use crate::text::same_text;
use vstd::prelude::*;
use vstd::string::*;

verus! {

/// Name under which this client announces itself to the gateway.
pub const APPLICATION_NAME: &'static str = "livebox-cli";

/// Service that issues and releases session contexts.
pub const DEVICE_INFORMATION: &'static str = "sah.Device.Information";

/// Method that opens a session context.
pub const CREATE_CONTEXT: &'static str = "createContext";

/// Method that closes a session context.
pub const RELEASE_CONTEXT: &'static str = "releaseContext";

/// The envelope of a call: the service, the method and the parameters, under
/// those names and in that order.
pub open spec fn envelope_document(
    service: Seq<char>,
    method: Seq<char>,
    parameters: JsonView,
) -> JsonView {
    JsonView::Object(
        seq![
            ("service"@, JsonView::Text(service)),
            ("method"@, JsonView::Text(method)),
            ("parameters"@, parameters),
        ],
    )
}

/// The parameters of a generic call as a JSON object: one string member for
/// each, in order.
pub open spec fn parameters_document(parameters: Seq<(Seq<char>, Seq<char>)>) -> JsonView {
    JsonView::Object(
        Seq::new(parameters.len(), |i: int| (parameters[i].0, JsonView::Text(parameters[i].1))),
    )
}

/// The parameters of the login call. The application's name travels as
/// `applicationName` here.
pub open spec fn login_parameters_document(
    application_name: Seq<char>,
    username: Seq<char>,
    password: Seq<char>,
) -> JsonView {
    JsonView::Object(
        seq![
            ("applicationName"@, JsonView::Text(application_name)),
            ("username"@, JsonView::Text(username)),
            ("password"@, JsonView::Text(password)),
        ],
    )
}

/// Wraps parameters in the envelope of a call.
pub fn envelope(service: &str, method: &str, parameters: Json) -> (doc: Json)
    ensures
        doc@ == envelope_document(service@, method@, parameters@),
{
    let mut members: Vec<Member> = Vec::new();
    members.push(Member::new("service", Json::text(service)));
    members.push(Member::new("method", Json::text(method)));
    members.push(Member::new("parameters", parameters));
    let doc = Json::object(members);
    assert(doc@->Object_0 =~= envelope_document(service@, method@, parameters@)->Object_0);
    doc
}

/// One named string parameter of a generic call.
#[derive(Debug, PartialEq, Eq)]
pub struct Parameter {
    pub name: String,
    pub value: String,
}

impl View for Parameter {
    type V = (Seq<char>, Seq<char>);

    open spec fn view(&self) -> (Seq<char>, Seq<char>) {
        (self.name@, self.value@)
    }
}

/// The views of a list of parameters, in order.
pub open spec fn parameters_view(parameters: Seq<Parameter>) -> Seq<(Seq<char>, Seq<char>)> {
    Seq::new(parameters.len(), |i: int| parameters[i]@)
}

/// True when a parameter is called `name`.
pub open spec fn has_name(parameters: Seq<(Seq<char>, Seq<char>)>, name: Seq<char>) -> bool {
    exists|i: int| 0 <= i < parameters.len() && (#[trigger] parameters[i]).0 == name
}

/// True when no two parameters have one name.
pub open spec fn distinct_names(parameters: Seq<(Seq<char>, Seq<char>)>) -> bool {
    forall|i: int, j: int|
        0 <= i < j < parameters.len() ==> (#[trigger] parameters[i]).0 != (
        #[trigger] parameters[j]).0
}

/// A parameter with its value replaced where it is called `name`.
pub open spec fn replaced(parameter: (Seq<char>, Seq<char>), name: Seq<char>, value: Seq<char>) -> (
    Seq<char>,
    Seq<char>,
) {
    if parameter.0 == name {
        (name, value)
    } else {
        parameter
    }
}

/// The parameters with `name` set to `value`: in the place of a parameter
/// of that name, or at the end where there is none.
pub open spec fn set_parameter(
    parameters: Seq<(Seq<char>, Seq<char>)>,
    name: Seq<char>,
    value: Seq<char>,
) -> Seq<(Seq<char>, Seq<char>)> {
    if has_name(parameters, name) {
        Seq::new(parameters.len(), |i: int| replaced(parameters[i], name, value))
    } else {
        parameters.push((name, value))
    }
}

/// Setting a parameter keeps the names distinct, and the parameter is then
/// there with its value.
pub proof fn lemma_set_parameter_keeps_names_distinct(
    parameters: Seq<(Seq<char>, Seq<char>)>,
    name: Seq<char>,
    value: Seq<char>,
)
    ensures
        distinct_names(parameters) ==> distinct_names(set_parameter(parameters, name, value)),
        set_parameter(parameters, name, value).contains((name, value)),
{
    let after = set_parameter(parameters, name, value);
    if has_name(parameters, name) {
        let k = choose|k: int| 0 <= k < parameters.len() && (#[trigger] parameters[k]).0 == name;
        assert(after[k] == (name, value));
        if distinct_names(parameters) {
            assert forall|i: int, j: int| 0 <= i < j < after.len() implies (#[trigger] after[i]).0
                != (#[trigger] after[j]).0 by {
                assert(after[i].0 == parameters[i].0);
                assert(after[j].0 == parameters[j].0);
            }
        }
    } else {
        assert(after[parameters.len() as int] == (name, value));
        if distinct_names(parameters) {
            assert forall|i: int, j: int| 0 <= i < j < after.len() implies (#[trigger] after[i]).0
                != (#[trigger] after[j]).0 by {
                if j < parameters.len() {
                    assert(after[i] == parameters[i] && after[j] == parameters[j]);
                } else {
                    assert(after[i] == parameters[i]);
                }
            }
        }
    }
}

/// A call of any method of any service, with a flat list of string
/// parameters. It is built with no two parameters of one name.
#[derive(Debug, PartialEq, Eq)]
pub struct GenericRequest {
    pub service: String,
    pub method: String,
    pub parameters: Vec<Parameter>,
}

pub struct GenericRequestView {
    pub service: Seq<char>,
    pub method: Seq<char>,
    pub parameters: Seq<(Seq<char>, Seq<char>)>,
}

impl View for GenericRequest {
    type V = GenericRequestView;

    open spec fn view(&self) -> GenericRequestView {
        GenericRequestView {
            service: self.service@,
            method: self.method@,
            parameters: parameters_view(self.parameters@),
        }
    }
}

impl GenericRequestView {
    /// The JSON document that carries the call.
    pub open spec fn document(self) -> JsonView {
        envelope_document(self.service, self.method, parameters_document(self.parameters))
    }
}

impl GenericRequest {
    /// A call without parameters.
    pub fn new(service: &str, method: &str) -> (request: GenericRequest)
        ensures
            request@ == (GenericRequestView {
                service: service@,
                method: method@,
                parameters: Seq::empty(),
            }),
            distinct_names(request@.parameters),
    {
        let request = GenericRequest {
            service: service.to_owned(),
            method: method.to_owned(),
            parameters: Vec::new(),
        };
        assert(request@.parameters =~= Seq::empty());
        request
    }

    /// The same call with the parameter `name` set to `value`: in the place
    /// of an earlier parameter of that name, or at the end where there is
    /// none.
    pub fn with_parameter(self, name: &str, value: &str) -> (request: GenericRequest)
        ensures
            request@ == (GenericRequestView {
                parameters: set_parameter(self@.parameters, name@, value@),
                ..self@
            }),
            distinct_names(self@.parameters) ==> distinct_names(request@.parameters),
    {
        let ghost before = self@.parameters;
        let mut parameters: Vec<Parameter> = Vec::new();
        let mut found = false;
        let mut i: usize = 0;
        while i < self.parameters.len()
            invariant
                i <= self.parameters.len(),
                parameters.len() == i,
                before == parameters_view(self.parameters@),
                found <==> exists|j: int| 0 <= j < i && (#[trigger] before[j]).0 == name@,
                forall|j: int|
                    0 <= j < i ==> (#[trigger] parameters[j])@ == replaced(before[j], name@, value@),
            decreases self.parameters.len() - i,
        {
            let parameter = &self.parameters[i];
            if same_text(parameter.name.as_str(), name) {
                found = true;
                parameters.push(Parameter { name: name.to_owned(), value: value.to_owned() });
            } else {
                parameters.push(
                    Parameter { name: parameter.name.clone(), value: parameter.value.clone() },
                );
            }
            proof {
                assert(before[i as int] == self.parameters[i as int]@);
            }
            i = i + 1;
        }
        if !found {
            parameters.push(Parameter { name: name.to_owned(), value: value.to_owned() });
        }
        let request = GenericRequest { service: self.service, method: self.method, parameters };
        proof {
            assert(found == has_name(before, name@));
            assert(request@.parameters =~= set_parameter(before, name@, value@));
            lemma_set_parameter_keeps_names_distinct(before, name@, value@);
        }
        request
    }

    /// The JSON document that carries the call.
    pub fn to_json(&self) -> (doc: Json)
        ensures
            doc@ == self@.document(),
    {
        let mut members: Vec<Member> = Vec::new();
        let mut i: usize = 0;
        while i < self.parameters.len()
            invariant
                i <= self.parameters.len(),
                members.len() == i,
                forall|j: int|
                    0 <= j < i ==> members[j]@ == (
                        self.parameters[j].name@,
                        JsonView::Text(self.parameters[j].value@),
                    ),
            decreases self.parameters.len() - i,
        {
            let parameter = &self.parameters[i];
            members.push(Member::new(parameter.name.as_str(), Json::text(parameter.value.as_str())));
            i = i + 1;
        }
        let parameters = Json::object(members);
        assert(parameters@->Object_0 =~= parameters_document(self@.parameters)->Object_0);
        envelope(self.service.as_str(), self.method.as_str(), parameters)
    }
}

/// The parameters of the login call.
#[derive(Debug, PartialEq, Eq)]
pub struct LoginRequestParameters {
    pub application_name: String,
    pub username: String,
    pub password: String,
}

/// The call that opens a session.
#[derive(Debug, PartialEq, Eq)]
pub struct LoginRequest {
    pub service: String,
    pub method: String,
    pub parameters: LoginRequestParameters,
}

/// The JSON document of the login call for the given credentials.
pub open spec fn login_document(username: Seq<char>, password: Seq<char>) -> JsonView {
    envelope_document(
        DEVICE_INFORMATION@,
        CREATE_CONTEXT@,
        login_parameters_document(APPLICATION_NAME@, username, password),
    )
}

/// The JSON document of the logout call. The application's name travels as
/// `application_name` here.
pub open spec fn logout_document() -> JsonView {
    envelope_document(
        DEVICE_INFORMATION@,
        RELEASE_CONTEXT@,
        parameters_document(seq![("application_name"@, APPLICATION_NAME@)]),
    )
}

impl LoginRequest {
    /// The login call for the given credentials, under this client's
    /// application name.
    pub fn new(username: String, password: String) -> (request: LoginRequest)
        ensures
            request.service@ == DEVICE_INFORMATION@,
            request.method@ == CREATE_CONTEXT@,
            request.parameters.application_name@ == APPLICATION_NAME@,
            request.parameters.username@ == username@,
            request.parameters.password@ == password@,
    {
        LoginRequest {
            service: DEVICE_INFORMATION.to_owned(),
            method: CREATE_CONTEXT.to_owned(),
            parameters: LoginRequestParameters {
                application_name: APPLICATION_NAME.to_owned(),
                username,
                password,
            },
        }
    }

    /// The JSON document that carries the call.
    pub fn to_json(&self) -> (doc: Json)
        ensures
            doc@ == envelope_document(
                self.service@,
                self.method@,
                login_parameters_document(
                    self.parameters.application_name@,
                    self.parameters.username@,
                    self.parameters.password@,
                ),
            ),
    {
        let mut members: Vec<Member> = Vec::new();
        members.push(
            Member::new("applicationName", Json::text(self.parameters.application_name.as_str())),
        );
        members.push(Member::new("username", Json::text(self.parameters.username.as_str())));
        members.push(Member::new("password", Json::text(self.parameters.password.as_str())));
        let parameters = Json::object(members);
        assert(parameters@->Object_0 =~= login_parameters_document(
            self.parameters.application_name@,
            self.parameters.username@,
            self.parameters.password@,
        )->Object_0);
        envelope(self.service.as_str(), self.method.as_str(), parameters)
    }
}

/// The call that closes a session.
pub fn logout_request() -> (request: GenericRequest)
    ensures
        request@.document() == logout_document(),
{
    let request = GenericRequest::new(DEVICE_INFORMATION, RELEASE_CONTEXT).with_parameter(
        "application_name",
        APPLICATION_NAME,
    );
    assert(request@.parameters =~= seq![("application_name"@, APPLICATION_NAME@)]);
    request
}

} // verus!
