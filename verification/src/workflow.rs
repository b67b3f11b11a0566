//! Calls on port-forwarding rules, and the steps of a change to one.
//!
//! The gateway stores a rule only as a whole and keeps a change only once it
//! is committed. So a change to a rule takes three calls: list the rules and
//! find the one with the id; send the changed rule, or its deletion; commit.
//! [`RuleChange`] holds how far a change has come. [`Client::advance`] takes
//! the reply to the last call and says what comes next: another request, or
//! the end.

use crate::client::{Client, ClientView};
use crate::envelope::{envelope, envelope_document, parameters_document};
use crate::error::{NatError, NatErrorView, RpcErrorView};
use crate::forwarding::{
    DeletePortForwardingParams, DeletePortForwardingParamsView, SetPortFowardingParams,
    SetPortFowardingParamsView,
};
use crate::http::{HttpRequest, HttpRequestView};
use crate::json::{optional_view, Json, JsonView};
use crate::listing::{find_rule, lemma_find_rule_none, listed_rules, position_of, NatRule, NatRuleView};
use crate::reply::{reply_payload, Reply, ReplyView};
use vstd::prelude::*;
use vstd::string::*;

verus! {

/// Service that holds the port-forwarding rules.
pub const FIREWALL: &'static str = "Firewall";

/// Method that lists the rules.
pub const GET_PORT_FORWARDING: &'static str = "getPortForwarding";

/// Method that stores a rule, new or changed.
pub const SET_PORT_FORWARDING: &'static str = "setPortForwarding";

/// Method that deletes a rule.
pub const DELETE_PORT_FORWARDING: &'static str = "deletePortForwarding";

/// Method that makes the changes sent so far permanent.
pub const COMMIT: &'static str = "commit";

/// The document of the call that lists the rules.
pub open spec fn list_document() -> JsonView {
    envelope_document(FIREWALL@, GET_PORT_FORWARDING@, parameters_document(Seq::empty()))
}

/// The document of the call that stores a rule.
pub open spec fn set_document(params: SetPortFowardingParamsView) -> JsonView {
    envelope_document(FIREWALL@, SET_PORT_FORWARDING@, params.document())
}

/// The document of the call that deletes a rule.
pub open spec fn delete_document(params: DeletePortForwardingParamsView) -> JsonView {
    envelope_document(FIREWALL@, DELETE_PORT_FORWARDING@, params.document())
}

/// The document of the call that commits.
pub open spec fn commit_document() -> JsonView {
    envelope_document(FIREWALL@, COMMIT@, parameters_document(Seq::empty()))
}

/// What a change does to a rule.
#[derive(Clone, Copy, Debug, PartialEq, Eq, Structural)]
pub enum RuleAction {
    Enable,
    Disable,
    Remove,
}

/// The call whose reply a change waits for. A change that is over has no
/// stage: it is a [`Step::Done`].
#[derive(Clone, Copy, Debug, PartialEq, Eq, Structural)]
pub enum Stage {
    /// The listing: the rule is yet to be found.
    Resolving,
    /// The call that changes the rule.
    Mutating,
    /// The commit.
    Committing,
}

/// A change to the rule with an id, under way.
#[derive(Debug, PartialEq, Eq)]
pub struct RuleChange {
    action: RuleAction,
    id: String,
    stage: Stage,
    applied: Option<Json>,
}

pub struct RuleChangeView {
    pub action: RuleAction,
    pub id: Seq<char>,
    pub stage: Stage,
    /// The data that came back for the change, once it has.
    pub applied: Option<JsonView>,
}

impl RuleChangeView {
    /// A change holds the data that came back for it only while it waits
    /// for the commit.
    pub open spec fn well_formed(self) -> bool {
        self.stage != Stage::Committing ==> self.applied is None
    }
}

/// The stage that follows a stage, where one does.
pub open spec fn following_stage(stage: Stage) -> Option<Stage> {
    match stage {
        Stage::Resolving => Some(Stage::Mutating),
        Stage::Mutating => Some(Stage::Committing),
        Stage::Committing => None,
    }
}

impl View for RuleChange {
    type V = RuleChangeView;

    closed spec fn view(&self) -> RuleChangeView {
        RuleChangeView {
            action: self.action,
            id: self.id@,
            stage: self.stage,
            applied: optional_view(self.applied),
        }
    }
}

/// What comes next in a change.
#[derive(Debug, PartialEq, Eq)]
pub enum Step {
    /// Post the request, and hand the reply to [`Client::advance`] together
    /// with the change.
    Send { change: RuleChange, request: HttpRequest },
    /// The change is over: committed, with the data that came back for the
    /// commit, or failed.
    Done(Result<Option<Json>, NatError>),
}

pub enum StepView {
    Send { change: RuleChangeView, request: HttpRequestView },
    Done(Result<Option<JsonView>, NatErrorView>),
}

impl View for Step {
    type V = StepView;

    open spec fn view(&self) -> StepView {
        match self {
            Step::Send { change, request } => StepView::Send { change: change@, request: request@ },
            Step::Done(Ok(data)) => StepView::Done(Ok(optional_view(*data))),
            Step::Done(Err(error)) => StepView::Done(Err(error@)),
        }
    }
}

/// The document of the call that applies an action to a rule as it is
/// listed: the complete rule with the `enable` flag set or cleared, or the
/// rule's deletion.
pub open spec fn mutation_document(action: RuleAction, rule: NatRuleView) -> JsonView {
    match action {
        RuleAction::Enable => set_document(rule.params().with_enable(true)),
        RuleAction::Disable => set_document(rule.params().with_enable(false)),
        RuleAction::Remove => delete_document(rule.delete_params()),
    }
}

/// A change at its start: the listing has been asked for.
pub open spec fn started(action: RuleAction, id: Seq<char>) -> RuleChangeView {
    RuleChangeView { action, id, stage: Stage::Resolving, applied: None }
}

/// What comes next in a change, given the reply to its last call.
///
/// After the listing: the call that changes the rule found, or the end
/// where the listing failed or holds no rule with the id. After the change:
/// the commit, or the end where the gateway did not take the change. After
/// the commit: the end, which tells a commit that failed from a change that
/// was not made.
pub open spec fn next_step(client: ClientView, change: RuleChangeView, reply: ReplyView) -> StepView {
    match change.stage {
        Stage::Resolving => match listed_rules(reply) {
            Ok(rules) => match find_rule(rules, change.id) {
                Some(rule) => StepView::Send {
                    change: RuleChangeView { stage: Stage::Mutating, ..change },
                    request: client.call(mutation_document(change.action, rule)),
                },
                None => StepView::Done(Err(NatErrorView::RuleNotFound(change.id))),
            },
            Err(error) => StepView::Done(Err(NatErrorView::Resolve(error))),
        },
        Stage::Mutating => match reply_payload(reply) {
            Ok(data) => StepView::Send {
                change: RuleChangeView { stage: Stage::Committing, applied: data, ..change },
                request: client.call(commit_document()),
            },
            Err(error) => StepView::Done(Err(NatErrorView::Mutation(error))),
        },
        Stage::Committing => match reply_payload(reply) {
            Ok(data) => StepView::Done(Ok(data)),
            Err(error) => StepView::Done(
                Err(NatErrorView::Commit { applied: change.applied, error }),
            ),
        },
    }
}

/// A change goes through its stages in order and skips none: a step that
/// does not end it takes it to the next stage, keeps its action and its id,
/// and leaves it well formed. After the commit there is no further step.
pub proof fn law_stages_advance_in_order(
    client: ClientView,
    change: RuleChangeView,
    reply: ReplyView,
)
    requires
        change.well_formed(),
    ensures
        started(change.action, change.id).well_formed(),
        next_step(client, change, reply) matches StepView::Send { change: later, request } ==> {
            &&& following_stage(change.stage) == Some(later.stage)
            &&& later.action == change.action
            &&& later.id == change.id
            &&& later.well_formed()
        },
        change.stage == Stage::Committing ==> next_step(client, change, reply) is Done,
{
}

/// A change to a rule that the gateway does not list ends after the listing
/// with "rule not found", and sends nothing: whatever the action, and also
/// where the listing is empty.
pub proof fn law_unlisted_rule_sends_nothing(
    client: ClientView,
    action: RuleAction,
    id: Seq<char>,
    reply: ReplyView,
    rules: Seq<NatRuleView>,
)
    requires
        listed_rules(reply) == Ok::<Seq<NatRuleView>, RpcErrorView>(rules),
        forall|i: int| 0 <= i < rules.len() ==> (#[trigger] rules[i]).id != id,
    ensures
        next_step(client, started(action, id), reply) == StepView::Done(
            Err(NatErrorView::RuleNotFound(id)),
        ),
        !(next_step(client, started(action, id), reply) is Send),
{
    lemma_find_rule_none(rules, id);
}

/// Where a change goes on after the listing, the gateway lists a rule with
/// the id, and the request carries that rule's own fields.
pub proof fn law_change_is_sent_for_a_listed_rule(
    client: ClientView,
    action: RuleAction,
    id: Seq<char>,
    reply: ReplyView,
)
    requires
        next_step(client, started(action, id), reply) is Send,
    ensures
        listed_rules(reply) is Ok,
        exists|rule: NatRuleView| #[trigger]
            listed_rules(reply)->Ok_0.contains(rule) && rule.id == id && next_step(
                client,
                started(action, id),
                reply,
            )->request == client.call(mutation_document(action, rule)),
{
    let rules = listed_rules(reply)->Ok_0;
    lemma_find_rule_none(rules, id);
    let rule = find_rule(rules, id)->0;
    assert(rules.contains(rule));
}

impl RuleChange {
    /// What the change does to the rule.
    pub fn action(&self) -> (action: RuleAction)
        ensures
            action == self@.action,
    {
        self.action
    }

    /// The id of the rule.
    pub fn id(&self) -> (id: &String)
        ensures
            id@ == self@.id,
    {
        &self.id
    }

    /// The call whose reply the change waits for.
    pub fn stage(&self) -> (stage: Stage)
        ensures
            stage == self@.stage,
    {
        self.stage
    }

    /// The data that came back for the change, once it has.
    pub fn applied(&self) -> (applied: &Option<Json>)
        ensures
            optional_view(*applied) == self@.applied,
    {
        &self.applied
    }
}

impl Client {
    fn call_method(&self, method: &str, parameters: Json) -> (request: HttpRequest)
        ensures
            request@ == self@.call(envelope_document(FIREWALL@, method@, parameters@)),
    {
        let document = envelope(FIREWALL, method, parameters);
        self.call(&document)
    }

    fn no_parameters() -> (parameters: Json)
        ensures
            parameters@ == parameters_document(Seq::empty()),
    {
        let members: Vec<crate::json::Member> = Vec::new();
        let parameters = Json::object(members);
        assert(parameters@->Object_0 =~= parameters_document(Seq::empty())->Object_0);
        parameters
    }

    /// The request that lists the rules. [`Reply::rules`] reads the reply.
    pub fn list_nat_rules(&self) -> (request: HttpRequest)
        ensures
            request@ == self@.call(list_document()),
    {
        self.call_method(GET_PORT_FORWARDING, Client::no_parameters())
    }

    /// The request that stores a rule. It does not commit.
    /// [`Reply::payload`] reads the reply.
    pub fn add_nat_rule(&self, rule: &SetPortFowardingParams) -> (request: HttpRequest)
        ensures
            request@ == self@.call(set_document(rule@)),
    {
        self.call_method(SET_PORT_FORWARDING, rule.to_json())
    }

    /// The request that deletes a rule. It does not commit.
    pub fn delete_nat_rule(&self, rule: &DeletePortForwardingParams) -> (request: HttpRequest)
        ensures
            request@ == self@.call(delete_document(rule@)),
    {
        self.call_method(DELETE_PORT_FORWARDING, rule.to_json())
    }

    /// The request that commits the changes sent so far.
    pub fn commit(&self) -> (request: HttpRequest)
        ensures
            request@ == self@.call(commit_document()),
    {
        self.call_method(COMMIT, Client::no_parameters())
    }

    /// Starts a change to the rule with the id: the request lists the rules.
    pub fn change_nat_rule(&self, action: RuleAction, id: String) -> (start: (
        RuleChange,
        HttpRequest,
    ))
        ensures
            start.0@ == started(action, id@),
            start.1@ == self@.call(list_document()),
    {
        let request = self.list_nat_rules();
        (RuleChange { action, id, stage: Stage::Resolving, applied: None }, request)
    }

    /// Starts enabling the rule with the id.
    pub fn enable_nat_rule(&self, id: String) -> (start: (RuleChange, HttpRequest))
        ensures
            start.0@ == started(RuleAction::Enable, id@),
            start.1@ == self@.call(list_document()),
    {
        self.change_nat_rule(RuleAction::Enable, id)
    }

    /// Starts disabling the rule with the id.
    pub fn disable_nat_rule(&self, id: String) -> (start: (RuleChange, HttpRequest))
        ensures
            start.0@ == started(RuleAction::Disable, id@),
            start.1@ == self@.call(list_document()),
    {
        self.change_nat_rule(RuleAction::Disable, id)
    }

    /// Starts removing the rule with the id.
    pub fn remove_nat_rule(&self, id: String) -> (start: (RuleChange, HttpRequest))
        ensures
            start.0@ == started(RuleAction::Remove, id@),
            start.1@ == self@.call(list_document()),
    {
        self.change_nat_rule(RuleAction::Remove, id)
    }

    /// The request that applies an action to a rule as it is listed.
    pub fn mutation(&self, action: RuleAction, rule: &NatRule) -> (request: HttpRequest)
        ensures
            request@ == self@.call(mutation_document(action, rule@)),
    {
        match action {
            RuleAction::Enable => {
                let params = rule.to_params().with_enable(true);
                self.add_nat_rule(&params)
            },
            RuleAction::Disable => {
                let params = rule.to_params().with_enable(false);
                self.add_nat_rule(&params)
            },
            RuleAction::Remove => {
                let params = rule.to_delete_params();
                self.delete_nat_rule(&params)
            },
        }
    }

    /// Takes the reply to the last call of a change and says what comes
    /// next.
    pub fn advance(&self, change: RuleChange, reply: &Reply) -> (step: Step)
        ensures
            step@ == next_step(self@, change@, reply@),
    {
        match change.stage {
            Stage::Resolving => match reply.rules() {
                Ok(rules) => match position_of(&rules, change.id.as_str()) {
                    Some(place) => {
                        let request = self.mutation(change.action, &rules[place]);
                        Step::Send {
                            change: RuleChange { stage: Stage::Mutating, ..change },
                            request,
                        }
                    },
                    None => Step::Done(Err(NatError::RuleNotFound(change.id))),
                },
                Err(error) => Step::Done(Err(NatError::Resolve(error))),
            },
            Stage::Mutating => match reply.payload() {
                Ok(data) => {
                    let request = self.commit();
                    Step::Send {
                        change: RuleChange {
                            action: change.action,
                            id: change.id,
                            stage: Stage::Committing,
                            applied: data,
                        },
                        request,
                    }
                },
                Err(error) => Step::Done(Err(NatError::Mutation(error))),
            },
            Stage::Committing => match reply.payload() {
                Ok(data) => Step::Done(Ok(data)),
                Err(error) => Step::Done(Err(NatError::Commit { applied: change.applied, error })),
            },
        }
    }
}

} // verus!
