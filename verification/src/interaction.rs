//! The interaction dispatcher's decisions: authorizing a control press and
//! planning what an approve or deny handler does. Receiving presses and
//! carrying the plan out stay with the caller.

use vstd::prelude::*;
use vstd::string::*;

use crate::decimal::{dec_digits, u64_to_string};
use crate::request::{
    approve_id, deny_id, recover_post, recovers_to, NameRequest, ParseError,
};

verus! {

/// The control identifiers the dispatcher listens for at all.
pub open spec fn is_allowed_id(id: Seq<char>) -> bool {
    id == approve_id() || id == deny_id()
}

/// The control identifiers that demand the moderator role. Every identifier
/// routed to a decision handler is in this set.
pub open spec fn is_privileged_id(id: Seq<char>) -> bool {
    id == approve_id() || id == deny_id()
}

/// A moderator's verdict on a name request.
#[derive(Clone, Copy, Debug, PartialEq, Eq, Structural)]
pub enum Decision {
    Approved,
    Denied,
}

/// The wire word for a decision.
pub open spec fn decision_label(d: Decision) -> Seq<char> {
    match d {
        Decision::Approved => "approved"@,
        Decision::Denied => "denied"@,
    }
}

impl Decision {
    /// The wire word for this decision.
    pub fn label(&self) -> (s: &'static str)
        ensures
            s@ == decision_label(*self),
    {
        match self {
            Decision::Approved => "approved",
            Decision::Denied => "denied",
        }
    }
}

/// Where a control press goes after the authorization check.
#[derive(Clone, Copy, Debug, PartialEq, Eq, Structural)]
pub enum InteractionRoute {
    /// Answer the actor alone with the fixed rejection notice; nothing else.
    Reject,
    /// Run the decision handler for this control.
    Decide(Decision),
    /// Not a recognized control: to be logged and otherwise ignored.
    Unknown,
}

/// The route a press takes: a privileged identifier without the moderator
/// role is rejected; otherwise the identifier picks its handler.
pub open spec fn spec_route(id: Seq<char>, has_mod_role: bool) -> InteractionRoute {
    if is_privileged_id(id) && !has_mod_role {
        InteractionRoute::Reject
    } else if id == approve_id() {
        InteractionRoute::Decide(Decision::Approved)
    } else if id == deny_id() {
        InteractionRoute::Decide(Decision::Denied)
    } else {
        InteractionRoute::Unknown
    }
}

/// A privileged control pressed without the moderator role is always
/// rejected, whichever control it is.
pub proof fn lemma_unauthorized_rejected(id: Seq<char>)
    requires
        is_privileged_id(id),
    ensures
        spec_route(id, false) == InteractionRoute::Reject,
{
}

/// No identifier reaches a decision handler without the moderator role
/// unless it lies outside the privileged set: the whitelist is honoured.
pub proof fn lemma_privileged_needs_role(id: Seq<char>, d: Decision)
    requires
        spec_route(id, false) == InteractionRoute::Decide(d),
    ensures
        !is_privileged_id(id),
{
}

/// Whether two strings hold the same characters.
fn str_eq(a: &str, b: &str) -> (r: bool)
    ensures
        r == (a@ == b@),
{
    let al = a.unicode_len();
    let bl = b.unicode_len();
    if al != bl {
        return false;
    }
    let mut i: usize = 0;
    while i < al
        invariant
            i <= al,
            al == a@.len() == b@.len(),
            forall|j: int| 0 <= j < i ==> a@[j] == b@[j],
        decreases al - i,
    {
        if a.get_char(i) != b.get_char(i) {
            return false;
        }
        i = i + 1;
    }
    proof {
        assert(a@ =~= b@);
    }
    true
}

/// Routes a control press: the press's identifier and whether the acting
/// user holds the moderator role decide everything.
pub fn authorize_interaction(custom_id: &str, has_mod_role: bool) -> (r: InteractionRoute)
    ensures
        r == spec_route(custom_id@, has_mod_role),
{
    let approve = str_eq(custom_id, "namereq_approve");
    let deny = str_eq(custom_id, "namereq_deny");
    if (approve || deny) && !has_mod_role {
        InteractionRoute::Reject
    } else if approve {
        InteractionRoute::Decide(Decision::Approved)
    } else if deny {
        InteractionRoute::Decide(Decision::Denied)
    } else {
        InteractionRoute::Unknown
    }
}

/// Whether the dispatcher listens for this control identifier at all; the
/// intake filter of the receive loop.
pub fn allowed_interaction(custom_id: &str) -> (r: bool)
    ensures
        r == is_allowed_id(custom_id@),
{
    str_eq(custom_id, "namereq_approve") || str_eq(custom_id, "namereq_deny")
}

/// Every identifier that reaches a decision handler, under any role, lies in
/// the listened-for set and in the privileged set.
pub proof fn lemma_routed_ids_whitelisted(id: Seq<char>, has_mod_role: bool, d: Decision)
    requires
        spec_route(id, has_mod_role) == InteractionRoute::Decide(d),
    ensures
        is_allowed_id(id),
        is_privileged_id(id),
{
}

/// The fixed ephemeral rejection notice.
pub open spec fn permission_denied_text() -> Seq<char> {
    "You don't have permission to do that."@
}

/// The fixed ephemeral rejection notice, shown only to the actor.
pub fn permission_denied_message() -> (s: String)
    ensures
        s@ == permission_denied_text(),
{
    String::from_str("You don't have permission to do that.")
}

/// The decision as submitted to the approval API.
pub struct DecisionSubmission {
    pub player_uid: u64,
    pub requested_name: String,
    /// The wire word of the decision.
    pub decision: String,
    /// The acting moderator.
    pub by: String,
}

/// A terminal-status line owed to a log channel.
pub struct LogPost {
    pub channel: u64,
    pub text: String,
}

/// Everything a decision handler does, computed before any output: submit
/// the decision; then, once submitted, best-effort delete the original
/// message and post the log line when a log channel is bound.
pub struct DecisionPlan {
    pub submission: DecisionSubmission,
    /// Present exactly when a log channel is bound.
    pub log_post: Option<LogPost>,
}

/// The terminal-status line naming the player and requested name.
pub open spec fn decision_log_text(player_uid: u64, name: Seq<char>, d: Decision) -> Seq<char> {
    "Name request from Player "@ + dec_digits(player_uid as nat) + (match d {
        Decision::Approved => " **approved** :white_check_mark:: "@,
        Decision::Denied => " **denied** :no_entry:: "@,
    }) + name
}

/// Plans a decision handler's work from the original message text alone:
/// recovers the request it rendered, and returns the submission and the log
/// line owed. Fails exactly as recovery fails, with no side effects planned.
pub fn plan_decision(
    message_text: &str,
    decision: Decision,
    by: &str,
    log_channel: Option<u64>,
) -> (r: Result<DecisionPlan, ParseError>)
    ensures
        match r {
            Ok(plan) => {
                &&& recovers_to(
                    message_text@,
                    NameRequest {
                        player_uid: plan.submission.player_uid,
                        requested_name: plan.submission.requested_name,
                    },
                )
                &&& plan.submission.decision@ == decision_label(decision)
                &&& plan.submission.by@ == by@
                &&& match log_channel {
                    None => plan.log_post is None,
                    Some(ch) => plan.log_post matches Some(lp) && lp.channel == ch && lp.text@
                        == decision_log_text(
                        plan.submission.player_uid,
                        plan.submission.requested_name@,
                        decision,
                    ),
                }
            },
            Err(e) => recover_post(message_text@, Err(e)),
        },
{
    let req = match NameRequest::parse_from_notification_message(message_text) {
        Ok(req) => req,
        Err(e) => {
            return Err(e);
        },
    };
    let submission = DecisionSubmission {
        player_uid: req.player_uid,
        requested_name: req.requested_name.clone(),
        decision: String::from_str(decision.label()),
        by: String::from_str(by),
    };
    let log_post = match log_channel {
        Some(ch) => {
            let mut text = String::from_str("Name request from Player ");
            let num = u64_to_string(req.player_uid);
            text.append(num.as_str());
            match decision {
                Decision::Approved => {
                    text.append(" **approved** :white_check_mark:: ");
                },
                Decision::Denied => {
                    text.append(" **denied** :no_entry:: ");
                },
            }
            text.append(req.requested_name.as_str());
            proof {
                assert(text@ =~= decision_log_text(req.player_uid, req.requested_name@, decision));
            }
            Some(LogPost { channel: ch, text })
        },
        None => None,
    };
    proof {
        assert(NameRequest {
            player_uid: submission.player_uid,
            requested_name: submission.requested_name,
        } == req);
    }
    Ok(DecisionPlan { submission, log_post })
}

} // verus!
