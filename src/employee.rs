use vstd::prelude::*;
use crate::common::{Error, ErrorResponse, Name};

verus! {

/// The actions that an employee may be permitted to take.
#[derive(Debug, Clone, Copy, PartialEq, Eq, Structural)]
pub enum Action {
    FetchTransaction,
    CreateTransaction,
    ModifyTransaction,
    DeleteTransaction,
    FetchStore,
    ModifyStore,
    FetchSupplier,
    ModifySupplier,
    FetchPromotion,
    ModifyPromotion,
    GenerateTemplateContent,
}

pub open spec fn action_name(a: Action) -> Seq<char> {
    match a {
        Action::FetchTransaction => "FetchTransaction"@,
        Action::CreateTransaction => "CreateTransaction"@,
        Action::ModifyTransaction => "ModifyTransaction"@,
        Action::DeleteTransaction => "DeleteTransaction"@,
        Action::FetchStore => "FetchStore"@,
        Action::ModifyStore => "ModifyStore"@,
        Action::FetchSupplier => "FetchSupplier"@,
        Action::ModifySupplier => "ModifySupplier"@,
        Action::FetchPromotion => "FetchPromotion"@,
        Action::ModifyPromotion => "ModifyPromotion"@,
        Action::GenerateTemplateContent => "GenerateTemplateContent"@,
    }
}

impl Action {
    /// The action's name as it is written in messages.
    pub fn name(&self) -> (r: &'static str)
        ensures
            r@ == action_name(*self),
    {
        match self {
            Action::FetchTransaction => "FetchTransaction",
            Action::CreateTransaction => "CreateTransaction",
            Action::ModifyTransaction => "ModifyTransaction",
            Action::DeleteTransaction => "DeleteTransaction",
            Action::FetchStore => "FetchStore",
            Action::ModifyStore => "ModifyStore",
            Action::FetchSupplier => "FetchSupplier",
            Action::ModifySupplier => "ModifySupplier",
            Action::FetchPromotion => "FetchPromotion",
            Action::ModifyPromotion => "ModifyPromotion",
            Action::GenerateTemplateContent => "GenerateTemplateContent",
        }
    }
}

/// One entry of an employee's privilege list.
#[derive(Debug, Clone, Copy, PartialEq, Eq, Structural)]
pub struct Access {
    pub action: Action,
    pub authority: i64,
}

#[derive(Debug, Clone)]
pub struct Employee {
    pub id: String,
    pub rid: String,
    pub name: Name,
    pub level: Vec<Access>,
}

/// A session as it is stored: the employee by id alone.
#[derive(Debug, Clone)]
pub struct SessionRaw {
    pub id: String,
    pub key: String,
    pub employee_id: String,
    /// Seconds since the Unix epoch after which the session is void.
    pub expiry: i64,
}

/// An authenticated employee for the length of one request.
#[derive(Debug, Clone)]
pub struct Session {
    pub id: String,
    pub key: String,
    pub employee: Employee,
    /// Seconds since the Unix epoch after which the session is void.
    pub expiry: i64,
}

/// The authority of the first entry for `action` at or after position `i`, or
/// zero when there is none.
pub open spec fn authority_from(level: Seq<Access>, action: Action, i: int) -> int
    decreases level.len() - i,
{
    if i < 0 || i >= level.len() {
        0
    } else if level[i].action == action {
        level[i].authority as int
    } else {
        authority_from(level, action, i + 1)
    }
}

/// The authority that a privilege list grants for `action`.
pub open spec fn authority_for(level: Seq<Access>, action: Action) -> int {
    authority_from(level, action, 0)
}

/// Whether a privilege list allows `action`: template generation always, any
/// other action with an authority of at least one.
pub open spec fn permits(level: Seq<Access>, action: Action) -> bool {
    action == Action::GenerateTemplateContent || authority_for(level, action) >= 1
}

/// Whether the privilege list `level` allows `action`.
fn level_permits(level: &Vec<Access>, action: Action) -> (r: bool)
    ensures
        r == permits(level@, action),
{
    if action == Action::GenerateTemplateContent {
        return true;
    }
    let n = level.len();
    let mut i: usize = 0;
    while i < n
        invariant
            n == level@.len(),
            i <= n,
            action != Action::GenerateTemplateContent,
            authority_for(level@, action) == authority_from(level@, action, i as int),
        decreases n - i,
    {
        if level[i].action == action {
            return level[i].authority >= 1;
        }
        i = i + 1;
    }
    false
}

impl Session {
    /// Whether the session's employee may take `permission`.
    pub fn has_permission(self, permission: Action) -> (r: bool)
        ensures
            r == permits(self.employee.level@, permission),
    {
        level_permits(&self.employee.level, permission)
    }
}

/// Refuses with an authorisation error when the session may not take `action`.
pub fn check_permissions(session: &Session, action: Action) -> (r: Result<(), Error>)
    ensures
        r is Ok <==> permits(session.employee.level@, action),
        r matches Err(Error::Unauthorized(e)) ==> e.message@ == "User lacks "@ + action_name(
            action,
        ) + " permission."@,
        r matches Err(e) ==> e is Unauthorized,
{
    if level_permits(&session.employee.level, action) {
        Ok(())
    } else {
        Err(ErrorResponse::unauthorized(action))
    }
}

impl ErrorResponse {
    /// The authorisation error for a missing permission.
    pub fn unauthorized(action: Action) -> (r: Error)
        ensures
            r matches Error::Unauthorized(e) && e.message@ == "User lacks "@ + action_name(action)
                + " permission."@,
    {
        let message = String::from_str("User lacks ").concat(action.name()).concat(" permission.");
        Error::Unauthorized(ErrorResponse { message })
    }
}

/// Template generation is allowed to every session, whatever its privileges.
pub proof fn lemma_template_always_permitted(level: Seq<Access>)
    ensures
        permits(level, Action::GenerateTemplateContent),
{
}

/// A session without any privilege entry may take no action but template generation.
pub proof fn lemma_no_privileges_denied(action: Action)
    requires
        action != Action::GenerateTemplateContent,
    ensures
        !permits(Seq::<Access>::empty(), action),
{
}

pub open spec fn missing_cookie_message() -> Seq<char> {
    "Unable to fetch user cookie."@
}

pub open spec fn invalid_session_message() -> Seq<char> {
    "Unable to validate cookie, user does not have valid session."@
}

/// The session of a request, from whether it carried a session cookie and
/// what the lookup of that cookie found.
pub fn cookie_status_wrapper(cookie_present: bool, found: Option<Session>) -> (r: Result<
    Session,
    Error,
>)
    ensures
        !cookie_present ==> (r matches Err(Error::Unauthorized(e)) && e.message@
            == missing_cookie_message()),
        cookie_present && found is None ==> (r matches Err(Error::Unauthorized(e)) && e.message@
            == invalid_session_message()),
        cookie_present && found is Some ==> r == Ok::<Session, Error>(found->Some_0),
{
    if !cookie_present {
        return Err(ErrorResponse::custom_unauthorized("Unable to fetch user cookie."));
    }
    match found {
        Some(session) => Ok(session),
        None => Err(
            ErrorResponse::custom_unauthorized(
                "Unable to validate cookie, user does not have valid session.",
            ),
        ),
    }
}

} // verus!
