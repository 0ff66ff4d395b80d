//! How a refused request is answered, and what the audit trail tells.

use vstd::prelude::*;

verus! {

/// The kind of a refusal.
#[derive(Clone, Copy, Debug, PartialEq, Eq, Structural)]
pub enum Code {
    InvalidArgument,
    NotFound,
    PermissionDenied,
    ResourceExhausted,
    Internal,
    Unavailable,
    Unauthenticated,
}

/// A line of the audit trail.
#[derive(Debug)]
pub struct AuditLine {
    pub principal: String,
    pub action: String,
    pub key: String,
    pub outcome: String,
}

/// A line of the audit trail over sequences.
pub struct AuditLineV {
    pub principal: Seq<char>,
    pub action: Seq<char>,
    pub key: Seq<char>,
    pub outcome: Seq<char>,
}

impl View for AuditLine {
    type V = AuditLineV;

    open spec fn view(&self) -> AuditLineV {
        AuditLineV {
            principal: self.principal@,
            action: self.action@,
            key: self.key@,
            outcome: self.outcome@,
        }
    }
}

/// The line that tells that `principal` was denied `action` on `key`.
pub open spec fn denied_line(
    principal: Seq<char>,
    action: Seq<char>,
    key: Seq<char>,
) -> AuditLineV {
    AuditLineV { principal, action, key, outcome: "denied"@ }
}

impl AuditLine {
    /// The line that tells that `principal` was denied `action` on `key`.
    pub fn denied(principal: &str, action: &str, key: &str) -> (r: Self)
        ensures
            r@ == denied_line(principal@, action@, key@),
    {
        AuditLine {
            principal: principal.to_owned(),
            action: action.to_owned(),
            key: key.to_owned(),
            outcome: "denied".to_owned(),
        }
    }
}

/// A refusal and its words.
#[derive(Debug)]
pub struct Status {
    pub code: Code,
    pub message: String,
    /// What the audit trail is to tell, where a principal was denied something.
    pub audit: Option<AuditLine>,
}

/// A refusal over sequences.
pub struct StatusV {
    pub code: Code,
    pub message: Seq<char>,
    pub audit: Option<AuditLineV>,
}

impl View for Status {
    type V = StatusV;

    open spec fn view(&self) -> StatusV {
        StatusV {
            code: self.code,
            message: self.message@,
            audit: match self.audit {
                Some(line) => Some(line@),
                None => None,
            },
        }
    }
}

/// A refusal that the audit trail does not tell of.
pub open spec fn refusal(code: Code, message: Seq<char>) -> StatusV {
    StatusV { code, message, audit: None }
}

impl Status {
    /// The refusal of kind `code` in the words `message`.
    pub fn new(code: Code, message: &str) -> (r: Self)
        ensures
            r@ == refusal(code, message@),
    {
        Status { code, message: message.to_owned(), audit: None }
    }
}

} // verus!
