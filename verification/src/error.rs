//! Why an operation is rejected.

use vstd::prelude::*;
use vstd::string::StringExecFns;

verus! {

/// The reasons for which an operation is rejected. A rejected operation
/// changes nothing.
#[derive(Clone, Copy, Debug, PartialEq, Eq, Structural)]
pub enum AgentVaultError {
    /// The name has more than 32 bytes.
    NameTooLong,
    /// The metadata URI has more than 200 bytes.
    MetadataUriTooLong,
    /// More than 10 skills are declared.
    TooManySkills,
    /// The skill has more than 32 bytes.
    SkillNameTooLong,
    /// Endorser and target are the same identity.
    CannotEndorseSelf,
    /// The target has not declared the skill.
    SkillNotDeclared,
    /// The caller does not own the record.
    Unauthorized,
    /// The registry counters exist already.
    AlreadyInitialized,
    /// The owner has a profile already.
    AlreadyRegistered,
    /// The endorser has endorsed this skill of this target already.
    DuplicateEndorsement,
    /// No record lives at an address that the operation works on.
    RecordNotFound,
}

impl AgentVaultError {
    /// The text of [`AgentVaultError::message`].
    pub open spec fn message_text(self) -> Seq<char> {
        match self {
            AgentVaultError::NameTooLong => "Name must be 32 characters or less"@,
            AgentVaultError::MetadataUriTooLong => "Metadata URI must be 200 characters or less"@,
            AgentVaultError::TooManySkills => "Cannot declare more than 10 skills"@,
            AgentVaultError::SkillNameTooLong => "Skill name must be 32 characters or less"@,
            AgentVaultError::CannotEndorseSelf => "Cannot endorse yourself"@,
            AgentVaultError::SkillNotDeclared => "Target agent has not declared this skill"@,
            AgentVaultError::Unauthorized => "Unauthorized"@,
            AgentVaultError::AlreadyInitialized => "Registry is already initialized"@,
            AgentVaultError::AlreadyRegistered => "Agent is already registered"@,
            AgentVaultError::DuplicateEndorsement => "Skill is already endorsed by this endorser"@,
            AgentVaultError::RecordNotFound => "Record not found"@,
        }
    }

    /// A sentence for the caller.
    pub fn message(&self) -> (text: String)
        ensures
            text@ == self.message_text(),
    {
        match self {
            AgentVaultError::NameTooLong => String::from_str("Name must be 32 characters or less"),
            AgentVaultError::MetadataUriTooLong => String::from_str(
                "Metadata URI must be 200 characters or less",
            ),
            AgentVaultError::TooManySkills => String::from_str("Cannot declare more than 10 skills"),
            AgentVaultError::SkillNameTooLong => String::from_str(
                "Skill name must be 32 characters or less",
            ),
            AgentVaultError::CannotEndorseSelf => String::from_str("Cannot endorse yourself"),
            AgentVaultError::SkillNotDeclared => String::from_str(
                "Target agent has not declared this skill",
            ),
            AgentVaultError::Unauthorized => String::from_str("Unauthorized"),
            AgentVaultError::AlreadyInitialized => String::from_str("Registry is already initialized"),
            AgentVaultError::AlreadyRegistered => String::from_str("Agent is already registered"),
            AgentVaultError::DuplicateEndorsement => String::from_str(
                "Skill is already endorsed by this endorser",
            ),
            AgentVaultError::RecordNotFound => String::from_str("Record not found"),
        }
    }
}

} // verus!
