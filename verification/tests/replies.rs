use shinigami::command::{Outcome, Reject, Verb};
use shinigami::reply::{compose_reply, reply_text};

#[test]
fn success_replies() {
    assert_eq!(reply_text(&Outcome::RoleAdded), "role added!");
    assert_eq!(reply_text(&Outcome::RoleRemoved), "role removed!");
}

#[test]
fn user_error_replies() {
    assert_eq!(
        reply_text(&Outcome::Rejected(Reject::UnknownCommand)),
        "this isn't a valid command."
    );
    assert_eq!(
        reply_text(&Outcome::Rejected(Reject::NoGuildContext)),
        "this command is not valid in this context."
    );
    assert_eq!(
        reply_text(&Outcome::Rejected(Reject::MissingRoleArgument)),
        "please provide a valid Role to assign."
    );
    assert_eq!(
        reply_text(&Outcome::Rejected(Reject::RoleNotPublic)),
        "this role is not publically assignable."
    );
    assert_eq!(
        reply_text(&Outcome::Rejected(Reject::UnsupportedTargetSyntax)),
        "syntax error. Usage: add <role>"
    );
}

#[test]
fn internal_fault_replies_read_as_fatal_errors() {
    assert_eq!(
        reply_text(&Outcome::Rejected(Reject::RoleLookupFailed)),
        "a fatal error has occurred (assertion failed: role could not be retrieved from guild)."
    );
    assert_eq!(
        reply_text(&Outcome::Rejected(Reject::MemberLookupFailed)),
        "a fatal error has occurred (assertion failed: message author not retrievable from guild)."
    );
}

#[test]
fn apply_failure_replies_name_the_operation() {
    assert_eq!(
        reply_text(&Outcome::Rejected(Reject::ApplyFailed(Verb::Add))),
        "unable to add role!"
    );
    assert_eq!(
        reply_text(&Outcome::Rejected(Reject::ApplyFailed(Verb::Remove))),
        "unable to remove role!"
    );
}

#[test]
fn replies_address_the_author() {
    assert_eq!(compose_reply("<@42>", "role added!"), "<@42>, role added!");
    assert_eq!(compose_reply("<@42>", ""), "<@42>, ");
}
