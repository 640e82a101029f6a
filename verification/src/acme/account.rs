//! The account at the certificate authority: it is restored from its credentials, or
//! created and its credentials kept.

use crate::acme::error::{AcmeError, AcmeErrorView};
use vstd::prelude::*;

verus! {

/// The next step.
#[derive(Clone, Copy, Debug, PartialEq, Eq, Structural)]
pub enum AccountStep {
    /// Read the file with the credentials.
    ReadCredentials,
    /// Make credentials of it.
    ParseCredentials,
    /// Set up a client for the account that they are of.
    BuildRestored,
    /// Restore the account.
    Restore,
    /// Set up a client for a new account.
    BuildNew,
    /// Create the account.
    Create,
    /// Make a text of its credentials.
    SerializeCredentials,
    /// Write the file with the credentials.
    SaveCredentials,
    /// Nothing: the account is there.
    Ready,
}

/// The first step: a file with credentials is used where there is one.
pub open spec fn account_first(credentials_exist: bool) -> AccountStep {
    if credentials_exist {
        AccountStep::ReadCredentials
    } else {
        AccountStep::BuildNew
    }
}

/// The first step: a file with credentials is used where there is one.
pub fn account_start(credentials_exist: bool) -> (r: AccountStep)
    ensures
        r == account_first(credentials_exist),
        r == if credentials_exist {
            AccountStep::ReadCredentials
        } else {
            AccountStep::BuildNew
        },
{
    if credentials_exist {
        AccountStep::ReadCredentials
    } else {
        AccountStep::BuildNew
    }
}

/// The step that follows a step that succeeded.
pub open spec fn account_following(step: AccountStep) -> AccountStep {
    match step {
        AccountStep::ReadCredentials => AccountStep::ParseCredentials,
        AccountStep::ParseCredentials => AccountStep::BuildRestored,
        AccountStep::BuildRestored => AccountStep::Restore,
        AccountStep::Restore => AccountStep::Ready,
        AccountStep::BuildNew => AccountStep::Create,
        AccountStep::Create => AccountStep::SerializeCredentials,
        AccountStep::SerializeCredentials => AccountStep::SaveCredentials,
        AccountStep::SaveCredentials => AccountStep::Ready,
        AccountStep::Ready => AccountStep::Ready,
    }
}

/// The step that follows a step that succeeded.
pub fn account_next(step: AccountStep) -> (r: AccountStep)
    ensures
        r == account_following(step),
{
    match step {
        AccountStep::ReadCredentials => AccountStep::ParseCredentials,
        AccountStep::ParseCredentials => AccountStep::BuildRestored,
        AccountStep::BuildRestored => AccountStep::Restore,
        AccountStep::Restore => AccountStep::Ready,
        AccountStep::BuildNew => AccountStep::Create,
        AccountStep::Create => AccountStep::SerializeCredentials,
        AccountStep::SerializeCredentials => AccountStep::SaveCredentials,
        AccountStep::SaveCredentials => AccountStep::Ready,
        AccountStep::Ready => AccountStep::Ready,
    }
}

/// The error of a step that failed.
pub open spec fn account_failure(step: AccountStep, error: Seq<char>) -> AcmeErrorView {
    match step {
        AccountStep::ReadCredentials | AccountStep::SaveCredentials | AccountStep::Ready => AcmeErrorView::Io(
            error,
        ),
        AccountStep::ParseCredentials => AcmeErrorView::Config(
            "failed to parse account credentials: "@ + error,
        ),
        AccountStep::BuildRestored | AccountStep::BuildNew => AcmeErrorView::Protocol(
            "failed to build account: "@ + error,
        ),
        AccountStep::Restore => AcmeErrorView::Protocol("failed to restore account: "@ + error),
        AccountStep::Create => AcmeErrorView::Protocol("failed to create account: "@ + error),
        AccountStep::SerializeCredentials => AcmeErrorView::Config(
            "failed to serialize account credentials: "@ + error,
        ),
    }
}

fn with_prefix(prefix: &str, error: &str) -> (r: String)
    ensures
        r@ == prefix@ + error@,
{
    let mut m = prefix.to_owned();
    m.push_str(error);
    m
}

/// The error of a step that failed.
pub fn account_error(step: AccountStep, error: &str) -> (r: AcmeError)
    ensures
        r@ == account_failure(step, error@),
{
    match step {
        AccountStep::ReadCredentials | AccountStep::SaveCredentials | AccountStep::Ready => AcmeError::Io(
            error.to_owned(),
        ),
        AccountStep::ParseCredentials => AcmeError::Config(
            with_prefix("failed to parse account credentials: ", error),
        ),
        AccountStep::BuildRestored | AccountStep::BuildNew => AcmeError::Protocol(
            with_prefix("failed to build account: ", error),
        ),
        AccountStep::Restore => AcmeError::Protocol(
            with_prefix("failed to restore account: ", error),
        ),
        AccountStep::Create => AcmeError::Protocol(with_prefix("failed to create account: ", error)),
        AccountStep::SerializeCredentials => AcmeError::Config(
            with_prefix("failed to serialize account credentials: ", error),
        ),
    }
}

/// The contact that a new account names.
pub fn contact(email: &str) -> (r: String)
    ensures
        r@ == "mailto:"@ + email@,
{
    with_prefix("mailto:", email)
}

/// Where there are credentials, no account is created; a new account is used only after
/// its credentials were written.
pub proof fn law_new_accounts_are_kept(step: AccountStep)
    ensures
        account_following(step) is Create ==> step is BuildNew,
        !(step is Ready) && account_following(step) is Ready ==> step is Restore
            || step is SaveCredentials,
        !(account_following(step) is BuildNew),
{
}

/// The step after so many steps that succeeded.
pub open spec fn account_after(credentials_exist: bool, steps: nat) -> AccountStep
    decreases steps,
{
    if steps == 0 {
        account_first(credentials_exist)
    } else {
        account_following(account_after(credentials_exist, (steps - 1) as nat))
    }
}

/// The account is ready after four steps: with credentials they are read, parsed and the
/// account is restored, and without them one is created and its credentials are saved.
pub proof fn law_accounts_are_ready_after_four_steps()
    ensures
        account_after(true, 0) is ReadCredentials,
        account_after(true, 1) is ParseCredentials,
        account_after(true, 2) is BuildRestored,
        account_after(true, 3) is Restore,
        account_after(true, 4) is Ready,
        account_after(false, 0) is BuildNew,
        account_after(false, 1) is Create,
        account_after(false, 2) is SerializeCredentials,
        account_after(false, 3) is SaveCredentials,
        account_after(false, 4) is Ready,
        account_following(AccountStep::Ready) is Ready,
{
    reveal_with_fuel(account_after, 6);
}

/// An account is created only where there are no credentials, however many steps are taken.
pub proof fn law_existing_accounts_are_not_replaced(steps: nat)
    ensures
        !(account_after(true, steps) is Create) && !(account_after(true, steps) is SaveCredentials)
            && !(account_after(true, steps) is BuildNew) && !(account_after(true, steps)
            is SerializeCredentials),
        !(account_after(false, steps) is Restore) && !(account_after(false, steps)
            is ReadCredentials),
        !(account_after(false, steps) is ParseCredentials) && !(account_after(false, steps)
            is BuildRestored),
    decreases steps,
{
    if steps > 0 {
        law_existing_accounts_are_not_replaced((steps - 1) as nat);
    }
}

/// A failure says what the step failed with.
pub proof fn law_account_failures_say_what_happened(step: AccountStep, error: Seq<char>)
    ensures
        match account_failure(step, error) {
            AcmeErrorView::Io(m) => m == error && (step is ReadCredentials || step
                is SaveCredentials || step is Ready),
            AcmeErrorView::Config(m) => error.is_suffix_of(m) && (step is ParseCredentials || step
                is SerializeCredentials),
            AcmeErrorView::Protocol(m) => error.is_suffix_of(m) && (step is BuildRestored || step
                is BuildNew || step is Restore || step is Create),
            _ => false,
        },
{
    match account_failure(step, error) {
        AcmeErrorView::Config(m) => {
            assert(m.subrange(m.len() - error.len(), m.len() as int) =~= error);
        },
        AcmeErrorView::Protocol(m) => {
            assert(m.subrange(m.len() - error.len(), m.len() as int) =~= error);
        },
        _ => {},
    }
}

/// An account whose credentials are there is used again; another is made only without them.
pub proof fn law_accounts_are_used_again(credentials_exist: bool)
    ensures
        account_first(credentials_exist) is ReadCredentials <==> credentials_exist,
        account_first(credentials_exist) is BuildNew <==> !credentials_exist,
{
}

/// What failed is told in words of its own.
pub proof fn law_account_failures_are_told_apart(error: Seq<char>)
    ensures
        account_failure(AccountStep::ReadCredentials, error) == AcmeErrorView::Io(error),
        account_failure(AccountStep::SaveCredentials, error) == AcmeErrorView::Io(error),
        account_failure(AccountStep::ParseCredentials, error) == AcmeErrorView::Config(
            "failed to parse account credentials: "@ + error,
        ),
        account_failure(AccountStep::Restore, error) == AcmeErrorView::Protocol(
            "failed to restore account: "@ + error,
        ),
        account_failure(AccountStep::Create, error) == AcmeErrorView::Protocol(
            "failed to create account: "@ + error,
        ),
        account_failure(AccountStep::SerializeCredentials, error) == AcmeErrorView::Config(
            "failed to serialize account credentials: "@ + error,
        ),
        account_failure(AccountStep::BuildNew, error) == account_failure(
            AccountStep::BuildRestored,
            error,
        ),
{
}

} // verus!
