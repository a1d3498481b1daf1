//! The command handlers' decision steps: what each remote outcome does to
//! the configuration document, and which library error it becomes.

use vstd::prelude::*;

use crate::config::Config;
use crate::config::Course;
use crate::errors::IClassError;

verus! {

/// Finishes the login intent once the identity resolution came back: a
/// resolved id is stored in the document, a failure leaves the document
/// exactly as it was and becomes the authentication error carrying the
/// reported text.
pub fn login_complete(config: &mut Config, resolved: Result<String, String>) -> (r: Result<
    (),
    IClassError,
>)
    ensures
        resolved matches Ok(id) ==> (r is Ok && final(config).user_id == id
            && final(config).username == old(config).username
            && final(config).password == old(config).password
            && final(config).courses == old(config).courses),
        resolved matches Err(m) ==> (r matches Err(IClassError::Auth { message }) && message == m
            && *final(config) == *old(config)),
{
    match resolved {
        Ok(id) => {
            config.set_user_id(id);
            Ok(())
        },
        Err(m) => Err(IClassError::Auth { message: m }),
    }
}

/// Finishes a term query: a successful fetch replaces the cached course
/// list wholesale (entries absent from the fresh result are gone, nothing
/// is unioned), a failure leaves the document exactly as it was and
/// becomes the query error carrying the reported text.
pub fn apply_term_query(config: &mut Config, fetched: Result<Vec<Course>, String>) -> (r: Result<
    (),
    IClassError,
>)
    ensures
        fetched matches Ok(list) ==> (r is Ok && final(config).courses == list
            && final(config).username == old(config).username
            && final(config).password == old(config).password
            && final(config).user_id == old(config).user_id),
        fetched matches Err(m) ==> (r matches Err(IClassError::Query { message }) && message == m
            && *final(config) == *old(config)),
{
    match fetched {
        Ok(list) => {
            config.replace_courses(list);
            Ok(())
        },
        Err(m) => Err(IClassError::Query { message: m }),
    }
}

/// Maps the outcome of the remote check-in call: success stays success, a
/// rejection becomes the check-in error carrying the reported text. Either
/// way the run ends; nothing retries or re-arms.
pub fn complete_checkin(outcome: Result<(), String>) -> (r: Result<(), IClassError>)
    ensures
        outcome is Ok ==> r is Ok,
        outcome matches Err(m) ==> (r matches Err(IClassError::Checkin { message }) && message
            == m),
{
    match outcome {
        Ok(()) => Ok(()),
        Err(m) => Err(IClassError::Checkin { message: m }),
    }
}

} // verus!
