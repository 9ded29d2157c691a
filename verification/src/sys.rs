use vstd::prelude::*;

verus! {

/// Relies on `uuid::Uuid::new_v4` and `Uuid::as_u128`: a freshly generated
/// random UUID read back as an integer. The result is random, so nothing is
/// promised of it.
#[verifier::external_body]
pub(crate) fn fresh_session_id() -> u128 {
    uuid::Uuid::new_v4().as_u128()
}

/// Relies on `chrono::Local::now` and `DateTime::timestamp`: the wall-clock
/// time at the call, in whole seconds since the Unix epoch. The result depends
/// on when the call is made, so nothing is promised of it.
#[verifier::external_body]
pub(crate) fn wall_now() -> i64 {
    chrono::Local::now().timestamp()
}

/// Relies on `notify_rust::Notification` (`new`, `summary`, `body`, `icon`,
/// `show`): builds a desktop notification titled "Completed" and shows it.
/// Delivery is best effort; a failure is ignored and nothing is promised.
#[verifier::external_body]
pub(crate) fn notify_completion(mode_name: &str, task: &str) {
    let message = format!("{}: {}", mode_name, task);
    let _ = notify_rust::Notification::new()
        .summary("Completed")
        .body(&message)
        .icon("clock")
        .show();
}

} // verus!
