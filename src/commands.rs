use vstd::prelude::*;
use vstd::string::*;

verus! {

/// The line written for a notification with this title and body.
pub open spec fn notification_text(title: Seq<char>, body: Seq<char>) -> Seq<char> {
    "Notification: "@ + title + " - "@ + body
}

/// Formats the line that records a notification: `Notification: <title> - <body>`.
pub fn notification_line(title: &str, body: &str) -> (r: String)
    ensures
        r@ == notification_text(title@, body@),
{
    let mut line = String::from_str("Notification: ");
    line.append(title);
    line.append(" - ");
    line.append(body);
    line
}

/// The application's version: exactly the version that the build declares.
pub fn get_app_version(pkg_version: &str) -> (r: String)
    ensures
        r@ == pkg_version@,
{
    String::from_str(pkg_version)
}

/// The answer of the update check: no update mechanism exists yet, so no
/// update is ever reported, and the check never fails.
pub fn check_for_updates() -> (r: Result<bool, String>)
    ensures
        r == Ok::<bool, String>(false),
{
    Ok(false)
}

/// The answer to a folder request, given what the picker returned: the folder
/// chosen, or nothing when the dialog was cancelled. A cancelled dialog is no
/// error.
pub fn folder_choice<P>(picked: Option<P>) -> (r: Result<Option<P>, String>)
    ensures
        r == Ok::<Option<P>, String>(picked),
{
    Ok(picked)
}

} // verus!
