//! The values that the shell hands to the UI layer and to the log.

use vstd::prelude::*;

verus! {

/// The display name of the application.
pub const APP_NAME: &'static str = "Arkadaş Özel Eğitim";

/// The version that this build declares.
pub const VERSION: &'static str = "0.1.0";

/// The text of the line that is logged once at startup.
pub open spec fn startup_text() -> Seq<char> {
    APP_NAME@ + " Desktop v"@ + VERSION@ + " started"@
}

/// The version of the build. Every call gives the same value.
pub fn get_version() -> (version: String)
    ensures
        version@ == VERSION@,
{
    String::from_str(VERSION)
}

/// The display name of the application. Every call gives the same value.
pub fn get_app_name() -> (name: String)
    ensures
        name@ == APP_NAME@,
{
    String::from_str(APP_NAME)
}

/// The line that is logged once at startup: the name of the application
/// and the version of the build.
pub fn startup_message() -> (line: String)
    ensures
        line@ == startup_text(),
{
    let mut line = String::from_str(APP_NAME);
    line.append(" Desktop v");
    line.append(VERSION);
    line.append(" started");
    line
}

} // verus!
