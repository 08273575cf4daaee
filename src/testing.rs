//! Helpers for the desktop application's test runner.
use vstd::prelude::*;
use vstd::string::StringExecFns;

verus! {

/// Utilities for setting up tests; the ones that touch the file system or the
/// clock live with the application.
pub struct TestUtils;

/// Checks on results that tests make.
pub struct TestAssertions;

/// `needle` occurs in `hay` as a contiguous run.
pub open spec fn contains_run(hay: Seq<char>, needle: Seq<char>) -> bool {
    exists|i: int| 0 <= i <= hay.len() - needle.len() && #[trigger] hay.subrange(i, i + needle.len()) == needle
}

/// The message for an error that lacks the expected text.
pub open spec fn mismatch_text(err: Seq<char>, expected: Seq<char>) -> Seq<char> {
    "Error '"@ + err + "' does not contain '"@ + expected + "'"@
}

/// Relies on str::contains with a `&str` pattern: true exactly where the
/// pattern matches a sub-slice of `hay`.
#[verifier::external_body]
fn str_contains(hay: &str, needle: &str) -> (r: bool)
    ensures
        r == contains_run(hay@, needle@),
{
    hay.contains(needle)
}

/// The message for an error `err` that lacks `expected`.
fn mismatch_message(err: &str, expected: &str) -> (r: String)
    ensures
        r@ == mismatch_text(err@, expected@),
{
    let mut m = "Error '".to_owned();
    m.append(err);
    m.append("' does not contain '");
    m.append(expected);
    m.append("'");
    m
}

impl TestAssertions {
    /// Checks that `result` is an error whose message contains `expected_error`.
    pub fn assert_error_contains<T>(result: Result<T, String>, expected_error: &str) -> (r: Result<
        (),
        String,
    >)
        ensures
            match result {
                Ok(_) => r matches Err(m) && m@ == "Expected error but got success"@,
                Err(e) => if contains_run(e@, expected_error@) {
                    r is Ok
                } else {
                    r matches Err(m) && m@ == mismatch_text(e@, expected_error@)
                },
            },
    {
        match result {
            Ok(_) => Err("Expected error but got success".to_owned()),
            Err(err) => {
                if str_contains(err.as_str(), expected_error) {
                    Ok(())
                } else {
                    Err(mismatch_message(err.as_str(), expected_error))
                }
            },
        }
    }
}

/// `s` ends with `suffix`.
pub open spec fn ends_with(s: Seq<char>, suffix: Seq<char>) -> bool {
    s.len() >= suffix.len() && s.subrange(s.len() - suffix.len(), s.len() as int) == suffix
}

/// A project file name without its ".cap" ending, where it has one.
pub open spec fn project_stem(name: Seq<char>) -> Seq<char> {
    if ends_with(name, ".cap"@) {
        name.subrange(0, name.len() - ".cap"@.len())
    } else {
        name
    }
}

/// Relies on str::strip_suffix with a `&str` suffix: the rest of `s` where it
/// ends with `suffix`, else `None`.
#[verifier::external_body]
fn strip_suffix_of<'a>(s: &'a str, suffix: &str) -> (r: Option<&'a str>)
    ensures
        match r {
            Some(p) => s@ == p@ + suffix@,
            None => !ends_with(s@, suffix@),
        },
{
    s.strip_suffix(suffix)
}

/// The path of `stem` with `extension` under /tmp.
fn temp_path(stem: &str, extension: &str) -> (r: String)
    ensures
        r@ == "/tmp/"@ + stem@ + "."@ + extension@,
{
    let mut p = "/tmp/".to_owned();
    p.append(stem);
    p.append(".");
    p.append(extension);
    p
}

/// Whether a recording device can be used; the test runner always has one.
pub fn simulate_device_available() -> (r: bool)
    ensures
        r,
{
    true
}

/// Checks a request to start a recording: the mode is "studio" or "instant"
/// and a device is available.
pub fn check_recording_start(mode: &str) -> (r: Result<(), String>)
    ensures
        (mode@ == "studio"@ || mode@ == "instant"@) ==> r is Ok,
        !(mode@ == "studio"@ || mode@ == "instant"@) ==> (r matches Err(m) && m@
            == "Invalid recording mode"@),
{
    let m = mode.to_owned();
    if !(m == "studio".to_owned() || m == "instant".to_owned()) {
        return Err("Invalid recording mode".to_owned());
    }
    if !simulate_device_available() {
        return Err("Recording device not available".to_owned());
    }
    Ok(())
}

/// The path a save dialog would give for `file_name`, stripped of a ".cap"
/// ending: an ".mp4" under /tmp for a recording, a ".png" for a screenshot.
pub fn simulate_save_file_dialog(file_name: &str, file_type: &str) -> (r: Result<
    Option<String>,
    String,
>)
    ensures
        file_type@ == "recording"@ ==> (r matches Ok(Some(p)) && p@ == "/tmp/"@ + project_stem(
            file_name@,
        ) + "."@ + "mp4"@),
        file_type@ == "screenshot"@ ==> (r matches Ok(Some(p)) && p@
            == "/tmp/"@ + project_stem(file_name@) + "."@ + "png"@),
        file_type@ != "recording"@ && file_type@ != "screenshot"@ ==> (r matches Err(m) && m@
            == "Invalid file type"@),
{
    let stem: &str = match strip_suffix_of(file_name, ".cap") {
        Some(p) => {
            proof {
                assert(p@ =~= file_name@.subrange(0, file_name@.len() - ".cap"@.len()));
                assert(".cap"@ =~= file_name@.subrange(
                    file_name@.len() - ".cap"@.len(),
                    file_name@.len() as int,
                ));
            }
            p
        },
        None => file_name,
    };
    proof {
        reveal_strlit("recording");
        reveal_strlit("screenshot");
        assert("recording"@ != "screenshot"@) by {
            assert("recording"@[0] != "screenshot"@[0]);
        }
    }
    let t = file_type.to_owned();
    let extension: &str = if t == "recording".to_owned() {
        "mp4"
    } else if t == "screenshot".to_owned() {
        "png"
    } else {
        return Err("Invalid file type".to_owned());
    };
    Ok(Some(temp_path(stem, extension)))
}

/// Checks a request to stop a recording: the recording ID is not empty.
pub fn check_recording_stop(recording_id: &str) -> (r: Result<(), String>)
    ensures
        recording_id@.len() > 0 ==> r is Ok,
        recording_id@.len() == 0 ==> (r matches Err(m) && m@ == "Invalid recording ID"@),
{
    if recording_id.is_empty() {
        return Err("Invalid recording ID".to_owned());
    }
    Ok(())
}

/// Checks text to be copied to the clipboard: it is not empty.
pub fn check_clipboard_text(text: &str) -> (r: Result<(), String>)
    ensures
        text@.len() > 0 ==> r is Ok,
        text@.len() == 0 ==> (r matches Err(m) && m@ == "Cannot copy empty text"@),
{
    if text.is_empty() {
        return Err("Cannot copy empty text".to_owned());
    }
    Ok(())
}

} // verus!
