//! An Android emulator as the end of a run: its virtual webcam that shows the
//! sink device is found by name, and the emulator runs with it as its back
//! camera until it exits.
use vstd::prelude::*;

use crate::text::{first_line_holding, first_line_with, line_holds, line_text};

verus! {

/// The emulator executable used when none is given.
pub const DEFAULT_EMULATOR_PATH: &'static str = "/home/olivier/Android/Sdk/emulator/emulator";

/// The virtual device profile used when none is given.
pub const DEFAULT_AVD: &'static str = "Pixel_4_API_29";

/// The pattern of a webcam line of the emulator's listing; the group `name`
/// holds the webcam's name.
pub const CAMERA_PATTERN: &'static str = "Camera '(?<name>\\w+)' ";

/// The group of `CAMERA_PATTERN` that holds the webcam's name.
pub const CAMERA_GROUP: &'static str = "name";

/// The emulator to run, and the virtual device profile it runs.
#[derive(Debug, Clone, PartialEq, Eq)]
pub struct Emulator {
    pub emulator_path: String,
    pub avd: String,
}

/// Why the emulator could not be run with the sink device as its camera.
#[derive(Debug, Clone, Copy, PartialEq, Eq, Structural)]
pub enum LaunchError {
    /// Listing the webcams ended in failure.
    ListFailed,
    /// No webcam of the listing shows the device.
    NoWebcam,
}

/// What the group `group` of the leftmost match of the regular expression
/// `pattern` in `text` holds; nothing where the pattern is invalid, does not
/// match, or leaves the group unset.
pub uninterp spec fn regex_group_of(pattern: Seq<char>, group: Seq<char>, text: Seq<char>) -> Option<
    Seq<char>,
>;

/// Relies on `regex::Regex::new`, `Regex::captures` and `Captures::name`: the
/// named group of the leftmost match, which depends on the three strings alone.
#[verifier::external_body]
fn regex_group(pattern: &str, group: &str, text: &str) -> (r: Option<String>)
    ensures
        match r {
            Some(s) => regex_group_of(pattern@, group@, text@) == Some(s@),
            None => regex_group_of(pattern@, group@, text@) is None,
        },
{
    let re = regex::Regex::new(pattern).ok()?;
    let caps = re.captures(text)?;
    caps.name(group).map(|m| m.as_str().to_string())
}

/// The webcam name that the emulator's listing gives on its first line that
/// holds `device`.
pub open spec fn webcam_of(listing: Seq<char>, device: Seq<char>, k: int) -> Option<Seq<char>> {
    regex_group_of(CAMERA_PATTERN@, CAMERA_GROUP@, line_text(listing, k))
}

/// The emulator's webcam that shows `device`, from the result of listing the
/// webcams: whether the listing succeeded, and what it printed.
pub fn webcam_for_device(listed: bool, listing: &str, device: &str) -> (r: Result<
    String,
    LaunchError,
>)
    ensures
        !listed ==> r == Err::<String, LaunchError>(LaunchError::ListFailed),
        listed && (forall|k: int| !line_holds(listing@, device@, k)) ==> r == Err::<
            String,
            LaunchError,
        >(LaunchError::NoWebcam),
        forall|k: int|
            listed && first_line_holding(listing@, device@, k) ==> match r {
                Ok(name) => webcam_of(listing@, device@, k) == Some(name@),
                Err(e) => e == LaunchError::NoWebcam && webcam_of(listing@, device@, k) is None,
            },
{
    if !listed {
        return Err(LaunchError::ListFailed);
    }
    match first_line_with(listing, device) {
        None => Err(LaunchError::NoWebcam),
        Some(line) => {
            proof {
                assert forall|k: int, j: int|
                    first_line_holding(listing@, device@, k) && first_line_holding(
                        listing@,
                        device@,
                        j,
                    ) implies k == j by {
                    if k < j {
                        assert(!line_holds(listing@, device@, k));
                    }
                    if j < k {
                        assert(!line_holds(listing@, device@, j));
                    }
                }
            }
            match regex_group(CAMERA_PATTERN, CAMERA_GROUP, line.as_str()) {
                Some(name) => Ok(name),
                None => Err(LaunchError::NoWebcam),
            }
        },
    }
}

impl Emulator {
    /// The emulator's path and profile are those given, or the defaults.
    pub open spec fn made_from(&self, emulator_path: Option<String>, avd: Option<String>) -> bool {
        &&& emulator_path is Some ==> self.emulator_path@ == emulator_path->Some_0@
        &&& emulator_path is None ==> self.emulator_path@ == DEFAULT_EMULATOR_PATH@
        &&& avd is Some ==> self.avd@ == avd->Some_0@
        &&& avd is None ==> self.avd@ == DEFAULT_AVD@
    }

    /// An emulator at `emulator_path` running `avd`, each defaulting where not
    /// given.
    pub fn new(emulator_path: Option<String>, avd: Option<String>) -> (r: Emulator)
        ensures
            r.made_from(emulator_path, avd),
    {
        let emulator_path = match emulator_path {
            Some(p) => p,
            None => String::from_str(DEFAULT_EMULATOR_PATH),
        };
        let avd = match avd {
            Some(a) => a,
            None => String::from_str(DEFAULT_AVD),
        };
        Emulator { emulator_path, avd }
    }

    /// The arguments that make the emulator list its webcams.
    pub fn list_args(&self) -> (r: Vec<String>)
        ensures
            r@.len() == 1,
            r@[0]@ == "-webcam-list"@,
    {
        let mut r: Vec<String> = Vec::new();
        r.push(String::from_str("-webcam-list"));
        r
    }

    /// The arguments that run the profile with `webcam` as the back camera.
    pub fn launch_args(&self, webcam: &str) -> (r: Vec<String>)
        ensures
            r@.len() == 4,
            r@[0]@ == "-avd"@,
            r@[1]@ == self.avd@,
            r@[2]@ == "-camera-back"@,
            r@[3]@ == webcam@,
    {
        let mut r: Vec<String> = Vec::new();
        r.push(String::from_str("-avd"));
        r.push(self.avd.clone());
        r.push(String::from_str("-camera-back"));
        r.push(String::from_str(webcam));
        r
    }
}

} // verus!
