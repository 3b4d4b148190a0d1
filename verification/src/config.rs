//! The configuration record and the check that it is fit for use.

use crate::time::duration_nanos;
use std::time::Duration;
use vstd::prelude::*;

verus! {

/// A custom HTTP header that is sent with every request.
#[derive(Debug, Clone, PartialEq, Eq)]
pub struct AdditionalRequestHeader {
    pub name: String,
    pub value: String,
}

impl AdditionalRequestHeader {
    /// The header as a pair of texts: its name, then its value.
    pub open spec fn pair(self) -> (Seq<char>, Seq<char>) {
        (self.name@, self.value@)
    }

    /// A copy of the header, with the same name and the same value.
    pub fn duplicate(&self) -> (copy: AdditionalRequestHeader)
        ensures
            copy == *self,
            copy.pair() == self.pair(),
    {
        AdditionalRequestHeader { name: self.name.clone(), value: self.value.clone() }
    }
}

/// The headers of a list, each as a pair of texts, in the order of the list.
pub open spec fn header_pairs(headers: Seq<AdditionalRequestHeader>) -> Seq<
    (Seq<char>, Seq<char>),
> {
    Seq::new(headers.len(), |i: int| headers[i].pair())
}

/// The monitor's settings.
#[derive(Debug, PartialEq, Eq)]
pub struct Configuration {
    /// Path to the file that lists the target URLs, one per line.
    pub targets_path: String,
    /// The pause between two requests of one scan.
    pub request_interval: Duration,
    /// The least time between the starts of two scans.
    pub scan_interval: Duration,
    /// Custom HTTP headers, sent with every request in this order.
    pub custom_headers: Vec<AdditionalRequestHeader>,
}

/// What was observed of the target list's file when the configuration is
/// checked.
#[derive(Debug, PartialEq, Eq)]
pub struct TargetFileStatus {
    /// Whether anything exists at the path.
    pub exists: bool,
    /// Whether it is a regular file.
    pub is_file: bool,
    /// The file's permission bits, or why its metadata could not be read.
    pub mode: Result<u32, String>,
}

/// The permission bits that let somebody read a file: owner, group or others.
pub const READ_BITS: u32 = 0o444;

/// The complaint about a configuration, if there is one: the first that
/// applies, in the order in which the checks are made.
pub open spec fn complaint(config: Configuration, file: TargetFileStatus) -> Option<Seq<char>> {
    if !file.exists {
        Some("The specified file does not exist: "@ + config.targets_path@)
    } else if !file.is_file {
        Some("Not a file: "@ + config.targets_path@)
    } else if file.mode is Err {
        Some("Failed to retrieve metadata of configuration file: "@ + file.mode->Err_0@)
    } else if (file.mode->Ok_0 & READ_BITS) == 0 {
        Some("File is not readable: "@ + config.targets_path@)
    } else if duration_nanos(config.scan_interval) <= duration_nanos(config.request_interval) {
        Some("Scan interval must be greater than request interval"@)
    } else {
        None
    }
}

/// The text `prefix` followed by `rest`.
fn labelled(prefix: &str, rest: &str) -> (text: String)
    ensures
        text@ == prefix@ + rest@,
{
    let mut text = String::from_str(prefix);
    text.append(rest);
    text
}

impl Configuration {
    /// Checks the configuration against what was observed of the target
    /// list's file: the file must exist, be a regular file and be readable by
    /// somebody, and the scan interval must be longer than the request
    /// interval. The error is the complaint about the first check that fails.
    pub fn is_valid(&self, file: &TargetFileStatus) -> (verdict: Result<(), String>)
        ensures
            match verdict {
                Ok(()) => complaint(*self, *file) is None,
                Err(text) => complaint(*self, *file) == Some(text@),
            },
    {
        if !file.exists {
            return Err(labelled("The specified file does not exist: ", self.targets_path.as_str()));
        }
        if !file.is_file {
            return Err(labelled("Not a file: ", self.targets_path.as_str()));
        }
        let mode: u32 = match &file.mode {
            Ok(mode) => *mode,
            Err(reason) => {
                return Err(
                    labelled(
                        "Failed to retrieve metadata of configuration file: ",
                        reason.as_str(),
                    ),
                );
            },
        };
        if mode & READ_BITS == 0 {
            return Err(labelled("File is not readable: ", self.targets_path.as_str()));
        }
        if self.scan_interval.as_nanos() <= self.request_interval.as_nanos() {
            return Err(String::from_str("Scan interval must be greater than request interval"));
        }
        Ok(())
    }
}

} // verus!
