use vstd::prelude::*;
use vstd::string::StringExecFns;

verus! {

/// Settings of the host loop and of the data source.
pub struct Settings {
    /// How long the host waits for a key press before drawing again.
    pub poll_duration_ms: u64,
    /// Bucket the records may be fetched from.
    pub aws_bucket: String,
}

impl Settings {
    pub fn default() -> (r: Settings)
        ensures
            r.poll_duration_ms == 100,
            r.aws_bucket@ == "rusty-resume-s3-bucket"@,
    {
        Settings { poll_duration_ms: 100, aws_bucket: String::from_str("rusty-resume-s3-bucket") }
    }
}

} // verus!
