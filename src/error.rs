use vstd::prelude::*;

verus! {

#[verifier::external_type_specification]
#[verifier::external_body]
pub struct ExParseError(url::ParseError);

/// Why creating or removing a space failed.
#[derive(Debug)]
pub enum CustomError {
    /// A filesystem operation or a process invocation could not complete.
    Io(String),
    /// The repository location is not a URL.
    Parse(url::ParseError),
    /// The repository URL cannot carry a username and a password.
    Credentials,
    /// The version-control tool exited with a failure that is not tolerated.
    Tool(String),
}

/// Relies on the `Display` impl of `url::ParseError`: its human-readable text.
#[verifier::external_body]
fn parse_error_text(e: &url::ParseError) -> (r: String) {
    e.to_string()
}

impl CustomError {
    /// The text printed for this failure.
    pub fn describe(&self) -> (r: String)
        ensures
            self matches CustomError::Io(m) ==> r@ == "IO error: "@ + m@,
            self matches CustomError::Parse(_) ==> r@.len() >= "Parse error: "@.len()
                && r@.subrange(0, "Parse error: "@.len() as int) == "Parse error: "@,
            self is Credentials ==> r@ == "Parse error: cannot set credentials on this URL"@,
            self matches CustomError::Tool(m) ==> r@ == "Tool error: "@ + m@,
    {
        match self {
            CustomError::Io(m) => String::from_str("IO error: ").concat(m.as_str()),
            CustomError::Parse(e) => {
                let t = parse_error_text(e);
                let r = String::from_str("Parse error: ").concat(t.as_str());
                assert(r@.subrange(0, "Parse error: "@.len() as int) =~= "Parse error: "@);
                r
            },
            CustomError::Credentials => String::from_str(
                "Parse error: cannot set credentials on this URL",
            ),
            CustomError::Tool(m) => String::from_str("Tool error: ").concat(m.as_str()),
        }
    }
}

} // verus!
