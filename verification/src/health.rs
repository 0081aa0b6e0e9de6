use vstd::prelude::*;
use vstd::string::StringExecFns;

verus! {

/// The line that the health check prints for the program `version`.
pub open spec fn banner_text(version: Seq<char>) -> Seq<char> {
    "MyProgram v"@ + version
}

/// Writes the line that the health check prints for the program `version`.
pub fn health_check_banner(version: &str) -> (banner: String)
    ensures
        banner@ == banner_text(version@),
{
    let mut banner = String::from_str("MyProgram v");
    banner.append(version);
    banner
}

} // verus!
