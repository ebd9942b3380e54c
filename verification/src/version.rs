//! The versions of the libraries that the application is built on.

use crate::text::followed_by;
use vstd::prelude::*;
use vstd::string::StringExecFns;

verus! {

/// The line that names the libraries with their versions.
pub open spec fn tech_stack_text(ratzilla: Seq<char>, ratatui: Seq<char>, axum: Seq<char>) -> Seq<
    char,
> {
    "Ratzilla v"@ + ratzilla + " | Ratatui v"@ + ratatui + " | Axum v"@ + axum
}

/// The line that names the libraries with their versions.
pub fn tech_stack_info(ratzilla: &str, ratatui: &str, axum: &str) -> (text: String)
    ensures
        text@ == tech_stack_text(ratzilla@, ratatui@, axum@),
{
    let mut text = followed_by("Ratzilla v", ratzilla);
    text.append(" | Ratatui v");
    text.append(ratatui);
    text.append(" | Axum v");
    text.append(axum);
    text
}

} // verus!
