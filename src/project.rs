//! What the core knows of a project on disk: the layout's names, the rule for
//! project names, and the errors loading or creating a project can end in.
//! Reading and writing the files themselves happens outside the library.

use vstd::prelude::*;
use vstd::string::*;

verus! {

/// Directory of auxiliary script fragments.
pub const DIR_MODULES: &'static str = "modules";

/// Directory of samples.
pub const DIR_SAMPLES: &'static str = "samples";

/// The user's program.
pub const FILE_PROGRAM: &'static str = "program.luau";

/// Why a project could not be created or loaded.
pub enum ProjectError {
    /// The project name is not allowed.
    BadName(String),
    /// A path could not be used; holds the path as `{:?}` prints it.
    BadPath(String),
    /// The template files could not be written.
    BadTemplate,
    /// The project has no program file.
    NoProgram,
}

/// The message for an error.
pub open spec fn error_text(e: ProjectError) -> Seq<char> {
    match e {
        ProjectError::BadName(name) => "Bad name provided \""@ + name@ + "\""@,
        ProjectError::BadPath(path) => "Failed to use path "@ + path@,
        ProjectError::BadTemplate => "Error occured while creating template"@,
        ProjectError::NoProgram => "Missing program.luau"@,
    }
}

impl ProjectError {
    /// The message for this error.
    pub fn to_string(&self) -> (r: String)
        ensures
            r@ == error_text(*self),
    {
        match self {
            ProjectError::BadName(name) => {
                let mut r = String::from_str("Bad name provided \"");
                r.append(name.as_str());
                r.append("\"");
                r
            },
            ProjectError::BadPath(path) => {
                let mut r = String::from_str("Failed to use path ");
                r.append(path.as_str());
                r
            },
            ProjectError::BadTemplate => String::from_str("Error occured while creating template"),
            ProjectError::NoProgram => String::from_str("Missing program.luau"),
        }
    }
}

/// Whether `char::is_alphanumeric` holds of the character.
pub uninterp spec fn alphanumeric(c: char) -> bool;

/// Relies on `char::is_alphanumeric`: Unicode's alphabetic or numeric property.
#[verifier::external_body]
fn is_alphanumeric(c: char) -> (r: bool)
    ensures
        r == alphanumeric(c),
        ('a' <= c <= 'z' || 'A' <= c <= 'Z' || '0' <= c <= '9') ==> r,
{
    c.is_alphanumeric()
}

/// A project name may hold letters, digits, `_` and `-`, and nothing else.
pub open spec fn name_allowed(name: Seq<char>) -> bool {
    forall|i: int|
        0 <= i < name.len() ==> alphanumeric(#[trigger] name[i]) || name[i] == '_' || name[i] == '-'
}

/// Whether a project may be called `name`.
pub fn valid_name(name: &str) -> (r: bool)
    ensures
        r == name_allowed(name@),
{
    let n = name.unicode_len();
    let mut i: usize = 0;
    while i < n
        invariant
            n == name@.len(),
            i <= n,
            forall|j: int|
                0 <= j < i ==> alphanumeric(#[trigger] name@[j]) || name@[j] == '_' || name@[j] == '-',
        decreases n - i,
    {
        let c = name.get_char(i);
        if !(is_alphanumeric(c) || c == '_' || c == '-') {
            return false;
        }
        i = i + 1;
    }
    true
}

} // verus!
