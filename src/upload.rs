use vstd::prelude::*;
use crate::manifest::{is_jar, is_jar_name};

verus! {

/// An uploaded mod file, as far as the checks on it go: the file name the
/// client gave, if any.
pub struct ModUpload {
    pub file_name: Option<String>,
}

/// Why an uploaded file is refused.
#[derive(Clone, Copy, PartialEq, Eq, Structural)]
pub enum ValidationError {
    /// The upload carries no file name.
    MissingName,
    /// The file name has no usable last component.
    InvalidName,
    /// The file is not a `.jar` file.
    NotJar,
}

/// The message of each validation error.
pub open spec fn validation_error_text(e: ValidationError) -> Seq<char> {
    match e {
        ValidationError::MissingName => "File is missing a filename."@,
        ValidationError::InvalidName => "Filename is empty or invalid."@,
        ValidationError::NotJar => "Invalid file type. Only .jar files are allowed."@,
    }
}

impl ValidationError {
    /// The message shown for this error.
    pub fn message(&self) -> (r: &'static str)
        ensures
            r@ == validation_error_text(*self),
    {
        match self {
            ValidationError::MissingName => "File is missing a filename.",
            ValidationError::InvalidName => "Filename is empty or invalid.",
            ValidationError::NotJar => "Invalid file type. Only .jar files are allowed.",
        }
    }
}

/// What `std::path::Path::file_name` gives for a path: its last component,
/// if it has one.
pub uninterp spec fn file_name_of(path: Seq<char>) -> Option<Seq<char>>;

/// Relies on `std::path::Path::file_name`: the last component of a path,
/// which is never empty, holds no `/`, and is a piece of the path.
#[verifier::external_body]
fn last_path_component(path: &str) -> (r: Option<String>)
    ensures
        match r {
            Some(n) => file_name_of(path@) == Some(n@),
            None => file_name_of(path@) is None,
        },
        r matches Some(n) ==> {
            &&& n@.len() > 0
            &&& !n@.contains('/')
            &&& exists|a: int, b: int| 0 <= a <= b <= path@.len() && n@ == path@.subrange(a, b)
        },
{
    std::path::Path::new(path).file_name().and_then(|n| n.to_str()).map(|n| n.to_string())
}

/// The stored name of an upload, from the last component of its file name:
/// refused where there is none or it is empty, or where it is not a `.jar` file.
pub fn check_upload_name(component: Option<String>) -> (r: Result<String, ValidationError>)
    ensures
        match component {
            None => r == Err::<String, ValidationError>(ValidationError::InvalidName),
            Some(n) => if n@.len() == 0 {
                r == Err::<String, ValidationError>(ValidationError::InvalidName)
            } else if !is_jar(n@) {
                r == Err::<String, ValidationError>(ValidationError::NotJar)
            } else {
                r matches Ok(s) && s@ == n@
            },
        },
{
    match component {
        None => Err(ValidationError::InvalidName),
        Some(n) => {
            if n.unicode_len() == 0 {
                Err(ValidationError::InvalidName)
            } else if !is_jar_name(n.as_str()) {
                Err(ValidationError::NotJar)
            } else {
                Ok(n)
            }
        },
    }
}

impl ModUpload {
    /// The name under which the upload is stored: the last component of
    /// the given file name, which must be a `.jar` file.
    pub fn validated_name(&self) -> (r: Result<String, ValidationError>)
        ensures
            self.file_name is None ==> r == Err::<String, ValidationError>(
                ValidationError::MissingName,
            ),
            r matches Ok(n) ==> {
                &&& is_jar(n@)
                &&& !n@.contains('/')
                &&& self.file_name matches Some(f) && exists|a: int, b: int|
                    0 <= a <= b <= f@.len() && n@ == f@.subrange(a, b)
            },
            r matches Err(e) ==> e == ValidationError::MissingName ==> self.file_name is None,
            self.file_name matches Some(f) ==> match file_name_of(f@) {
                None => r == Err::<String, ValidationError>(ValidationError::InvalidName),
                Some(n) => if n.len() == 0 {
                    r == Err::<String, ValidationError>(ValidationError::InvalidName)
                } else if !is_jar(n) {
                    r == Err::<String, ValidationError>(ValidationError::NotJar)
                } else {
                    r matches Ok(s) && s@ == n
                },
            },
    {
        match &self.file_name {
            None => Err(ValidationError::MissingName),
            Some(f) => check_upload_name(last_path_component(f.as_str())),
        }
    }
}

} // verus!
