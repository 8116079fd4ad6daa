use vstd::prelude::*;

verus! {

/// Why a graph could not be loaded or mutated. Each error names its subject:
/// a role key, a node id, a class name or a section of the catalog.
#[derive(Debug)]
pub enum AppError {
    /// The graph is malformed: a node's class name is unknown.
    Parse(String),
    /// No node has this role key or id.
    NotFound(String),
    /// The node with this role key has another shape than the step expects.
    ShapeMismatch(String),
    /// Two nodes have this role key.
    DuplicateRole(String),
    /// The catalog lacks this entry, which an enabled feature needs.
    MissingConfig(String),
}

pub type AppResult<T> = Result<T, AppError>;

impl AppError {
    /// What the error is about.
    pub open spec fn subject(&self) -> Seq<char> {
        match self {
            AppError::Parse(s) => s@,
            AppError::NotFound(s) => s@,
            AppError::ShapeMismatch(s) => s@,
            AppError::DuplicateRole(s) => s@,
            AppError::MissingConfig(s) => s@,
        }
    }

    pub open spec fn is_parse(&self, subject: Seq<char>) -> bool {
        self is Parse && self.subject() == subject
    }

    pub open spec fn is_not_found(&self, subject: Seq<char>) -> bool {
        self is NotFound && self.subject() == subject
    }

    pub open spec fn is_shape_mismatch(&self, subject: Seq<char>) -> bool {
        self is ShapeMismatch && self.subject() == subject
    }

    pub open spec fn is_duplicate_role(&self, subject: Seq<char>) -> bool {
        self is DuplicateRole && self.subject() == subject
    }

    pub open spec fn is_missing_config(&self, subject: Seq<char>) -> bool {
        self is MissingConfig && self.subject() == subject
    }

    /// The error in words: its kind, a colon and its subject.
    pub fn message(&self) -> (r: String)
        ensures
            r@ == (match self {
                AppError::Parse(_) => "parse error: "@,
                AppError::NotFound(_) => "not found: "@,
                AppError::ShapeMismatch(_) => "shape mismatch: "@,
                AppError::DuplicateRole(_) => "duplicate role: "@,
                AppError::MissingConfig(_) => "missing config: "@,
            }) + self.subject(),
    {
        match self {
            AppError::Parse(s) => String::from_str("parse error: ").concat(s.as_str()),
            AppError::NotFound(s) => String::from_str("not found: ").concat(s.as_str()),
            AppError::ShapeMismatch(s) => String::from_str("shape mismatch: ").concat(s.as_str()),
            AppError::DuplicateRole(s) => String::from_str("duplicate role: ").concat(s.as_str()),
            AppError::MissingConfig(s) => String::from_str("missing config: ").concat(s.as_str()),
        }
    }
}

} // verus!
