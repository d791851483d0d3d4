//! Errors one may encounter when using this library.

use vstd::prelude::*;
use vstd::string::*;

verus! {

/// What a file is read as.
#[derive(Debug, Clone, Copy, PartialEq, Eq, Structural)]
pub enum FileRole {
    Surface,
    Curvature,
    Label,
    Annotation,
}

/// Error type for all error variants originated by this crate.
#[derive(Debug, Clone, PartialEq, Eq)]
pub enum BrainviewError {
    /// Configuration: the text names none of the display kinds.
    StringNotFsDisplayable { given: String },
    /// Configuration: a vertex matches no region, and the region for
    /// unmatched vertices is not in the colour table.
    RegionIndexOutOfRange { index: usize },
    /// A file that has to be read does not exist.
    FileNotFound { path: String, role: FileRole },
    /// A decoder could not read a file; the text is the decoder's own.
    Decode { detail: String },
    /// The colours or the per-vertex data do not fit the surface.
    ShapeMismatch,
    /// A binary view of a label was asked for, and the label is not binary.
    LabelNotBinary,
    /// There is no value to take a range of.
    DegenerateRange,
    /// A scene needs at least one mesh.
    EmptyScene,
}

/// Alias type for results originated from this crate.
pub type Result<T> = ::std::result::Result<T, BrainviewError>;

impl FileRole {
    /// The word for the role in a message.
    pub open spec fn spec_name(self) -> Seq<char> {
        match self {
            FileRole::Surface => "surface"@,
            FileRole::Curvature => "curvature"@,
            FileRole::Label => "label"@,
            FileRole::Annotation => "annotation"@,
        }
    }

    /// The word for the role in a message.
    pub fn name(&self) -> (name: &'static str)
        ensures
            name@ == self.spec_name(),
    {
        match self {
            FileRole::Surface => "surface",
            FileRole::Curvature => "curvature",
            FileRole::Label => "label",
            FileRole::Annotation => "annotation",
        }
    }
}

impl BrainviewError {
    /// The text that tells a user what went wrong. It names the file and its
    /// role where a file is missing, and the text given where a display kind
    /// was expected.
    pub open spec fn spec_message(&self) -> Seq<char> {
        match self {
            BrainviewError::StringNotFsDisplayable { given } => "Not a display kind: '"@ + given@
                + "'."@,
            BrainviewError::RegionIndexOutOfRange { .. } =>
                "The region for unmatched vertices is not in the colour table."@,
            BrainviewError::FileNotFound { path, role } => "Cannot read fs "@ + role.spec_name()
                + " file '"@ + path@ + "'."@,
            BrainviewError::Decode { detail } => "Cannot decode file: "@ + detail@,
            BrainviewError::ShapeMismatch =>
                "The number of colours does not fit the number of vertices."@,
            BrainviewError::LabelNotBinary =>
                "Label not binary, but binary data view requested."@,
            BrainviewError::DegenerateRange => "No value to take a range of."@,
            BrainviewError::EmptyScene => "Mesh list must not be empty."@,
        }
    }

    /// The text that tells a user what went wrong.
    pub fn message(&self) -> (text: String)
        ensures
            text@ == self.spec_message(),
    {
        match self {
            BrainviewError::StringNotFsDisplayable { given } => {
                let mut text = "Not a display kind: '".to_owned();
                text.append(given.as_str());
                text.append("'.");
                text
            },
            BrainviewError::RegionIndexOutOfRange { .. } => {
                "The region for unmatched vertices is not in the colour table.".to_owned()
            },
            BrainviewError::FileNotFound { path, role } => {
                let mut text = "Cannot read fs ".to_owned();
                text.append(role.name());
                text.append(" file '");
                text.append(path.as_str());
                text.append("'.");
                text
            },
            BrainviewError::Decode { detail } => {
                let mut text = "Cannot decode file: ".to_owned();
                text.append(detail.as_str());
                text
            },
            BrainviewError::ShapeMismatch => {
                "The number of colours does not fit the number of vertices.".to_owned()
            },
            BrainviewError::LabelNotBinary => {
                "Label not binary, but binary data view requested.".to_owned()
            },
            BrainviewError::DegenerateRange => "No value to take a range of.".to_owned(),
            BrainviewError::EmptyScene => "Mesh list must not be empty.".to_owned(),
        }
    }
}

} // verus!
