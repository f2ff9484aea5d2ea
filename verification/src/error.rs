use vstd::prelude::*;

verus! {

/// All possible error kinds.
#[derive(Debug, Clone, Copy, PartialEq, Eq, Structural)]
pub enum ErrorKind {
    /// Service error.
    Service,
    /// Not found address.
    NotFoundAddress,
    /// Serialize/Deserialize error.
    Serialization,
    /// An `Ascot` library error.
    AscotLibrary,
    /// Light error.
    Light,
    /// Fridge error.
    Fridge,
    /// External error.
    ///
    /// An error caused by an external dependency.
    External,
}

/// The description of an error kind.
pub open spec fn kind_description(kind: ErrorKind) -> Seq<char> {
    match kind {
        ErrorKind::Service => "Service"@,
        ErrorKind::NotFoundAddress => "Not Found Address"@,
        ErrorKind::Serialization => "Serialization"@,
        ErrorKind::AscotLibrary => "Ascot Library"@,
        ErrorKind::Light => "Light"@,
        ErrorKind::Fridge => "Fridge"@,
        ErrorKind::External => "External"@,
    }
}

impl ErrorKind {
    /// Returns the description of the error kind.
    pub fn description(self) -> (r: &'static str)
        ensures
            r@ == kind_description(self),
    {
        match self {
            ErrorKind::Service => "Service",
            ErrorKind::NotFoundAddress => "Not Found Address",
            ErrorKind::Serialization => "Serialization",
            ErrorKind::AscotLibrary => "Ascot Library",
            ErrorKind::Light => "Light",
            ErrorKind::Fridge => "Fridge",
            ErrorKind::External => "External",
        }
    }

    /// Returns the text that displays the error kind.
    pub fn to_text(self) -> (r: String)
        ensures
            r@ == "Error kind: "@ + kind_description(self),
    {
        let mut s = String::from_str("Error kind: ");
        s.append(self.description());
        s
    }
}

/// Library error.
#[derive(Debug)]
pub struct Error {
    kind: ErrorKind,
    info: String,
}

/// The text that displays an error of kind `kind` with information `info`.
pub open spec fn error_text(kind: ErrorKind, info: Seq<char>) -> Seq<char> {
    "Error kind: "@ + kind_description(kind) + "\n"@ + "Cause: "@ + info
}

impl Error {
    /// Creates an [`Error`] passing a specific [`ErrorKind`] and a
    /// description.
    pub fn new(kind: ErrorKind, info: &str) -> (r: Self)
        ensures
            r.kind() == kind,
            r.info()@ == info@,
    {
        Error { kind, info: String::from_str(info) }
    }

    /// Creates an [`Error`] for [`ErrorKind::External`] passing a specific
    /// description.
    pub fn external(info: &str) -> (r: Self)
        ensures
            r.kind() == ErrorKind::External,
            r.info()@ == info@,
    {
        Self::new(ErrorKind::External, info)
    }

    /// The kind of the error.
    pub closed spec fn kind(&self) -> ErrorKind {
        self.kind
    }

    /// The information about the error.
    pub closed spec fn info(&self) -> String {
        self.info
    }

    /// Returns the kind of the error.
    pub fn get_kind(&self) -> (r: ErrorKind)
        ensures
            r == self.kind(),
    {
        self.kind
    }

    /// Returns the information about the error.
    pub fn get_info(&self) -> (r: &str)
        ensures
            r@ == self.info()@,
    {
        self.info.as_str()
    }

    /// Returns the text that displays the error: its kind on a first line,
    /// its cause on a second one.
    pub fn format(&self) -> (r: String)
        ensures
            r@ == error_text(self.kind(), self.info()@),
    {
        let mut s = self.kind.to_text();
        s.append("\n");
        s.append("Cause: ");
        s.append(self.info.as_str());
        s
    }
}

}
