use vstd::prelude::*;

verus! {

/// Number of named error codes of the object-file library; codes from this
/// value on are not recognised.
pub const NAMED_ERROR_CODES: u32 = 21;

/// A reason reported by the object-file library through its error slot.
#[derive(Clone, Copy, Debug, PartialEq, Eq, Structural)]
pub enum BfdErrorType {
    NoError,
    SystemCall,
    InvalidTarget,
    WrongFormat,
    WrongObjectFormat,
    InvalidOperation,
    NoMemory,
    NoSymbols,
    NoArmap,
    NoMoreArchivedFiles,
    MalformedArchive,
    MissingDso,
    FileNotRecognized,
    FileAmbiguouslyRecognized,
    NoContents,
    NonrepresentableSection,
    NoDebugSection,
    BadValue,
    FileTruncated,
    FileTooBig,
    OnInput,
    /// A code outside the named set, kept as reported.
    Unknown(u32),
}

/// The reason that a raw error code names.
pub open spec fn error_type_of(code: u32) -> BfdErrorType {
    if code == 0 {
        BfdErrorType::NoError
    } else if code == 1 {
        BfdErrorType::SystemCall
    } else if code == 2 {
        BfdErrorType::InvalidTarget
    } else if code == 3 {
        BfdErrorType::WrongFormat
    } else if code == 4 {
        BfdErrorType::WrongObjectFormat
    } else if code == 5 {
        BfdErrorType::InvalidOperation
    } else if code == 6 {
        BfdErrorType::NoMemory
    } else if code == 7 {
        BfdErrorType::NoSymbols
    } else if code == 8 {
        BfdErrorType::NoArmap
    } else if code == 9 {
        BfdErrorType::NoMoreArchivedFiles
    } else if code == 10 {
        BfdErrorType::MalformedArchive
    } else if code == 11 {
        BfdErrorType::MissingDso
    } else if code == 12 {
        BfdErrorType::FileNotRecognized
    } else if code == 13 {
        BfdErrorType::FileAmbiguouslyRecognized
    } else if code == 14 {
        BfdErrorType::NoContents
    } else if code == 15 {
        BfdErrorType::NonrepresentableSection
    } else if code == 16 {
        BfdErrorType::NoDebugSection
    } else if code == 17 {
        BfdErrorType::BadValue
    } else if code == 18 {
        BfdErrorType::FileTruncated
    } else if code == 19 {
        BfdErrorType::FileTooBig
    } else if code == 20 {
        BfdErrorType::OnInput
    } else {
        BfdErrorType::Unknown(code)
    }
}

/// The raw code of a reason.
pub open spec fn code_of(t: BfdErrorType) -> u32 {
    match t {
        BfdErrorType::NoError => 0,
        BfdErrorType::SystemCall => 1,
        BfdErrorType::InvalidTarget => 2,
        BfdErrorType::WrongFormat => 3,
        BfdErrorType::WrongObjectFormat => 4,
        BfdErrorType::InvalidOperation => 5,
        BfdErrorType::NoMemory => 6,
        BfdErrorType::NoSymbols => 7,
        BfdErrorType::NoArmap => 8,
        BfdErrorType::NoMoreArchivedFiles => 9,
        BfdErrorType::MalformedArchive => 10,
        BfdErrorType::MissingDso => 11,
        BfdErrorType::FileNotRecognized => 12,
        BfdErrorType::FileAmbiguouslyRecognized => 13,
        BfdErrorType::NoContents => 14,
        BfdErrorType::NonrepresentableSection => 15,
        BfdErrorType::NoDebugSection => 16,
        BfdErrorType::BadValue => 17,
        BfdErrorType::FileTruncated => 18,
        BfdErrorType::FileTooBig => 19,
        BfdErrorType::OnInput => 20,
        BfdErrorType::Unknown(c) => c,
    }
}

/// The short description of a reason.
pub open spec fn description_of(t: BfdErrorType) -> Seq<char> {
    match t {
        BfdErrorType::NoError => "No error"@,
        BfdErrorType::SystemCall => "System call"@,
        BfdErrorType::InvalidTarget => "Invalid target"@,
        BfdErrorType::WrongFormat => "Wrong format"@,
        BfdErrorType::WrongObjectFormat => "Wrong object format"@,
        BfdErrorType::InvalidOperation => "Invalid operation"@,
        BfdErrorType::NoMemory => "No memory"@,
        BfdErrorType::NoSymbols => "No symbols"@,
        BfdErrorType::NoArmap => "No armap"@,
        BfdErrorType::NoMoreArchivedFiles => "No more archived files"@,
        BfdErrorType::MalformedArchive => "Malformed archive"@,
        BfdErrorType::MissingDso => "Missing dso"@,
        BfdErrorType::FileNotRecognized => "File not recognized"@,
        BfdErrorType::FileAmbiguouslyRecognized => "File ambiguously recognized"@,
        BfdErrorType::NoContents => "No contents"@,
        BfdErrorType::NonrepresentableSection => "Nonrepresentable section"@,
        BfdErrorType::NoDebugSection => "No debug section"@,
        BfdErrorType::BadValue => "Bad value"@,
        BfdErrorType::FileTruncated => "File truncated"@,
        BfdErrorType::FileTooBig => "File too big"@,
        BfdErrorType::OnInput => "On input"@,
        BfdErrorType::Unknown(_) => "#<Invalid error code>"@,
    }
}

impl BfdErrorType {
    /// Maps a raw error code of the library to its reason.
    pub fn from_code(code: u32) -> (r: BfdErrorType)
        ensures
            r == error_type_of(code),
    {
        match code {
            0 => BfdErrorType::NoError,
            1 => BfdErrorType::SystemCall,
            2 => BfdErrorType::InvalidTarget,
            3 => BfdErrorType::WrongFormat,
            4 => BfdErrorType::WrongObjectFormat,
            5 => BfdErrorType::InvalidOperation,
            6 => BfdErrorType::NoMemory,
            7 => BfdErrorType::NoSymbols,
            8 => BfdErrorType::NoArmap,
            9 => BfdErrorType::NoMoreArchivedFiles,
            10 => BfdErrorType::MalformedArchive,
            11 => BfdErrorType::MissingDso,
            12 => BfdErrorType::FileNotRecognized,
            13 => BfdErrorType::FileAmbiguouslyRecognized,
            14 => BfdErrorType::NoContents,
            15 => BfdErrorType::NonrepresentableSection,
            16 => BfdErrorType::NoDebugSection,
            17 => BfdErrorType::BadValue,
            18 => BfdErrorType::FileTruncated,
            19 => BfdErrorType::FileTooBig,
            20 => BfdErrorType::OnInput,
            _ => BfdErrorType::Unknown(code),
        }
    }

    /// The raw code of this reason, as the library numbers it.
    pub fn code(&self) -> (r: u32)
        ensures
            r == code_of(*self),
    {
        match *self {
            BfdErrorType::NoError => 0,
            BfdErrorType::SystemCall => 1,
            BfdErrorType::InvalidTarget => 2,
            BfdErrorType::WrongFormat => 3,
            BfdErrorType::WrongObjectFormat => 4,
            BfdErrorType::InvalidOperation => 5,
            BfdErrorType::NoMemory => 6,
            BfdErrorType::NoSymbols => 7,
            BfdErrorType::NoArmap => 8,
            BfdErrorType::NoMoreArchivedFiles => 9,
            BfdErrorType::MalformedArchive => 10,
            BfdErrorType::MissingDso => 11,
            BfdErrorType::FileNotRecognized => 12,
            BfdErrorType::FileAmbiguouslyRecognized => 13,
            BfdErrorType::NoContents => 14,
            BfdErrorType::NonrepresentableSection => 15,
            BfdErrorType::NoDebugSection => 16,
            BfdErrorType::BadValue => 17,
            BfdErrorType::FileTruncated => 18,
            BfdErrorType::FileTooBig => 19,
            BfdErrorType::OnInput => 20,
            BfdErrorType::Unknown(c) => c,
        }
    }

    /// A short description of the reason.
    pub fn description(&self) -> (r: &'static str)
        ensures
            r@ == description_of(*self),
    {
        match *self {
            BfdErrorType::NoError => "No error",
            BfdErrorType::SystemCall => "System call",
            BfdErrorType::InvalidTarget => "Invalid target",
            BfdErrorType::WrongFormat => "Wrong format",
            BfdErrorType::WrongObjectFormat => "Wrong object format",
            BfdErrorType::InvalidOperation => "Invalid operation",
            BfdErrorType::NoMemory => "No memory",
            BfdErrorType::NoSymbols => "No symbols",
            BfdErrorType::NoArmap => "No armap",
            BfdErrorType::NoMoreArchivedFiles => "No more archived files",
            BfdErrorType::MalformedArchive => "Malformed archive",
            BfdErrorType::MissingDso => "Missing dso",
            BfdErrorType::FileNotRecognized => "File not recognized",
            BfdErrorType::FileAmbiguouslyRecognized => "File ambiguously recognized",
            BfdErrorType::NoContents => "No contents",
            BfdErrorType::NonrepresentableSection => "Nonrepresentable section",
            BfdErrorType::NoDebugSection => "No debug section",
            BfdErrorType::BadValue => "Bad value",
            BfdErrorType::FileTruncated => "File truncated",
            BfdErrorType::FileTooBig => "File too big",
            BfdErrorType::OnInput => "On input",
            BfdErrorType::Unknown(_) => "#<Invalid error code>",
        }
    }
}

/// An error of the library: an operating-system failure on the path, or a
/// reason reported by the object-file library.
#[derive(Clone, Copy, Debug, PartialEq, Eq, Structural)]
pub enum BfdError {
    /// The operating system's error number.
    Io(i32),
    Bfd(BfdErrorType),
}

/// The error that a failed library call stands for: a failed system call is
/// reported with the operating system's error number, any other code as the
/// library's reason.
pub open spec fn error_of_codes(code: u32, os_error: i32) -> BfdError {
    if error_type_of(code) == BfdErrorType::SystemCall {
        BfdError::Io(os_error)
    } else {
        BfdError::Bfd(error_type_of(code))
    }
}

impl BfdError {
    /// The error for a code read from the library's error slot.
    pub fn last_bfd_error(code: u32) -> (r: BfdError)
        ensures
            r == BfdError::Bfd(error_type_of(code)),
    {
        BfdError::Bfd(BfdErrorType::from_code(code))
    }

    /// The error for a code read from the library's error slot together with
    /// the operating system's error number read at the same moment.
    pub fn from_codes(code: u32, os_error: i32) -> (r: BfdError)
        ensures
            r == error_of_codes(code, os_error),
    {
        let t = BfdErrorType::from_code(code);
        match t {
            BfdErrorType::SystemCall => BfdError::Io(os_error),
            _ => BfdError::Bfd(t),
        }
    }

    /// Whether the error comes from the environment (the path could not be
    /// opened or read) rather than from the file's contents.
    pub fn is_io(&self) -> (r: bool)
        ensures
            r == (*self is Io),
    {
        match *self {
            BfdError::Io(_) => true,
            BfdError::Bfd(_) => false,
        }
    }
}

/// Reading a code back from its reason gives the code again.
pub proof fn lemma_code_round_trip(code: u32)
    ensures
        code_of(error_type_of(code)) == code,
{
}

/// A named reason, or an unknown one holding an unrecognised code, is found
/// again from its code.
pub proof fn lemma_reason_round_trip(t: BfdErrorType)
    requires
        t matches BfdErrorType::Unknown(c) ==> c >= NAMED_ERROR_CODES,
    ensures
        error_type_of(code_of(t)) == t,
{
}

} // verus!
