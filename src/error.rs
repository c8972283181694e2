use vstd::prelude::*;
use vstd::string::*;

verus! {

/// Failures reported by the windowing system.
#[derive(Clone, Debug, PartialEq, Eq)]
pub enum SystemError {
    SystemClassCreation,
    WindowCreationFail,
    UiCreation,
    FontCreation,
    ImageCreation,
    TreeItemCreation,
    ComInstanceCreation(String),
    ComError(String),
}

/// Failures of the toolkit.
#[derive(Clone, Debug, PartialEq, Eq)]
pub enum Error {
    KeyExists,
    KeyNotFound,
    BadType,
    BadUi(String),
    BadParent(String),
    BadResource(String),
    BorrowError,
    ControlRequired,
    ControlOrResourceRequired,
    ControlInUse,
    ResourceInUse,
    Unimplemented,
    /// A platform failure, with the platform's error code and its description
    /// as they stood when the failure happened.
    System(SystemError, u32, String),
    UserError(String),
}

/// The decimal digit `d`.
pub open spec fn digit_text(d: nat) -> Seq<char> {
    if d == 0 { "0"@ }
    else if d == 1 { "1"@ }
    else if d == 2 { "2"@ }
    else if d == 3 { "3"@ }
    else if d == 4 { "4"@ }
    else if d == 5 { "5"@ }
    else if d == 6 { "6"@ }
    else if d == 7 { "7"@ }
    else if d == 8 { "8"@ }
    else { "9"@ }
}

/// `n` written in decimal, without leading zeros.
pub open spec fn decimal_text(n: nat) -> Seq<char>
    decreases n,
{
    if n < 10 { digit_text(n) } else { decimal_text(n / 10) + digit_text(n % 10) }
}

fn digit_str(d: u32) -> (r: &'static str)
    requires
        d < 10,
    ensures
        r@ == digit_text(d as nat),
{
    if d == 0 { "0" }
    else if d == 1 { "1" }
    else if d == 2 { "2" }
    else if d == 3 { "3" }
    else if d == 4 { "4" }
    else if d == 5 { "5" }
    else if d == 6 { "6" }
    else if d == 7 { "7" }
    else if d == 8 { "8" }
    else { "9" }
}

fn decimal(n: u32) -> (r: String)
    ensures
        r@ == decimal_text(n as nat),
    decreases n,
{
    if n < 10 {
        String::from_str(digit_str(n))
    } else {
        let mut s = decimal(n / 10);
        s.append(digit_str(n % 10));
        s
    }
}

/// `a` followed by `b`.
fn joined(a: &str, b: &str) -> (r: String)
    ensures
        r@ == a@ + b@,
{
    let mut s = String::from_str(a);
    s.append(b);
    s
}

pub open spec fn system_description(e: SystemError) -> Seq<char> {
    match e {
        SystemError::SystemClassCreation => "Failed to create a system class for a control"@,
        SystemError::WindowCreationFail => "Failed to create a system window for a control"@,
        SystemError::UiCreation => "The system could not initialize the Ui"@,
        SystemError::FontCreation => "Failed to create a system font"@,
        SystemError::ImageCreation => "Failed to create a system image"@,
        SystemError::TreeItemCreation => "Failed to create a tree view item"@,
        SystemError::ComInstanceCreation(name) => "Failed to create a COM instance for "@ + name@,
        SystemError::ComError(details) => "An error ocurred while executing a COM method, "@ + details@,
    }
}

/// The message of a platform failure, with the platform's error code and
/// its description.
pub open spec fn system_text(e: SystemError, code: u32, code_text: Seq<char>) -> Seq<char> {
    system_description(e) + ".\nID "@ + decimal_text(code as nat) + " - "@ + code_text
}

pub open spec fn error_text(e: Error) -> Seq<char> {
    match e {
        Error::KeyExists => "The same key already exists in the UI"@,
        Error::KeyNotFound => "The key was not found in the ui"@,
        Error::BadUi(r) => "Ui error: "@ + r@,
        Error::BadType => "The key exists in the Ui, but the type requested did not match the type of the underlying object"@,
        Error::BadParent(r) => "Could not make sense of the requested parent: "@ + r@,
        Error::BadResource(r) => "Could not make sense of the requested resource: "@ + r@,
        Error::BorrowError => "The Ui element was already borrowed"@,
        Error::ControlRequired => "The key passed to the command must identify a control"@,
        Error::ControlOrResourceRequired => "The key passed to the command must identify a control or a resource"@,
        Error::ControlInUse => "Impossible to modify the control, it is currently in use."@,
        Error::ResourceInUse => "Impossible to modify the resource, it is currently in use."@,
        Error::Unimplemented => "Feature not yet implemented"@,
        Error::System(e, code, text) => "A system error was raised: "@ + system_text(e, code, text@),
        Error::UserError(m) => m@,
    }
}

impl SystemError {
    /// The description of the failure, without the platform's code.
    pub fn description(&self) -> (r: String)
        ensures
            r@ == system_description(*self),
    {
        match self {
            SystemError::SystemClassCreation => String::from_str("Failed to create a system class for a control"),
            SystemError::WindowCreationFail => String::from_str("Failed to create a system window for a control"),
            SystemError::UiCreation => String::from_str("The system could not initialize the Ui"),
            SystemError::FontCreation => String::from_str("Failed to create a system font"),
            SystemError::ImageCreation => String::from_str("Failed to create a system image"),
            SystemError::TreeItemCreation => String::from_str("Failed to create a tree view item"),
            SystemError::ComInstanceCreation(name) => joined("Failed to create a COM instance for ", name.as_str()),
            SystemError::ComError(details) => joined("An error ocurred while executing a COM method, ", details.as_str()),
        }
    }

    /// The full message: the description, then the platform's error code and
    /// its text.
    pub fn translate(&self, code: u32, code_text: &str) -> (r: String)
        ensures
            r@ == system_text(*self, code, code_text@),
    {
        let mut s = self.description();
        s.append(".\nID ");
        let digits = decimal(code);
        s.append(digits.as_str());
        s.append(" - ");
        s.append(code_text);
        s
    }
}

impl Error {
    /// The message that describes the error.
    pub fn translate(&self) -> (r: String)
        ensures
            r@ == error_text(*self),
    {
        match self {
            Error::KeyExists => String::from_str("The same key already exists in the UI"),
            Error::KeyNotFound => String::from_str("The key was not found in the ui"),
            Error::BadUi(r) => joined("Ui error: ", r.as_str()),
            Error::BadType => String::from_str(
                "The key exists in the Ui, but the type requested did not match the type of the underlying object",
            ),
            Error::BadParent(r) => joined("Could not make sense of the requested parent: ", r.as_str()),
            Error::BadResource(r) => joined("Could not make sense of the requested resource: ", r.as_str()),
            Error::BorrowError => String::from_str("The Ui element was already borrowed"),
            Error::ControlRequired => String::from_str("The key passed to the command must identify a control"),
            Error::ControlOrResourceRequired => String::from_str(
                "The key passed to the command must identify a control or a resource",
            ),
            Error::ControlInUse => String::from_str("Impossible to modify the control, it is currently in use."),
            Error::ResourceInUse => String::from_str("Impossible to modify the resource, it is currently in use."),
            Error::Unimplemented => String::from_str("Feature not yet implemented"),
            Error::System(e, code, text) => {
                let t = e.translate(*code, text.as_str());
                joined("A system error was raised: ", t.as_str())
            },
            Error::UserError(m) => m.clone(),
        }
    }
}

} // verus!
