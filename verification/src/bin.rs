//! Pastes: text that is kept for a number of hours and of reads, with or
//! without a password.

use vstd::prelude::*;
use vstd::string::StringExecFns;
use crate::clock::{expired, has_expired, WallTime};
use crate::password::{
    check_password, hash_password, hash_view, new_id, password_verdict, provided_view,
    PasswordError,
};
use crate::text::{byte_len, trim, trimmed, utf8_len};

verus! {

/// Largest paste in bytes.
pub const MAX_PASTE_SIZE: usize = 256 * 1024;

/// Longest password in bytes.
pub const MAX_PASSWORD_LENGTH: usize = 256;

/// Largest number of hours, and of reads, that can be asked for.
pub const MAX_SETTING: u32 = 9999;

/// A stored paste.
#[derive(Clone, Debug, PartialEq, Eq)]
pub struct Paste {
    pub id: String,
    pub content: String,
    pub password_hash: Option<String>,
    /// Hours the paste is kept.
    pub expiry: u32,
    /// Reads that are left.
    pub uses: u32,
    pub created_at: WallTime,
}

/// A paste as a client asks for it.
#[derive(Clone, Debug, PartialEq, Eq)]
pub struct NewPaste {
    pub content: String,
    /// Empty for a paste without password.
    pub password: String,
    pub expiry: u32,
    pub uses: u32,
}

#[derive(Clone, Copy, Debug, PartialEq, Eq, Structural)]
pub enum PasteStatus {
    Success,
    Protected,
}

/// The answer to a new paste.
#[derive(Clone, Debug, PartialEq, Eq)]
pub struct CreatePasteResponse {
    pub status: PasteStatus,
    pub id: String,
    pub message: String,
}

#[derive(Clone, Debug, PartialEq, Eq)]
pub struct PasteData {
    pub id: String,
    pub content: Option<String>,
}

/// The answer to a read.
#[derive(Clone, Debug, PartialEq, Eq)]
pub struct PasteResponse {
    pub status: PasteStatus,
    pub data: Option<PasteData>,
    pub message: String,
}

#[derive(Clone, Debug, PartialEq, Eq)]
pub enum BinError {
    Internal(String),
    InvalidInput(String),
    PasswordHashError(String),
    NotFound,
    Expired,
}

impl BinError {
    /// The HTTP status that reports the error.
    pub open spec fn spec_status(self) -> u16 {
        match self {
            BinError::Internal(_) => 500,
            BinError::InvalidInput(_) => 400,
            BinError::PasswordHashError(_) => 500,
            BinError::NotFound => 404,
            BinError::Expired => 410,
        }
    }

    /// The text that reports the error.
    pub open spec fn spec_message(self) -> Seq<char> {
        match self {
            BinError::Internal(text) => text@,
            BinError::InvalidInput(text) => text@,
            BinError::PasswordHashError(text) => text@,
            BinError::NotFound => "Paste not found"@,
            BinError::Expired => "Paste expired"@,
        }
    }

    /// The HTTP status that reports the error.
    pub fn status(&self) -> (status: u16)
        ensures
            status == self.spec_status(),
    {
        match self {
            BinError::Internal(_) => 500,
            BinError::InvalidInput(_) => 400,
            BinError::PasswordHashError(_) => 500,
            BinError::NotFound => 404,
            BinError::Expired => 410,
        }
    }

    /// The text that reports the error.
    pub fn message(&self) -> (message: String)
        ensures
            message@ == self.spec_message(),
    {
        match self {
            BinError::Internal(text) => text.clone(),
            BinError::InvalidInput(text) => text.clone(),
            BinError::PasswordHashError(text) => text.clone(),
            BinError::NotFound => String::from_str("Paste not found"),
            BinError::Expired => String::from_str("Paste expired"),
        }
    }
}

/// What is wrong with a new paste, in the words of the error; `None` if
/// nothing is. Hours and reads have to lie between one and
/// [`MAX_SETTING`]; the content, without the white space around it, must be
/// neither empty nor larger than [`MAX_PASTE_SIZE`]; the password must not
/// be longer than [`MAX_PASSWORD_LENGTH`]. The first rule that is broken
/// speaks.
pub open spec fn new_paste_fault(new_paste: NewPaste) -> Option<Seq<char>> {
    if new_paste.expiry == 0 || new_paste.expiry > MAX_SETTING {
        Some("Invalid expiry value"@)
    } else if new_paste.uses == 0 || new_paste.uses > MAX_SETTING {
        Some("Invalid uses value"@)
    } else if trimmed(new_paste.content@).len() == 0 {
        Some("Content cannot be empty"@)
    } else if utf8_len(trimmed(new_paste.content@)) > MAX_PASTE_SIZE {
        Some("Paste content exceeds maximum size of 262144 bytes"@)
    } else if utf8_len(new_paste.password@) > MAX_PASSWORD_LENGTH {
        Some("Password too long"@)
    } else {
        None
    }
}

/// The paste has run out at `now`.
pub open spec fn paste_expired(paste: Paste, now: WallTime) -> bool {
    expired(paste.created_at, paste.expiry, now)
}

/// Tells whether the paste has run out at `now`.
pub fn is_expired(paste: &Paste, now: WallTime) -> (gone: bool)
    ensures
        gone == paste_expired(*paste, now),
{
    has_expired(paste.created_at, paste.expiry, now)
}

/// The answer that hands out a paste.
pub fn success_response(paste: &Paste) -> (response: PasteResponse)
    ensures
        response.status == PasteStatus::Success,
        response.data matches Some(data) && data.id == paste.id && data.content == Some(
            paste.content,
        ),
        response.message@ == "Paste retrieved successfully."@,
{
    PasteResponse {
        status: PasteStatus::Success,
        data: Some(PasteData { id: paste.id.clone(), content: Some(paste.content.clone()) }),
        message: String::from_str("Paste retrieved successfully."),
    }
}

/// The answer that keeps a protected paste back, with `message` as the
/// reason.
pub fn protected_response(message: &str) -> (response: PasteResponse)
    ensures
        response.status == PasteStatus::Protected,
        response.data is None,
        response.message@ == message@,
{
    PasteResponse {
        status: PasteStatus::Protected,
        data: None,
        message: String::from_str(message),
    }
}

/// The answer to a paste that was stored under `id`.
pub fn created_response(id: String) -> (response: CreatePasteResponse)
    ensures
        response.status == PasteStatus::Success,
        response.id == id,
        response.message@ == "Paste created successfully."@,
{
    CreatePasteResponse {
        status: PasteStatus::Success,
        id,
        message: String::from_str("Paste created successfully."),
    }
}

/// Checks the password of a request against the paste's.
pub fn verify_password(paste: &Paste, provided: Option<&str>) -> (verdict: Result<(), PasswordError>)
    ensures
        verdict == password_verdict(hash_view(paste.password_hash), provided_view(provided)),
{
    check_password(&paste.password_hash, provided)
}

/// Checks a new paste and returns its content without the white space
/// around it.
pub fn validate_new_paste(new_paste: &NewPaste) -> (checked: Result<String, BinError>)
    ensures
        match checked {
            Ok(content) => new_paste_fault(*new_paste) is None && content@ == trimmed(
                new_paste.content@,
            ),
            Err(error) => error matches BinError::InvalidInput(text) && new_paste_fault(*new_paste)
                == Some(text@),
        },
{
    if new_paste.expiry == 0 || new_paste.expiry > MAX_SETTING {
        return Err(BinError::InvalidInput(String::from_str("Invalid expiry value")));
    }
    if new_paste.uses == 0 || new_paste.uses > MAX_SETTING {
        return Err(BinError::InvalidInput(String::from_str("Invalid uses value")));
    }
    let content = trim(new_paste.content.as_str());
    if content.as_str().is_empty() {
        return Err(BinError::InvalidInput(String::from_str("Content cannot be empty")));
    }
    if byte_len(content.as_str()) > MAX_PASTE_SIZE {
        return Err(
            BinError::InvalidInput(
                String::from_str("Paste content exceeds maximum size of 262144 bytes"),
            ),
        );
    }
    if byte_len(new_paste.password.as_str()) > MAX_PASSWORD_LENGTH {
        return Err(BinError::InvalidInput(String::from_str("Password too long")));
    }
    Ok(content)
}

/// Puts a checked paste together. `hashed` is what hashing the password
/// came to, or `None` for a paste without password.
pub fn assemble_paste(
    new_paste: &NewPaste,
    id: String,
    content: String,
    hashed: Option<Result<String, String>>,
    now: WallTime,
) -> (made: Result<Paste, BinError>)
    ensures
        match hashed {
            Some(Err(reason)) => made matches Err(BinError::PasswordHashError(text)) && text
                == reason,
            Some(Ok(hash)) => made matches Ok(paste) && paste.password_hash == Some(hash)
                && paste.id == id && paste.content == content && paste.expiry == new_paste.expiry
                && paste.uses == new_paste.uses && paste.created_at == now,
            None => made matches Ok(paste) && paste.password_hash is None && paste.id == id
                && paste.content == content && paste.expiry == new_paste.expiry && paste.uses
                == new_paste.uses && paste.created_at == now,
        },
{
    let password_hash = match hashed {
        Some(Ok(hash)) => Some(hash),
        Some(Err(reason)) => {
            return Err(BinError::PasswordHashError(reason));
        },
        None => None,
    };
    Ok(
        Paste {
            id,
            content,
            password_hash,
            expiry: new_paste.expiry,
            uses: new_paste.uses,
            created_at: now,
        },
    )
}

/// Makes the paste that a client asks for at `now`: checks it, gives it a
/// random id and hashes its password, if it has one. A paste that breaks a
/// rule is refused with that rule's words. A paste that breaks none is made,
/// unless hashing its password fails.
pub fn create_paste(new_paste: &NewPaste, now: WallTime) -> (made: Result<Paste, BinError>)
    ensures
        match made {
            Ok(paste) => {
                &&& new_paste_fault(*new_paste) is None
                &&& paste.content@ == trimmed(new_paste.content@)
                &&& paste.expiry == new_paste.expiry
                &&& paste.uses == new_paste.uses
                &&& paste.created_at == now
                &&& paste.password_hash is Some <==> new_paste.password@.len() > 0
            },
            Err(BinError::InvalidInput(text)) => new_paste_fault(*new_paste) == Some(text@),
            Err(BinError::PasswordHashError(_)) => new_paste_fault(*new_paste) is None
                && new_paste.password@.len() > 0,
            Err(_) => false,
        },
        new_paste_fault(*new_paste) is None && new_paste.password@.len() == 0 ==> made is Ok,
{
    let content = match validate_new_paste(new_paste) {
        Ok(content) => content,
        Err(error) => {
            return Err(error);
        },
    };
    let hashed = if new_paste.password.as_str().is_empty() {
        None
    } else {
        Some(hash_password(new_paste.password.as_str()))
    };
    assemble_paste(new_paste, new_id(), content, hashed, now)
}

/// What a read of a paste is answered with.
#[derive(Clone, Debug, PartialEq, Eq)]
pub enum PasteAccess {
    /// The paste may be read: use it up once and hand it out.
    Granted,
    /// The paste stays closed; this is the answer.
    Refused(PasteResponse),
}

/// Decides about a read of `paste` at `now` with the password the request
/// brought. A paste that has run out is gone, whatever the password.
pub fn paste_access(paste: &Paste, provided: Option<&str>, now: WallTime) -> (access: Result<
    PasteAccess,
    BinError,
>)
    ensures
        paste_expired(*paste, now) ==> access matches Err(BinError::Expired),
        !paste_expired(*paste, now) ==> match password_verdict(
            hash_view(paste.password_hash),
            provided_view(provided),
        ) {
            Ok(()) => access matches Ok(PasteAccess::Granted),
            Err(PasswordError::Missing) => access matches Ok(PasteAccess::Refused(response))
                && response.status == PasteStatus::Protected && response.data is None
                && response.message@ == "This paste is password protected."@,
            Err(PasswordError::Incorrect) => access matches Ok(PasteAccess::Refused(response))
                && response.status == PasteStatus::Protected && response.data is None
                && response.message@ == "Incorrect password."@,
        },
{
    if is_expired(paste, now) {
        return Err(BinError::Expired);
    }
    match verify_password(paste, provided) {
        Ok(()) => Ok(PasteAccess::Granted),
        Err(PasswordError::Missing) => Ok(
            PasteAccess::Refused(protected_response("This paste is password protected.")),
        ),
        Err(PasswordError::Incorrect) => Ok(
            PasteAccess::Refused(protected_response("Incorrect password.")),
        ),
    }
}

impl Paste {
    /// The paste after one more read: with one read less, unless none was
    /// left.
    pub open spec fn consumed(self) -> Paste {
        Paste {
            uses: if self.uses > 0 {
                (self.uses - 1) as u32
            } else {
                0
            },
            ..self
        }
    }

    /// Uses the paste up once and tells whether no read is left.
    pub fn consume(&mut self) -> (exhausted: bool)
        ensures
            *final(self) == old(self).consumed(),
            exhausted == (final(self).uses == 0),
    {
        if self.uses > 0 {
            self.uses -= 1;
        }
        self.uses == 0
    }

    /// A copy of the paste.
    pub fn duplicate(&self) -> (copy: Paste)
        ensures
            copy == *self,
    {
        Paste {
            id: self.id.clone(),
            content: self.content.clone(),
            password_hash: match &self.password_hash {
                Some(hash) => Some(hash.clone()),
                None => None,
            },
            expiry: self.expiry,
            uses: self.uses,
            created_at: self.created_at,
        }
    }
}

} // verus!
