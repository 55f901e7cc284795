//! A ticket whose title and description are checked when it is built.
//!
//! Lengths are counted in bytes of the UTF-8 encoding, not in characters.
use vstd::prelude::*;
use vstd::utf8::encode_utf8;

verus! {

/// The most bytes a title may take.
pub const MAX_TITLE_BYTES: usize = 50;

/// The most bytes a description may take.
pub const MAX_DESCRIPTION_BYTES: usize = 500;

/// Number of bytes that `s` takes once encoded as UTF-8.
pub open spec fn byte_len(s: Seq<char>) -> nat {
    encode_utf8(s).len()
}

/// A title is accepted when it is not empty and fits in `MAX_TITLE_BYTES` bytes.
pub open spec fn title_is_valid(title: Seq<char>) -> bool {
    title.len() > 0 && byte_len(title) <= MAX_TITLE_BYTES
}

/// A description is accepted when it is not empty and fits in
/// `MAX_DESCRIPTION_BYTES` bytes.
pub open spec fn description_is_valid(description: Seq<char>) -> bool {
    description.len() > 0 && byte_len(description) <= MAX_DESCRIPTION_BYTES
}

/// The message carried by the error for a rejected title.
pub open spec fn title_error_message(title: Seq<char>) -> Seq<char> {
    if title.len() == 0 {
        "Ticket cannot be empty"@
    } else {
        "Title cannot be longer than 50 bytes"@
    }
}

/// The message carried by the error for a rejected description.
pub open spec fn description_error_message(description: Seq<char>) -> Seq<char> {
    if description.len() == 0 {
        "Description cannot be empty"@
    } else {
        "Description cannot be longer than 500 bytes"@
    }
}

/// Why a ticket could not be built; each variant carries a message.
#[derive(Debug)]
pub enum TicketNewError {
    TitleError(String),
    DescriptionError(String),
}

/// Where a ticket stands.
#[derive(Debug)]
pub enum Status {
    ToDo,
    InProgress { assigned_to: String },
    Done,
}

impl Clone for Status {
    fn clone(&self) -> (r: Self)
        ensures
            r == *self,
    {
        match self {
            Status::ToDo => Status::ToDo,
            Status::InProgress { assigned_to } => Status::InProgress {
                assigned_to: assigned_to.clone(),
            },
            Status::Done => Status::Done,
        }
    }
}

impl TicketNewError {
    /// The text shown for this error. It reads the same for every variant.
    pub fn display_text(&self) -> (r: String)
        ensures
            r@ == "Title cannot be empty"@,
    {
        "Title cannot be empty".to_owned()
    }

    /// The message that this error carries.
    pub fn message(&self) -> (r: &String)
        ensures
            match self {
                TicketNewError::TitleError(m) => r == m,
                TicketNewError::DescriptionError(m) => r == m,
            },
    {
        match self {
            TicketNewError::TitleError(m) => m,
            TicketNewError::DescriptionError(m) => m,
        }
    }
}

/// What a ticket holds, as mathematical values.
pub struct TicketView {
    pub title: Seq<char>,
    pub description: Seq<char>,
    pub status: Status,
}

impl TicketView {
    /// Both text fields meet the rules that `Ticket::new` checks.
    pub open spec fn wf(self) -> bool {
        title_is_valid(self.title) && description_is_valid(self.description)
    }
}

/// A ticket with a checked title and description.
pub struct Ticket {
    title: String,
    description: String,
    status: Status,
}

impl View for Ticket {
    type V = TicketView;

    closed spec fn view(&self) -> TicketView {
        TicketView { title: self.title@, description: self.description@, status: self.status }
    }
}

impl Ticket {
    #[verifier::type_invariant]
    spec fn inv(&self) -> bool {
        self@.wf()
    }

    /// Builds a ticket, or says which field was rejected and why.
    ///
    /// The checks run in this order, and the first that fails decides the
    /// error: empty title, title too long, empty description, description
    /// too long.
    pub fn new(title: String, description: String, status: Status) -> (r: Result<
        Ticket,
        TicketNewError,
    >)
        ensures
            match r {
                Ok(t) => title_is_valid(title@) && description_is_valid(description@) && t@ == (
                TicketView { title: title@, description: description@, status }),
                Err(TicketNewError::TitleError(m)) => !title_is_valid(title@) && m@
                    == title_error_message(title@),
                Err(TicketNewError::DescriptionError(m)) => title_is_valid(title@)
                    && !description_is_valid(description@) && m@ == description_error_message(
                    description@,
                ),
            },
    {
        if title.as_str().is_empty() {
            return Err(TicketNewError::TitleError("Ticket cannot be empty".to_owned()));
        }
        if title.as_str().as_bytes().len() > MAX_TITLE_BYTES {
            return Err(
                TicketNewError::TitleError("Title cannot be longer than 50 bytes".to_owned()),
            );
        }
        if description.as_str().is_empty() {
            return Err(
                TicketNewError::DescriptionError("Description cannot be empty".to_owned()),
            );
        }
        if description.as_str().as_bytes().len() > MAX_DESCRIPTION_BYTES {
            return Err(
                TicketNewError::DescriptionError(
                    "Description cannot be longer than 500 bytes".to_owned(),
                ),
            );
        }
        Ok(Ticket { title, description, status })
    }

    pub fn title(&self) -> (r: &String)
        ensures
            r@ == self@.title,
            self@.wf(),
    {
        proof {
            use_type_invariant(self);
        }
        &self.title
    }

    pub fn description(&self) -> (r: &String)
        ensures
            r@ == self@.description,
            self@.wf(),
    {
        proof {
            use_type_invariant(self);
        }
        &self.description
    }

    pub fn status(&self) -> (r: &Status)
        ensures
            *r == self@.status,
            self@.wf(),
    {
        proof {
            use_type_invariant(self);
        }
        &self.status
    }
}

/// The description put in place of one that was rejected.
pub open spec fn fallback_description() -> Seq<char> {
    "Description not provided"@
}

/// Builds a ticket whose description, if rejected, is replaced by
/// "Description not provided". The title must already meet the rules.
pub fn easy_ticket(title: String, description: String, status: Status) -> (r: Ticket)
    requires
        title_is_valid(title@),
    ensures
        r@ == (TicketView {
            title: title@,
            description: if description_is_valid(description@) {
                description@
            } else {
                fallback_description()
            },
            status,
        }),
{
    let title_copy = title.clone();
    let status_copy = status.clone();
    match Ticket::new(title, description, status) {
        Ok(ticket) => ticket,
        Err(_) => {
            let fallback = "Description not provided";
            proof {
                reveal_strlit("Description not provided");
                assert(vstd::string::is_ascii(fallback));
                vstd::utf8::is_ascii_chars_encode_utf8(fallback@);
            }
            Ticket::new(title_copy, fallback.to_owned(), status_copy).unwrap()
        }
    }
}

/// Building a ticket twice from the same valid inputs gives two tickets that
/// hold the same values.
pub proof fn lemma_new_is_deterministic(
    title: Seq<char>,
    description: Seq<char>,
    status: Status,
    first: Ticket,
    second: Ticket,
)
    requires
        title_is_valid(title),
        description_is_valid(description),
        first@ == (TicketView { title, description, status }),
        second@ == (TicketView { title, description, status }),
    ensures
        first@ == second@,
        first@.wf(),
{
}

} // verus!
