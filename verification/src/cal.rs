//! Calendar events: a title, a place, a start and an end, handed out as an
//! iCalendar entry.

use vstd::prelude::*;
use vstd::string::StringExecFns;
use chrono::{DateTime, Datelike, NaiveDate, NaiveTime, TimeZone, Timelike, Utc};
use chrono_tz::Tz;
use crate::bin::{MAX_PASSWORD_LENGTH, MAX_SETTING};
use crate::clock::{expired, has_expired, WallTime};
use crate::password::{
    check_password, hash_password, hash_view, new_id, password_verdict, provided_view,
    PasswordError,
};
use crate::text::{byte_len, trim, trimmed, utf8_len};

verus! {

/// Longest title in bytes.
pub const MAX_TITLE_LEN: usize = 255;

/// Longest location in bytes.
pub const MAX_LOCATION_LEN: usize = 255;

/// Longest description in bytes.
pub const MAX_DESCRIPTION_LEN: usize = 4096;

/// The date that `text` is in the form year, month and day, as `chrono`
/// reads `%Y-%m-%d`; `None` if it is none.
pub uninterp spec fn date_of(text: Seq<char>) -> Option<(i32, u32, u32)>;

/// The time that `text` is in the form hour and minute, as `chrono` reads
/// `%H:%M`; `None` if it is none.
pub uninterp spec fn time_of(text: Seq<char>) -> Option<(u32, u32)>;

/// `name` is a time zone of the tz database that `chrono-tz` carries.
pub uninterp spec fn is_zone(name: Seq<char>) -> bool;

/// The one moment, in seconds since the Unix epoch, at which the clocks of
/// time zone `zone` show the given date and time; `None` if there is no such
/// moment, or more than one, or no such zone.
pub uninterp spec fn utc_of_local(zone: Seq<char>, date: (i32, u32, u32), time: (u32, u32)) -> Option<
    i64,
>;

/// The moment `secs` seconds after the Unix epoch in the form
/// `%Y%m%dT%H%M%SZ`, as `chrono` writes it; `None` beyond the years that
/// `chrono` can hold.
pub uninterp spec fn ics_time(secs: i64) -> Option<Seq<char>>;

/// `NaiveDate::parse_from_str` with the format `%Y-%m-%d`. Taken on trust:
/// the result depends on the text alone, and [`date_of`] is its name.
#[verifier::external_body]
pub(crate) fn parse_date(text: &str) -> (date: Option<(i32, u32, u32)>)
    ensures
        date == date_of(text@),
{
    match NaiveDate::parse_from_str(text, "%Y-%m-%d") {
        Ok(date) => Some((date.year(), date.month(), date.day())),
        Err(_) => None,
    }
}

/// `NaiveTime::parse_from_str` with the format `%H:%M`. Taken on trust: the
/// result depends on the text alone, and [`time_of`] is its name.
#[verifier::external_body]
pub(crate) fn parse_time(text: &str) -> (time: Option<(u32, u32)>)
    ensures
        time == time_of(text@),
{
    match NaiveTime::parse_from_str(text, "%H:%M") {
        Ok(time) => Some((time.hour(), time.minute())),
        Err(_) => None,
    }
}

/// `Tz::from_str`. Taken on trust: whether a name parses depends on the
/// name alone, and [`is_zone`] is the name of the answer.
#[verifier::external_body]
pub(crate) fn zone_known(name: &str) -> (known: bool)
    ensures
        known == is_zone(name@),
{
    name.parse::<Tz>().is_ok()
}

/// `Tz::from_local_datetime` and `LocalResult::single`. Taken on trust: the
/// result depends on the zone's name, the date and the time alone, and
/// [`utc_of_local`] is its name.
#[verifier::external_body]
pub(crate) fn local_to_utc(zone: &str, date: (i32, u32, u32), time: (u32, u32)) -> (at: Option<i64>)
    ensures
        at == utc_of_local(zone@, date, time),
{
    let tz: Tz = zone.parse().ok()?;
    let local = NaiveDate::from_ymd_opt(date.0, date.1, date.2)?.and_hms_opt(time.0, time.1, 0)?;
    tz.from_local_datetime(&local).single().map(|at| at.timestamp())
}

/// `DateTime::from_timestamp` and `DateTime::format` with the format
/// `%Y%m%dT%H%M%SZ`. Taken on trust: the result depends on the number of
/// seconds alone, and [`ics_time`] is its name.
#[verifier::external_body]
pub(crate) fn format_ics_time(secs: i64) -> (text: Option<String>)
    ensures
        match text {
            Some(written) => ics_time(secs) == Some(written@),
            None => ics_time(secs) is None,
        },
{
    let at: DateTime<Utc> = DateTime::from_timestamp(secs, 0)?;
    Some(at.format("%Y%m%dT%H%M%SZ").to_string())
}

#[derive(Clone, Copy, Debug, PartialEq, Eq, Structural)]
pub enum EventStatus {
    Success,
    Protected,
}

/// What an event is about. `start` and `end` are in seconds since the Unix
/// epoch.
#[derive(Clone, Debug, PartialEq, Eq)]
pub struct EventContent {
    pub title: String,
    pub location: Option<String>,
    pub start: i64,
    pub end: i64,
    /// The time zone as the client named it; empty for UTC.
    pub timezone: String,
    pub description: Option<String>,
}

/// A stored event.
#[derive(Clone, Debug, PartialEq, Eq)]
pub struct Event {
    pub id: String,
    pub content: EventContent,
    pub password_hash: Option<String>,
    /// Hours the event is kept.
    pub expiry: u32,
    /// Reads that are left.
    pub uses: u32,
    pub created_system: WallTime,
    /// When the event was made, in seconds since the Unix epoch.
    pub created_utc: i64,
}

/// An event as a client asks for it.
#[derive(Clone, Debug, PartialEq, Eq)]
pub struct NewEvent {
    pub title: String,
    pub location: Option<String>,
    /// First day, as `YYYY-MM-DD`.
    pub from: String,
    /// Last day, as `YYYY-MM-DD`.
    pub to: String,
    /// Time on the first day, as `HH:MM`.
    pub start: String,
    /// Time on the last day, as `HH:MM`.
    pub end: String,
    pub timezone: String,
    pub description: Option<String>,
    /// Empty for an event without password.
    pub password: String,
    pub expiry: u32,
    pub uses: u32,
}

/// The answer to a new event.
#[derive(Clone, Debug, PartialEq, Eq)]
pub struct CreateEventResponse {
    pub status: EventStatus,
    pub id: String,
    pub message: String,
}

#[derive(Clone, Debug, PartialEq, Eq)]
pub struct EventData {
    pub id: String,
    pub content: Option<EventContent>,
    pub ics: Option<String>,
}

/// The answer to a read.
#[derive(Clone, Debug, PartialEq, Eq)]
pub struct EventResponse {
    pub status: EventStatus,
    pub data: Option<EventData>,
    pub message: String,
}

#[derive(Clone, Debug, PartialEq, Eq)]
pub enum CalError {
    Internal(String),
    InvalidInput(String),
    InvalidDate,
    InvalidTime,
    InvalidTimezone,
    InvalidDateTime,
    InvalidDateRange,
    PasswordHashError(String),
    NotFound,
    Expired,
}

impl CalError {
    /// The HTTP status that reports the error.
    pub open spec fn spec_status(self) -> u16 {
        match self {
            CalError::Internal(_) => 500,
            CalError::PasswordHashError(_) => 500,
            CalError::NotFound => 404,
            CalError::Expired => 410,
            _ => 400,
        }
    }

    /// The text that reports the error.
    pub open spec fn spec_message(self) -> Seq<char> {
        match self {
            CalError::Internal(text) => text@,
            CalError::InvalidInput(text) => text@,
            CalError::InvalidDate => "Invalid date format"@,
            CalError::InvalidTime => "Invalid time format"@,
            CalError::InvalidTimezone => "Invalid timezone"@,
            CalError::InvalidDateTime => "Invalid date/time combination"@,
            CalError::InvalidDateRange => "End date must be after start date"@,
            CalError::PasswordHashError(text) => text@,
            CalError::NotFound => "Event not found"@,
            CalError::Expired => "Event expired"@,
        }
    }

    /// The HTTP status that reports the error.
    pub fn status(&self) -> (status: u16)
        ensures
            status == self.spec_status(),
    {
        match self {
            CalError::Internal(_) => 500,
            CalError::PasswordHashError(_) => 500,
            CalError::NotFound => 404,
            CalError::Expired => 410,
            _ => 400,
        }
    }

    /// The text that reports the error.
    pub fn message(&self) -> (message: String)
        ensures
            message@ == self.spec_message(),
    {
        match self {
            CalError::Internal(text) => text.clone(),
            CalError::InvalidInput(text) => text.clone(),
            CalError::InvalidDate => String::from_str("Invalid date format"),
            CalError::InvalidTime => String::from_str("Invalid time format"),
            CalError::InvalidTimezone => String::from_str("Invalid timezone"),
            CalError::InvalidDateTime => String::from_str("Invalid date/time combination"),
            CalError::InvalidDateRange => String::from_str("End date must be after start date"),
            CalError::PasswordHashError(text) => text.clone(),
            CalError::NotFound => String::from_str("Event not found"),
            CalError::Expired => String::from_str("Event expired"),
        }
    }
}

/// What is wrong with a new event.
pub enum EventFault {
    /// A rule on the plain fields is broken; these are the words.
    Input(Seq<char>),
    /// A day is no date.
    Date,
    /// A time is no time.
    Time,
    /// The time zone is unknown.
    Timezone,
    /// Start or end is no single moment in the time zone.
    DateTime,
    /// The event does not end after it starts.
    DateRange,
}

/// An optional text, empty if it is missing.
pub open spec fn text_or_empty(text: Option<String>) -> Seq<char> {
    match text {
        Some(given) => given@,
        None => Seq::empty(),
    }
}

/// The time zone in which the event's times are read: the one the client
/// named, without the white space around it, or UTC if it named none.
pub open spec fn zone_name(new_event: NewEvent) -> Seq<char> {
    if trimmed(new_event.timezone@).len() == 0 {
        "UTC"@
    } else {
        trimmed(new_event.timezone@)
    }
}

/// The start of the event, if its first day, its start time and its time
/// zone make one moment.
pub open spec fn start_of(new_event: NewEvent) -> Option<i64> {
    match (date_of(new_event.from@), time_of(new_event.start@)) {
        (Some(date), Some(time)) => utc_of_local(zone_name(new_event), date, time),
        _ => None,
    }
}

/// The end of the event, if its last day, its end time and its time zone
/// make one moment.
pub open spec fn end_of(new_event: NewEvent) -> Option<i64> {
    match (date_of(new_event.to@), time_of(new_event.end@)) {
        (Some(date), Some(time)) => utc_of_local(zone_name(new_event), date, time),
        _ => None,
    }
}

/// What is wrong with a new event; `None` if nothing is. Hours and reads
/// have to lie between one and [`MAX_SETTING`]. Title, location and
/// description are taken without the white space around them: the title
/// must not be empty, and none may be longer than its limit. Both days must
/// be dates, both times must be times, and the time zone must be known.
/// Start and end must each be one moment in that zone, and the end must come
/// after the start. The password must not be longer than
/// [`MAX_PASSWORD_LENGTH`]. The first rule that is broken speaks.
pub open spec fn new_event_fault(new_event: NewEvent) -> Option<EventFault> {
    if new_event.expiry == 0 || new_event.expiry > MAX_SETTING {
        Some(EventFault::Input("Invalid expiry value"@))
    } else if new_event.uses == 0 || new_event.uses > MAX_SETTING {
        Some(EventFault::Input("Invalid uses value"@))
    } else if trimmed(new_event.title@).len() == 0 {
        Some(EventFault::Input("Title cannot be empty"@))
    } else if utf8_len(trimmed(new_event.title@)) > MAX_TITLE_LEN {
        Some(EventFault::Input("Title too long (max 255 chars)"@))
    } else if utf8_len(trimmed(text_or_empty(new_event.location))) > MAX_LOCATION_LEN {
        Some(EventFault::Input("Location too long (max 255 chars)"@))
    } else if utf8_len(trimmed(text_or_empty(new_event.description))) > MAX_DESCRIPTION_LEN {
        Some(EventFault::Input("Description too long (max 4096 chars)"@))
    } else if date_of(new_event.from@) is None || date_of(new_event.to@) is None {
        Some(EventFault::Date)
    } else if time_of(new_event.start@) is None || time_of(new_event.end@) is None {
        Some(EventFault::Time)
    } else if !is_zone(zone_name(new_event)) {
        Some(EventFault::Timezone)
    } else if start_of(new_event) is None || end_of(new_event) is None {
        Some(EventFault::DateTime)
    } else if end_of(new_event)->0 <= start_of(new_event)->0 {
        Some(EventFault::DateRange)
    } else if utf8_len(new_event.password@) > MAX_PASSWORD_LENGTH {
        Some(EventFault::Input("Password too long"@))
    } else {
        None
    }
}

/// The fault that an error reports, if the error is one that a new event
/// can be refused with.
pub open spec fn fault_of(error: CalError) -> Option<EventFault> {
    match error {
        CalError::InvalidInput(text) => Some(EventFault::Input(text@)),
        CalError::InvalidDate => Some(EventFault::Date),
        CalError::InvalidTime => Some(EventFault::Time),
        CalError::InvalidTimezone => Some(EventFault::Timezone),
        CalError::InvalidDateTime => Some(EventFault::DateTime),
        CalError::InvalidDateRange => Some(EventFault::DateRange),
        _ => None,
    }
}

/// The content that a new event without fault is stored with.
pub open spec fn is_content_of(content: EventContent, new_event: NewEvent) -> bool {
    &&& content.title@ == trimmed(new_event.title@)
    &&& content.location matches Some(location) && location@ == trimmed(
        text_or_empty(new_event.location),
    )
    &&& Some(content.start) == start_of(new_event)
    &&& Some(content.end) == end_of(new_event)
    &&& content.timezone@ == trimmed(new_event.timezone@)
    &&& content.description matches Some(description) && description@ == trimmed(
        text_or_empty(new_event.description),
    )
}

/// The event has run out at `now`.
pub open spec fn event_expired(event: Event, now: WallTime) -> bool {
    expired(event.created_system, event.expiry, now)
}

/// Tells whether the event has run out at `now`.
pub fn is_expired(event: &Event, now: WallTime) -> (gone: bool)
    ensures
        gone == event_expired(*event, now),
{
    has_expired(event.created_system, event.expiry, now)
}

/// An optional text without the white space around it; empty if the text is
/// missing.
fn trim_or_empty(text: &Option<String>) -> (inner: String)
    ensures
        inner@ == trimmed(text_or_empty(*text)),
{
    match text {
        Some(given) => trim(given.as_str()),
        None => {
            proof {
                reveal_strlit("");
                assert(""@ =~= Seq::<char>::empty());
            }
            trim("")
        },
    }
}

/// Checks a new event and returns what it is about, cleaned up and with its
/// times as moments.
pub fn validate_new_event(new_event: &NewEvent) -> (checked: Result<EventContent, CalError>)
    ensures
        match checked {
            Ok(content) => new_event_fault(*new_event) is None && is_content_of(
                content,
                *new_event,
            ),
            Err(error) => fault_of(error) is Some && new_event_fault(*new_event) == fault_of(error),
        },
{
    if new_event.expiry == 0 || new_event.expiry > MAX_SETTING {
        return Err(CalError::InvalidInput(String::from_str("Invalid expiry value")));
    }
    if new_event.uses == 0 || new_event.uses > MAX_SETTING {
        return Err(CalError::InvalidInput(String::from_str("Invalid uses value")));
    }
    let title = trim(new_event.title.as_str());
    if title.as_str().is_empty() {
        return Err(CalError::InvalidInput(String::from_str("Title cannot be empty")));
    }
    if byte_len(title.as_str()) > MAX_TITLE_LEN {
        return Err(CalError::InvalidInput(String::from_str("Title too long (max 255 chars)")));
    }
    let location = trim_or_empty(&new_event.location);
    if byte_len(location.as_str()) > MAX_LOCATION_LEN {
        return Err(CalError::InvalidInput(String::from_str("Location too long (max 255 chars)")));
    }
    let description = trim_or_empty(&new_event.description);
    if byte_len(description.as_str()) > MAX_DESCRIPTION_LEN {
        return Err(
            CalError::InvalidInput(String::from_str("Description too long (max 4096 chars)")),
        );
    }
    let date_from = match parse_date(new_event.from.as_str()) {
        Some(date) => date,
        None => {
            return Err(CalError::InvalidDate);
        },
    };
    let date_to = match parse_date(new_event.to.as_str()) {
        Some(date) => date,
        None => {
            return Err(CalError::InvalidDate);
        },
    };
    let time_start = match parse_time(new_event.start.as_str()) {
        Some(time) => time,
        None => {
            return Err(CalError::InvalidTime);
        },
    };
    let time_end = match parse_time(new_event.end.as_str()) {
        Some(time) => time,
        None => {
            return Err(CalError::InvalidTime);
        },
    };
    let timezone = trim(new_event.timezone.as_str());
    let zone: &str = if timezone.as_str().is_empty() {
        "UTC"
    } else {
        timezone.as_str()
    };
    if !zone_known(zone) {
        return Err(CalError::InvalidTimezone);
    }
    let start = match local_to_utc(zone, date_from, time_start) {
        Some(at) => at,
        None => {
            return Err(CalError::InvalidDateTime);
        },
    };
    let end = match local_to_utc(zone, date_to, time_end) {
        Some(at) => at,
        None => {
            return Err(CalError::InvalidDateTime);
        },
    };
    if end <= start {
        return Err(CalError::InvalidDateRange);
    }
    if byte_len(new_event.password.as_str()) > MAX_PASSWORD_LENGTH {
        return Err(CalError::InvalidInput(String::from_str("Password too long")));
    }
    Ok(
        EventContent {
            title,
            location: Some(location),
            start,
            end,
            timezone,
            description: Some(description),
        },
    )
}

/// Puts a checked event together. `hashed` is what hashing the password
/// came to, or `None` for an event without password.
pub fn assemble_event(
    new_event: &NewEvent,
    content: EventContent,
    id: String,
    hashed: Option<Result<String, String>>,
    now: WallTime,
    now_utc: i64,
) -> (made: Result<Event, CalError>)
    ensures
        match hashed {
            Some(Err(reason)) => made matches Err(CalError::PasswordHashError(text)) && text
                == reason,
            Some(Ok(hash)) => made matches Ok(event) && event.password_hash == Some(hash)
                && event.id == id && event.content == content && event.expiry == new_event.expiry
                && event.uses == new_event.uses && event.created_system == now
                && event.created_utc == now_utc,
            None => made matches Ok(event) && event.password_hash is None && event.id == id
                && event.content == content && event.expiry == new_event.expiry && event.uses
                == new_event.uses && event.created_system == now && event.created_utc == now_utc,
        },
{
    let password_hash = match hashed {
        Some(Ok(hash)) => Some(hash),
        Some(Err(reason)) => {
            return Err(CalError::PasswordHashError(reason));
        },
        None => None,
    };
    Ok(
        Event {
            id,
            content,
            password_hash,
            expiry: new_event.expiry,
            uses: new_event.uses,
            created_system: now,
            created_utc: now_utc,
        },
    )
}

/// Makes the event that a client asks for: checks it, gives it a random id
/// and hashes its password, if it has one. `now` is the time of day,
/// `now_utc` the same in whole seconds since the Unix epoch. An event that
/// breaks a rule is refused with that rule's error. An event that breaks
/// none is made, unless hashing its password fails.
pub fn create_event(new_event: &NewEvent, now: WallTime, now_utc: i64) -> (made: Result<
    Event,
    CalError,
>)
    ensures
        match made {
            Ok(event) => {
                &&& new_event_fault(*new_event) is None
                &&& is_content_of(event.content, *new_event)
                &&& event.expiry == new_event.expiry
                &&& event.uses == new_event.uses
                &&& event.created_system == now
                &&& event.created_utc == now_utc
                &&& event.password_hash is Some <==> new_event.password@.len() > 0
            },
            Err(CalError::PasswordHashError(_)) => new_event_fault(*new_event) is None
                && new_event.password@.len() > 0,
            Err(error) => fault_of(error) is Some && new_event_fault(*new_event) == fault_of(error),
        },
        new_event_fault(*new_event) is None && new_event.password@.len() == 0 ==> made is Ok,
{
    let content = match validate_new_event(new_event) {
        Ok(content) => content,
        Err(error) => {
            return Err(error);
        },
    };
    let hashed = if new_event.password.as_str().is_empty() {
        None
    } else {
        Some(hash_password(new_event.password.as_str()))
    };
    assemble_event(new_event, content, new_id(), hashed, now, now_utc)
}

/// The iCalendar text of an event: one calendar with one entry.
pub open spec fn ics_text(
    uid: Seq<char>,
    stamp: Seq<char>,
    start: Seq<char>,
    end: Seq<char>,
    summary: Seq<char>,
    description: Seq<char>,
) -> Seq<char> {
    "BEGIN:VCALENDAR\r\nVERSION:2.0\r\nPRODID:-//Polly//Cal//EN\r\nBEGIN:VEVENT\r\nUID:"@ + uid
        + "\r\nDTSTAMP:"@ + stamp + "\r\nDTSTART:"@ + start + "\r\nDTEND:"@ + end
        + "\r\nSUMMARY:"@ + summary + "\r\nDESCRIPTION:"@ + description
        + "\r\nEND:VEVENT\r\nEND:VCALENDAR"@
}

/// The iCalendar text of `content` under the id `uid`, stamped `stamp`; or
/// `None` if one of its three times lies beyond what can be written.
pub open spec fn ics_of(content: EventContent, uid: Seq<char>, stamp: i64) -> Option<Seq<char>> {
    match (ics_time(content.start), ics_time(content.end), ics_time(stamp)) {
        (Some(start), Some(end), Some(stamped)) => Some(
            ics_text(uid, stamped, start, end, content.title@, text_or_empty(content.description)),
        ),
        _ => None,
    }
}

impl EventContent {
    /// The event as an iCalendar entry with the id `uid`, stamped with the
    /// moment `dtstamp`.
    pub fn to_ics_string(&self, uid: &str, dtstamp: i64) -> (ics: Option<String>)
        ensures
            match ics {
                Some(text) => ics_of(*self, uid@, dtstamp) == Some(text@),
                None => ics_of(*self, uid@, dtstamp) is None,
            },
    {
        let start = match format_ics_time(self.start) {
            Some(text) => text,
            None => {
                return None;
            },
        };
        let end = match format_ics_time(self.end) {
            Some(text) => text,
            None => {
                return None;
            },
        };
        let stamp = match format_ics_time(dtstamp) {
            Some(text) => text,
            None => {
                return None;
            },
        };
        let mut ics = String::from_str(
            "BEGIN:VCALENDAR\r\nVERSION:2.0\r\nPRODID:-//Polly//Cal//EN\r\nBEGIN:VEVENT\r\nUID:",
        );
        ics.append(uid);
        ics.append("\r\nDTSTAMP:");
        ics.append(stamp.as_str());
        ics.append("\r\nDTSTART:");
        ics.append(start.as_str());
        ics.append("\r\nDTEND:");
        ics.append(end.as_str());
        ics.append("\r\nSUMMARY:");
        ics.append(self.title.as_str());
        ics.append("\r\nDESCRIPTION:");
        match &self.description {
            Some(description) => ics.append(description.as_str()),
            None => {
                assert(ics@ + Seq::<char>::empty() == ics@);
            },
        }
        ics.append("\r\nEND:VEVENT\r\nEND:VCALENDAR");
        Some(ics)
    }

    /// A copy of the content.
    pub fn duplicate(&self) -> (copy: EventContent)
        ensures
            copy == *self,
    {
        EventContent {
            title: self.title.clone(),
            location: match &self.location {
                Some(text) => Some(text.clone()),
                None => None,
            },
            start: self.start,
            end: self.end,
            timezone: self.timezone.clone(),
            description: match &self.description {
                Some(text) => Some(text.clone()),
                None => None,
            },
        }
    }
}

/// The answer that hands out an event, with its iCalendar entry.
pub fn success_response(event: &Event) -> (response: EventResponse)
    ensures
        response.status == EventStatus::Success,
        response.data matches Some(data) && data.id == event.id && data.content == Some(
            event.content,
        ) && match data.ics {
            Some(text) => ics_of(event.content, event.id@, event.created_utc) == Some(text@),
            None => ics_of(event.content, event.id@, event.created_utc) is None,
        },
        response.message@ == "Event retrieved successfully."@,
{
    EventResponse {
        status: EventStatus::Success,
        data: Some(
            EventData {
                id: event.id.clone(),
                content: Some(event.content.duplicate()),
                ics: event.content.to_ics_string(event.id.as_str(), event.created_utc),
            },
        ),
        message: String::from_str("Event retrieved successfully."),
    }
}

/// The answer that keeps a protected event back, with `message` as the
/// reason.
pub fn protected_response(message: &str) -> (response: EventResponse)
    ensures
        response.status == EventStatus::Protected,
        response.data is None,
        response.message@ == message@,
{
    EventResponse {
        status: EventStatus::Protected,
        data: None,
        message: String::from_str(message),
    }
}

/// The answer to an event that was stored under `id`.
pub fn created_response(id: String) -> (response: CreateEventResponse)
    ensures
        response.status == EventStatus::Success,
        response.id == id,
        response.message@ == "Event created successfully."@,
{
    CreateEventResponse {
        status: EventStatus::Success,
        id,
        message: String::from_str("Event created successfully."),
    }
}

/// Checks the password of a request against the event's.
pub fn verify_password(event: &Event, provided: Option<&str>) -> (verdict: Result<(), PasswordError>)
    ensures
        verdict == password_verdict(hash_view(event.password_hash), provided_view(provided)),
{
    check_password(&event.password_hash, provided)
}

/// What a read of an event is answered with.
#[derive(Clone, Debug, PartialEq, Eq)]
pub enum EventAccess {
    /// The event may be read: use it up once and hand it out.
    Granted,
    /// The event stays closed; this is the answer.
    Refused(EventResponse),
}

/// Decides about a read of `event` at `now` with the password the request
/// brought. An event that has run out is gone, whatever the password.
pub fn event_access(event: &Event, provided: Option<&str>, now: WallTime) -> (access: Result<
    EventAccess,
    CalError,
>)
    ensures
        event_expired(*event, now) ==> access matches Err(CalError::Expired),
        !event_expired(*event, now) ==> match password_verdict(
            hash_view(event.password_hash),
            provided_view(provided),
        ) {
            Ok(()) => access matches Ok(EventAccess::Granted),
            Err(PasswordError::Missing) => access matches Ok(EventAccess::Refused(response))
                && response.status == EventStatus::Protected && response.data is None
                && response.message@ == "This event is password protected."@,
            Err(PasswordError::Incorrect) => access matches Ok(EventAccess::Refused(response))
                && response.status == EventStatus::Protected && response.data is None
                && response.message@ == "Incorrect password."@,
        },
{
    if is_expired(event, now) {
        return Err(CalError::Expired);
    }
    match verify_password(event, provided) {
        Ok(()) => Ok(EventAccess::Granted),
        Err(PasswordError::Missing) => Ok(
            EventAccess::Refused(protected_response("This event is password protected.")),
        ),
        Err(PasswordError::Incorrect) => Ok(
            EventAccess::Refused(protected_response("Incorrect password.")),
        ),
    }
}

impl Event {
    /// The event after one more read: with one read less, unless none was
    /// left.
    pub open spec fn consumed(self) -> Event {
        Event {
            uses: if self.uses > 0 {
                (self.uses - 1) as u32
            } else {
                0
            },
            ..self
        }
    }

    /// Uses the event up once and tells whether no read is left.
    pub fn consume(&mut self) -> (exhausted: bool)
        ensures
            *final(self) == old(self).consumed(),
            exhausted == (final(self).uses == 0),
    {
        if self.uses > 0 {
            self.uses -= 1;
        }
        self.uses == 0
    }

    /// A copy of the event.
    pub fn duplicate(&self) -> (copy: Event)
        ensures
            copy == *self,
    {
        Event {
            id: self.id.clone(),
            content: self.content.duplicate(),
            password_hash: match &self.password_hash {
                Some(hash) => Some(hash.clone()),
                None => None,
            },
            expiry: self.expiry,
            uses: self.uses,
            created_system: self.created_system,
            created_utc: self.created_utc,
        }
    }
}

} // verus!
