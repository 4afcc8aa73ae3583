//! Surveys: a title, a list of choices and the votes cast on them.

use vstd::prelude::*;
use vstd::string::StringExecFns;
use std::collections::HashMap;
use crate::bin::{MAX_PASSWORD_LENGTH, MAX_SETTING};
use crate::clock::{expired, has_expired, WallTime};
use crate::password::{
    check_password, hash_password, hash_view, new_id, password_verdict, provided_view,
    PasswordError,
};
use crate::text::{byte_len, lowercase, push_decimal, decimal_digits, to_lowercase, trim, trimmed, utf8_len};

verus! {

/// Longest title in bytes.
pub const MAX_TITLE_LEN: usize = 255;

/// Longest choice in bytes.
pub const MAX_ITEM_LEN: usize = 255;

/// Most choices a survey can have.
pub const MAX_ITEMS: usize = 100;

/// Longest voter name in bytes.
pub const MAX_VOTER_LEN: usize = 64;

#[derive(Clone, Copy, Debug, PartialEq, Eq, Structural)]
pub enum SurveyType {
    SingleChoice,
    MultipleChoice,
    RankChoice,
    MatrixChoice,
}

#[derive(Clone, Copy, Debug, PartialEq, Eq, Structural)]
pub enum SurveyStatus {
    Success,
    Protected,
}

/// What a survey asks.
#[derive(Clone, Debug, PartialEq, Eq)]
pub struct SurveyContent {
    pub title: String,
    pub survey_type: SurveyType,
    pub items: Vec<String>,
}

/// One vote: a value for each chosen item, by the item's index, and for a
/// matrix survey the voter's name.
#[derive(Clone, Debug, PartialEq, Eq)]
pub struct StoredVote {
    pub vote: HashMap<usize, i32>,
    pub voter: Option<String>,
}

/// A stored survey.
#[derive(Clone, Debug, PartialEq, Eq)]
pub struct Survey {
    pub id: String,
    pub content: SurveyContent,
    pub password_hash: Option<String>,
    /// Hours the survey is kept.
    pub expiry: u32,
    pub created_at: WallTime,
    pub votes: Vec<StoredVote>,
}

/// A survey as a client asks for it.
#[derive(Clone, Debug, PartialEq, Eq)]
pub struct NewSurvey {
    pub survey_type: SurveyType,
    pub title: String,
    pub items: Vec<String>,
    /// Empty for a survey without password.
    pub password: String,
    pub expiry: u32,
}

/// The answer to a new survey.
#[derive(Clone, Debug, PartialEq, Eq)]
pub struct CreateSurveyResponse {
    pub status: SurveyStatus,
    pub id: String,
    pub message: String,
}

#[derive(Clone, Debug, PartialEq, Eq)]
pub struct SurveyData {
    pub id: String,
    pub content: Option<SurveyContent>,
    pub votes: Vec<StoredVote>,
}

/// The answer to a read or a vote.
#[derive(Clone, Debug, PartialEq, Eq)]
pub struct SurveyResponse {
    pub status: SurveyStatus,
    pub data: Option<SurveyData>,
    pub message: String,
}

/// A vote as a client casts it.
#[derive(Clone, Debug, PartialEq, Eq)]
pub struct VoteRequest {
    pub vote: HashMap<usize, i32>,
    pub voter: Option<String>,
}

#[derive(Clone, Debug, PartialEq, Eq)]
pub enum AskError {
    Internal(String),
    InvalidInput(String),
    PasswordHashError(String),
    NotFound,
    Expired,
}

impl AskError {
    /// The HTTP status that reports the error.
    pub open spec fn spec_status(self) -> u16 {
        match self {
            AskError::Internal(_) => 500,
            AskError::InvalidInput(_) => 400,
            AskError::PasswordHashError(_) => 500,
            AskError::NotFound => 404,
            AskError::Expired => 410,
        }
    }

    /// The text that reports the error.
    pub open spec fn spec_message(self) -> Seq<char> {
        match self {
            AskError::Internal(text) => text@,
            AskError::InvalidInput(text) => text@,
            AskError::PasswordHashError(text) => text@,
            AskError::NotFound => "Survey not found"@,
            AskError::Expired => "Survey expired"@,
        }
    }

    /// The HTTP status that reports the error.
    pub fn status(&self) -> (status: u16)
        ensures
            status == self.spec_status(),
    {
        match self {
            AskError::Internal(_) => 500,
            AskError::InvalidInput(_) => 400,
            AskError::PasswordHashError(_) => 500,
            AskError::NotFound => 404,
            AskError::Expired => 410,
        }
    }

    /// The text that reports the error.
    pub fn message(&self) -> (message: String)
        ensures
            message@ == self.spec_message(),
    {
        match self {
            AskError::Internal(text) => text.clone(),
            AskError::InvalidInput(text) => text.clone(),
            AskError::PasswordHashError(text) => text.clone(),
            AskError::NotFound => String::from_str("Survey not found"),
            AskError::Expired => String::from_str("Survey expired"),
        }
    }
}

/// Strings as plain text.
pub open spec fn texts(strings: Seq<String>) -> Seq<Seq<char>> {
    strings.map_values(|s: String| s@)
}

/// A name as plain text, if there is one.
pub open spec fn name_view(name: Option<String>) -> Option<Seq<char>> {
    match name {
        Some(text) => Some(text@),
        None => None,
    }
}

/// A vote as plain values: its choices and its voter.
pub open spec fn vote_view(vote: StoredVote) -> (Map<usize, i32>, Option<Seq<char>>) {
    (vote.vote@, name_view(vote.voter))
}

/// Votes as plain values.
pub open spec fn votes_view(votes: Seq<StoredVote>) -> Seq<(Map<usize, i32>, Option<Seq<char>>)> {
    votes.map_values(|vote: StoredVote| vote_view(vote))
}

/// What a survey asks, as plain values: title, type and choices.
pub open spec fn content_view(content: SurveyContent) -> (Seq<char>, SurveyType, Seq<Seq<char>>) {
    (content.title@, content.survey_type, texts(content.items@))
}

/// The survey has run out at `now`.
pub open spec fn survey_expired(survey: Survey, now: WallTime) -> bool {
    expired(survey.created_at, survey.expiry, now)
}

/// Tells whether the survey has run out at `now`.
pub fn is_expired(survey: &Survey, now: WallTime) -> (gone: bool)
    ensures
        gone == survey_expired(*survey, now),
{
    has_expired(survey.created_at, survey.expiry, now)
}

/// A copy of `strings`.
pub fn copy_strings(strings: &Vec<String>) -> (copy: Vec<String>)
    ensures
        copy@ == strings@,
{
    let mut copy: Vec<String> = Vec::new();
    let mut i: usize = 0;
    while i < strings.len()
        invariant
            i <= strings@.len(),
            copy@ == strings@.take(i as int),
        decreases strings@.len() - i,
    {
        copy.push(strings[i].clone());
        assert(strings@.take(i + 1) == strings@.take(i as int).push(strings@[i as int]));
        i += 1;
    }
    assert(strings@.take(strings@.len() as int) == strings@);
    copy
}

/// A copy of `name`.
pub fn copy_name(name: &Option<String>) -> (copy: Option<String>)
    ensures
        copy == *name,
{
    match name {
        Some(text) => Some(text.clone()),
        None => None,
    }
}

impl SurveyContent {
    /// A copy of what the survey asks.
    pub fn duplicate(&self) -> (copy: SurveyContent)
        ensures
            copy.title == self.title,
            copy.survey_type == self.survey_type,
            copy.items@ == self.items@,
            content_view(copy) == content_view(*self),
    {
        SurveyContent {
            title: self.title.clone(),
            survey_type: self.survey_type,
            items: copy_strings(&self.items),
        }
    }
}

impl StoredVote {
    /// A copy of the vote.
    pub fn duplicate(&self) -> (copy: StoredVote)
        ensures
            vote_view(copy) == vote_view(*self),
    {
        StoredVote { vote: self.vote.clone(), voter: copy_name(&self.voter) }
    }
}

impl Survey {
    /// A copy of the survey with its votes.
    pub fn duplicate(&self) -> (copy: Survey)
        ensures
            copy.id == self.id,
            content_view(copy.content) == content_view(self.content),
            copy.password_hash == self.password_hash,
            copy.expiry == self.expiry,
            copy.created_at == self.created_at,
            votes_view(copy.votes@) == votes_view(self.votes@),
    {
        Survey {
            id: self.id.clone(),
            content: self.content.duplicate(),
            password_hash: copy_name(&self.password_hash),
            expiry: self.expiry,
            created_at: self.created_at,
            votes: copy_votes(&self.votes),
        }
    }
}

/// A copy of `votes`.
pub fn copy_votes(votes: &Vec<StoredVote>) -> (copy: Vec<StoredVote>)
    ensures
        votes_view(copy@) == votes_view(votes@),
{
    let mut copy: Vec<StoredVote> = Vec::new();
    let mut i: usize = 0;
    while i < votes.len()
        invariant
            i <= votes@.len(),
            copy@.len() == i,
            forall|k: int| 0 <= k < i ==> vote_view(#[trigger] copy@[k]) == vote_view(votes@[k]),
        decreases votes@.len() - i,
    {
        copy.push(votes[i].duplicate());
        i += 1;
    }
    assert(votes_view(copy@) =~= votes_view(votes@));
    copy
}

/// The answer that hands out a survey with its votes.
pub fn success_response(survey: &Survey) -> (response: SurveyResponse)
    ensures
        response.status == SurveyStatus::Success,
        response.data matches Some(data) && data.id == survey.id && (data.content matches Some(
            content,
        ) && content_view(content) == content_view(survey.content)) && votes_view(data.votes@)
            == votes_view(survey.votes@),
        response.message@ == "Survey retrieved successfully."@,
{
    SurveyResponse {
        status: SurveyStatus::Success,
        data: Some(
            SurveyData {
                id: survey.id.clone(),
                content: Some(survey.content.duplicate()),
                votes: copy_votes(&survey.votes),
            },
        ),
        message: String::from_str("Survey retrieved successfully."),
    }
}

/// The answer that keeps a protected survey back, with `message` as the
/// reason.
pub fn protected_response(message: &str) -> (response: SurveyResponse)
    ensures
        response.status == SurveyStatus::Protected,
        response.data is None,
        response.message@ == message@,
{
    SurveyResponse {
        status: SurveyStatus::Protected,
        data: None,
        message: String::from_str(message),
    }
}

/// The answer to a survey that was stored under `id`.
pub fn created_response(id: String) -> (response: CreateSurveyResponse)
    ensures
        response.status == SurveyStatus::Success,
        response.id == id,
        response.message@ == "Survey created successfully."@,
{
    CreateSurveyResponse {
        status: SurveyStatus::Success,
        id,
        message: String::from_str("Survey created successfully."),
    }
}

/// Checks the password of a request against the survey's.
pub fn verify_password(survey: &Survey, provided: Option<&str>) -> (verdict: Result<
    (),
    PasswordError,
>)
    ensures
        verdict == password_verdict(hash_view(survey.password_hash), provided_view(provided)),
{
    check_password(&survey.password_hash, provided)
}

/// Trimming, as a function on texts.
pub open spec fn trimming() -> spec_fn(Seq<char>) -> Seq<char> {
    |item: Seq<char>| trimmed(item)
}

/// Texts that are not empty.
pub open spec fn not_blank() -> spec_fn(Seq<char>) -> bool {
    |item: Seq<char>| item.len() > 0
}

/// The choices of a survey as they are kept: each without the white space
/// around it, and without those of which nothing is left.
pub open spec fn cleaned_items(items: Seq<Seq<char>>) -> Seq<Seq<char>> {
    items.map_values(trimming()).filter(not_blank())
}

/// One of the choices is longer than [`MAX_ITEM_LEN`].
pub open spec fn has_long_item(items: Seq<Seq<char>>) -> bool {
    exists|i: int| 0 <= i < items.len() && utf8_len(#[trigger] items[i]) > MAX_ITEM_LEN
}

/// What is wrong with a new survey, in the words of the error; `None` if
/// nothing is. The hours have to lie between one and [`MAX_SETTING`]; the
/// title, without the white space around it, must be neither empty nor
/// longer than [`MAX_TITLE_LEN`]; there must be one to [`MAX_ITEMS`]
/// choices, none longer than [`MAX_ITEM_LEN`]; the password must not be
/// longer than [`MAX_PASSWORD_LENGTH`]. The first rule that is broken
/// speaks.
pub open spec fn new_survey_fault(new_survey: NewSurvey) -> Option<Seq<char>> {
    let items = cleaned_items(texts(new_survey.items@));
    if new_survey.expiry == 0 || new_survey.expiry > MAX_SETTING {
        Some("Invalid expiry value"@)
    } else if trimmed(new_survey.title@).len() == 0 {
        Some("Title cannot be empty"@)
    } else if utf8_len(trimmed(new_survey.title@)) > MAX_TITLE_LEN {
        Some("Title too long (max 255 chars)"@)
    } else if items.len() == 0 {
        Some("At least one choice item is required"@)
    } else if items.len() > MAX_ITEMS {
        Some("Too many items (max 100)"@)
    } else if has_long_item(items) {
        Some("Choice item too long (max 255 chars)"@)
    } else if utf8_len(new_survey.password@) > MAX_PASSWORD_LENGTH {
        Some("Password too long"@)
    } else {
        None
    }
}

/// Unfolds [`cleaned_items`] at the last item.
pub proof fn lemma_cleaned_items_step(items: Seq<Seq<char>>)
    requires
        items.len() > 0,
    ensures
        cleaned_items(items) == if trimmed(items.last()).len() > 0 {
            cleaned_items(items.drop_last()).push(trimmed(items.last()))
        } else {
            cleaned_items(items.drop_last())
        },
{
    reveal(Seq::filter);
    assert(items.map_values(trimming()).drop_last() == items.drop_last().map_values(trimming()));
}

/// The choices of a survey as they are kept.
pub fn clean_items(items: &Vec<String>) -> (cleaned: Vec<String>)
    ensures
        texts(cleaned@) == cleaned_items(texts(items@)),
{
    let mut cleaned: Vec<String> = Vec::new();
    let mut i: usize = 0;
    proof {
        reveal(Seq::filter);
        assert(texts(items@).take(0).map_values(trimming()) == Seq::<Seq<char>>::empty());
        assert(texts(cleaned@) == Seq::<Seq<char>>::empty());
    }
    while i < items.len()
        invariant
            i <= items@.len(),
            texts(cleaned@) == cleaned_items(texts(items@).take(i as int)),
        decreases items@.len() - i,
    {
        let item = trim(items[i].as_str());
        proof {
            let upto = texts(items@).take(i + 1);
            assert(upto.drop_last() == texts(items@).take(i as int));
            assert(upto.last() == items@[i as int]@);
            lemma_cleaned_items_step(upto);
        }
        if !item.as_str().is_empty() {
            let ghost before = cleaned@;
            cleaned.push(item);
            assert(texts(cleaned@) == texts(before).push(item@));
        }
        i += 1;
    }
    proof {
        assert(texts(items@).take(items@.len() as int) == texts(items@));
    }
    cleaned
}

/// Tells whether one of `items` is longer than [`MAX_ITEM_LEN`].
fn any_long_item(items: &Vec<String>) -> (long: bool)
    ensures
        long == has_long_item(texts(items@)),
{
    let mut i: usize = 0;
    while i < items.len()
        invariant
            i <= items@.len(),
            forall|k: int| 0 <= k < i ==> utf8_len(#[trigger] texts(items@)[k]) <= MAX_ITEM_LEN,
        decreases items@.len() - i,
    {
        if byte_len(items[i].as_str()) > MAX_ITEM_LEN {
            assert(utf8_len(texts(items@)[i as int]) > MAX_ITEM_LEN);
            return true;
        }
        i += 1;
    }
    false
}

/// Checks a new survey and returns what it asks, cleaned up: the title
/// without the white space around it, and the choices as they are kept.
pub fn validate_new_survey(new_survey: &NewSurvey) -> (checked: Result<SurveyContent, AskError>)
    ensures
        match checked {
            Ok(content) => new_survey_fault(*new_survey) is None && content_view(content) == (
                trimmed(new_survey.title@),
                new_survey.survey_type,
                cleaned_items(texts(new_survey.items@)),
            ),
            Err(error) => error matches AskError::InvalidInput(text) && new_survey_fault(
                *new_survey,
            ) == Some(text@),
        },
{
    if new_survey.expiry == 0 || new_survey.expiry > MAX_SETTING {
        return Err(AskError::InvalidInput(String::from_str("Invalid expiry value")));
    }
    let title = trim(new_survey.title.as_str());
    if title.as_str().is_empty() {
        return Err(AskError::InvalidInput(String::from_str("Title cannot be empty")));
    }
    if byte_len(title.as_str()) > MAX_TITLE_LEN {
        return Err(AskError::InvalidInput(String::from_str("Title too long (max 255 chars)")));
    }
    let items = clean_items(&new_survey.items);
    assert(items@.len() == texts(items@).len());
    if items.len() == 0 {
        return Err(
            AskError::InvalidInput(String::from_str("At least one choice item is required")),
        );
    }
    if items.len() > MAX_ITEMS {
        return Err(AskError::InvalidInput(String::from_str("Too many items (max 100)")));
    }
    if any_long_item(&items) {
        return Err(
            AskError::InvalidInput(String::from_str("Choice item too long (max 255 chars)")),
        );
    }
    if byte_len(new_survey.password.as_str()) > MAX_PASSWORD_LENGTH {
        return Err(AskError::InvalidInput(String::from_str("Password too long")));
    }
    Ok(SurveyContent { title, survey_type: new_survey.survey_type, items })
}

/// Puts a checked survey together. `hashed` is what hashing the password
/// came to, or `None` for a survey without password.
pub fn assemble_survey(
    content: SurveyContent,
    id: String,
    expiry: u32,
    hashed: Option<Result<String, String>>,
    now: WallTime,
) -> (made: Result<Survey, AskError>)
    ensures
        match hashed {
            Some(Err(reason)) => made matches Err(AskError::PasswordHashError(text)) && text
                == reason,
            Some(Ok(hash)) => made matches Ok(survey) && survey.password_hash == Some(hash)
                && survey.id == id && survey.content == content && survey.expiry == expiry
                && survey.created_at == now && survey.votes@.len() == 0,
            None => made matches Ok(survey) && survey.password_hash is None && survey.id == id
                && survey.content == content && survey.expiry == expiry && survey.created_at
                == now && survey.votes@.len() == 0,
        },
{
    let password_hash = match hashed {
        Some(Ok(hash)) => Some(hash),
        Some(Err(reason)) => {
            return Err(AskError::PasswordHashError(reason));
        },
        None => None,
    };
    Ok(Survey { id, content, password_hash, expiry, created_at: now, votes: Vec::new() })
}

/// Makes the survey that a client asks for at `now`: checks it, gives it a
/// random id and hashes its password, if it has one. A survey that breaks a
/// rule is refused with that rule's words. A survey that breaks none is
/// made, without votes, unless hashing its password fails.
pub fn create_survey(new_survey: &NewSurvey, now: WallTime) -> (made: Result<Survey, AskError>)
    ensures
        match made {
            Ok(survey) => {
                &&& new_survey_fault(*new_survey) is None
                &&& content_view(survey.content) == (
                    trimmed(new_survey.title@),
                    new_survey.survey_type,
                    cleaned_items(texts(new_survey.items@)),
                )
                &&& survey.expiry == new_survey.expiry
                &&& survey.created_at == now
                &&& survey.votes@.len() == 0
                &&& survey.password_hash is Some <==> new_survey.password@.len() > 0
            },
            Err(AskError::InvalidInput(text)) => new_survey_fault(*new_survey) == Some(text@),
            Err(AskError::PasswordHashError(_)) => new_survey_fault(*new_survey) is None
                && new_survey.password@.len() > 0,
            Err(_) => false,
        },
        new_survey_fault(*new_survey) is None && new_survey.password@.len() == 0 ==> made is Ok,
{
    let content = match validate_new_survey(new_survey) {
        Ok(content) => content,
        Err(error) => {
            return Err(error);
        },
    };
    let hashed = if new_survey.password.as_str().is_empty() {
        None
    } else {
        Some(hash_password(new_survey.password.as_str()))
    };
    assemble_survey(content, new_id(), new_survey.expiry, hashed, now)
}

/// What a read of a survey is answered with.
#[derive(Clone, Debug, PartialEq, Eq)]
pub enum SurveyAccess {
    /// The survey may be read.
    Granted,
    /// The survey stays closed; this is the answer.
    Refused(SurveyResponse),
}

/// Decides about a read of `survey` at `now` with the password the request
/// brought. A survey that has run out is gone, whatever the password.
pub fn survey_access(survey: &Survey, provided: Option<&str>, now: WallTime) -> (access: Result<
    SurveyAccess,
    AskError,
>)
    ensures
        survey_expired(*survey, now) ==> access matches Err(AskError::Expired),
        !survey_expired(*survey, now) ==> match password_verdict(
            hash_view(survey.password_hash),
            provided_view(provided),
        ) {
            Ok(()) => access matches Ok(SurveyAccess::Granted),
            Err(PasswordError::Missing) => access matches Ok(SurveyAccess::Refused(response))
                && response.status == SurveyStatus::Protected && response.data is None
                && response.message@ == "This survey is password protected."@,
            Err(PasswordError::Incorrect) => access matches Ok(SurveyAccess::Refused(response))
                && response.status == SurveyStatus::Protected && response.data is None
                && response.message@ == "Incorrect password."@,
        },
{
    if is_expired(survey, now) {
        return Err(AskError::Expired);
    }
    match verify_password(survey, provided) {
        Ok(()) => Ok(SurveyAccess::Granted),
        Err(PasswordError::Missing) => Ok(
            SurveyAccess::Refused(protected_response("This survey is password protected.")),
        ),
        Err(PasswordError::Incorrect) => Ok(
            SurveyAccess::Refused(protected_response("Incorrect password.")),
        ),
    }
}

/// `index` is a choice of the vote and names no item of the survey.
pub open spec fn is_bad_index(vote: Map<usize, i32>, items: nat, index: usize) -> bool {
    vote.contains_key(index) && index >= items
}

/// The vote names an item that the survey does not have.
pub open spec fn has_bad_index(vote: Map<usize, i32>, items: nat) -> bool {
    exists|index: usize| is_bad_index(vote, items, index)
}

/// The words that refuse a vote for item `index`.
pub open spec fn bad_index_message(index: usize) -> Seq<char> {
    "Invalid vote index: "@ + decimal_digits(index as nat)
}

/// The vote at `i` was cast under `name`, letter case and the white space
/// around names set aside.
pub open spec fn same_voter(votes: Seq<StoredVote>, name: Seq<char>, i: int) -> bool {
    0 <= i < votes.len() && (votes[i].voter matches Some(existing) && lowercase(
        trimmed(existing@),
    ) == trimmed(lowercase(name)))
}

/// A vote was already cast under `name`.
pub open spec fn voter_taken(votes: Seq<StoredVote>, name: Seq<char>) -> bool {
    exists|i: int| same_voter(votes, name, i)
}

/// What is wrong with a vote whose choices are all items of the survey, in
/// the words of the error; `None` if nothing is. A vote must choose
/// something. On a matrix survey it needs a voter's name, which must not be
/// blank, longer than [`MAX_VOTER_LEN`] or used before; on any other survey
/// it must not have one.
pub open spec fn vote_fault(survey: Survey, request: VoteRequest) -> Option<Seq<char>> {
    if request.vote@.len() == 0 {
        Some("Cannot submit empty vote."@)
    } else if survey.content.survey_type == SurveyType::MatrixChoice {
        match request.voter {
            None => Some("Voter name is required for matrix surveys."@),
            Some(name) => if trimmed(name@).len() == 0 {
                Some("Voter name cannot be empty."@)
            } else if utf8_len(name@) > MAX_VOTER_LEN {
                Some("Voter name too long."@)
            } else if voter_taken(survey.votes@, name@) {
                Some("Voter name has already been used."@)
            } else {
                None
            },
        }
    } else if request.voter is Some {
        Some("Voter name is only allowed for matrix surveys."@)
    } else {
        None
    }
}

/// Finds a choice of the vote that names no item, if there is one.
pub fn find_bad_index(vote: &HashMap<usize, i32>, items: usize) -> (bad: Option<usize>)
    ensures
        match bad {
            Some(index) => is_bad_index(vote@, items as nat, index),
            None => !has_bad_index(vote@, items as nat),
        },
{
    for key in it: vote.keys()
        invariant
            forall|i: int| 0 <= i < it.index() ==> *it.seq()[i] < items,
            it.seq().unref().to_set() == vote@.dom(),
    {
        if *key >= items {
            assert(it.seq().unref().to_set().contains(*key));
            return Some(*key);
        }
    }
    None
}

/// Tells whether a vote was already cast under `name`.
pub fn voter_used(votes: &Vec<StoredVote>, name: &str) -> (taken: bool)
    ensures
        taken == voter_taken(votes@, name@),
{
    let wanted = trim(to_lowercase(name).as_str());
    let mut i: usize = 0;
    while i < votes.len()
        invariant
            i <= votes@.len(),
            wanted@ == trimmed(lowercase(name@)),
            forall|k: int| 0 <= k < i ==> !same_voter(votes@, name@, k),
        decreases votes@.len() - i,
    {
        if let Some(existing) = &votes[i].voter {
            let known = to_lowercase(trim(existing.as_str()).as_str());
            if known == wanted {
                assert(same_voter(votes@, name@, i as int));
                return true;
            }
        }
        i += 1;
    }
    false
}

/// Checks a vote against the survey it is cast on.
pub fn validate_vote(survey: &Survey, request: &VoteRequest) -> (checked: Result<(), AskError>)
    ensures
        match checked {
            Ok(()) => !has_bad_index(request.vote@, survey.content.items@.len()) && vote_fault(
                *survey,
                *request,
            ) is None,
            Err(error) => error matches AskError::InvalidInput(text) && if has_bad_index(
                request.vote@,
                survey.content.items@.len(),
            ) {
                exists|index: usize|
                    is_bad_index(request.vote@, survey.content.items@.len(), index) && text@
                        == #[trigger] bad_index_message(index)
            } else {
                vote_fault(*survey, *request) == Some(text@)
            },
        },
{
    if let Some(index) = find_bad_index(&request.vote, survey.content.items.len()) {
        let mut text = String::from_str("Invalid vote index: ");
        push_decimal(&mut text, index);
        assert(text@ == bad_index_message(index));
        return Err(AskError::InvalidInput(text));
    }
    if request.vote.is_empty() {
        return Err(AskError::InvalidInput(String::from_str("Cannot submit empty vote.")));
    }
    match survey.content.survey_type {
        SurveyType::MatrixChoice => {
            let name = match &request.voter {
                Some(name) => name,
                None => {
                    return Err(
                        AskError::InvalidInput(
                            String::from_str("Voter name is required for matrix surveys."),
                        ),
                    );
                },
            };
            if trim(name.as_str()).as_str().is_empty() {
                return Err(
                    AskError::InvalidInput(String::from_str("Voter name cannot be empty.")),
                );
            }
            if byte_len(name.as_str()) > MAX_VOTER_LEN {
                return Err(AskError::InvalidInput(String::from_str("Voter name too long.")));
            }
            if voter_used(&survey.votes, name.as_str()) {
                return Err(
                    AskError::InvalidInput(String::from_str("Voter name has already been used.")),
                );
            }
        },
        _ => {
            if request.voter.is_some() {
                return Err(
                    AskError::InvalidInput(
                        String::from_str("Voter name is only allowed for matrix surveys."),
                    ),
                );
            }
        },
    }
    Ok(())
}

/// What a vote is answered with.
#[derive(Clone, Debug, PartialEq, Eq)]
pub enum VoteAccess {
    /// The vote counts: store it.
    Accepted(StoredVote),
    /// The survey stays closed; this is the answer.
    Refused(SurveyResponse),
}

/// Decides about a vote on `survey` at `now`. A survey that has run out is
/// gone. A protected survey takes no vote without its password. Then the
/// vote itself is checked, and a vote that passes is handed back to be
/// stored as it was cast.
pub fn vote_access(
    survey: &Survey,
    provided: Option<&str>,
    request: VoteRequest,
    now: WallTime,
) -> (access: Result<VoteAccess, AskError>)
    ensures
        survey_expired(*survey, now) ==> access matches Err(AskError::Expired),
        !survey_expired(*survey, now) ==> match password_verdict(
            hash_view(survey.password_hash),
            provided_view(provided),
        ) {
            Err(PasswordError::Missing) => access matches Ok(VoteAccess::Refused(response))
                && response.status == SurveyStatus::Protected && response.data is None
                && response.message@ == "This survey is password protected."@,
            Err(PasswordError::Incorrect) => access matches Ok(VoteAccess::Refused(response))
                && response.status == SurveyStatus::Protected && response.data is None
                && response.message@ == "Incorrect password."@,
            Ok(()) => match access {
                Ok(VoteAccess::Accepted(stored)) => {
                    &&& !has_bad_index(request.vote@, survey.content.items@.len())
                    &&& vote_fault(*survey, request) is None
                    &&& stored.vote == request.vote
                    &&& stored.voter == request.voter
                },
                Ok(VoteAccess::Refused(_)) => false,
                Err(AskError::InvalidInput(text)) => if has_bad_index(
                    request.vote@,
                    survey.content.items@.len(),
                ) {
                    exists|index: usize|
                        is_bad_index(request.vote@, survey.content.items@.len(), index) && text@
                            == #[trigger] bad_index_message(index)
                } else {
                    vote_fault(*survey, request) == Some(text@)
                },
                Err(_) => false,
            },
        },
{
    if is_expired(survey, now) {
        return Err(AskError::Expired);
    }
    match verify_password(survey, provided) {
        Ok(()) => {},
        Err(PasswordError::Missing) => {
            return Ok(
                VoteAccess::Refused(protected_response("This survey is password protected.")),
            );
        },
        Err(PasswordError::Incorrect) => {
            return Ok(VoteAccess::Refused(protected_response("Incorrect password.")));
        },
    }
    match validate_vote(survey, &request) {
        Ok(()) => Ok(VoteAccess::Accepted(StoredVote { vote: request.vote, voter: request.voter })),
        Err(error) => Err(error),
    }
}

} // verus!
