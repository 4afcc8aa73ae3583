use polly::ask::{
    clean_items, create_survey, created_response, find_bad_index, is_expired,
    protected_response, success_response, survey_access, validate_new_survey, validate_vote,
    verify_password, vote_access, voter_used, AskError, NewSurvey, StoredVote, Survey,
    SurveyAccess, SurveyContent, SurveyStatus, SurveyType, VoteAccess, VoteRequest, MAX_ITEMS,
    MAX_ITEM_LEN, MAX_TITLE_LEN, MAX_VOTER_LEN,
};
use polly::password::PasswordError;
use std::collections::HashMap;

const HOUR: u64 = 3_600_000_000_000;
const CREATED: u64 = 1_700_000_000_000_000_000;

fn new_survey(title: &str, items: &[&str], password: &str, expiry: u32) -> NewSurvey {
    NewSurvey {
        survey_type: SurveyType::SingleChoice,
        title: title.to_string(),
        items: items.iter().map(|item| item.to_string()).collect(),
        password: password.to_string(),
        expiry,
    }
}

fn survey(survey_type: SurveyType, items: usize, votes: Vec<StoredVote>) -> Survey {
    Survey {
        id: "s-1".to_string(),
        content: SurveyContent {
            title: "Lunch".to_string(),
            survey_type,
            items: (0..items).map(|i| format!("item {}", i)).collect(),
        },
        password_hash: None,
        expiry: 1,
        created_at: CREATED,
        votes,
    }
}

fn vote(choices: &[(usize, i32)], voter: Option<&str>) -> VoteRequest {
    VoteRequest {
        vote: choices.iter().copied().collect(),
        voter: voter.map(|name| name.to_string()),
    }
}

fn stored(choices: &[(usize, i32)], voter: Option<&str>) -> StoredVote {
    StoredVote {
        vote: choices.iter().copied().collect(),
        voter: voter.map(|name| name.to_string()),
    }
}

fn invalid(text: &str) -> AskError {
    AskError::InvalidInput(text.to_string())
}

#[test]
fn survey_limits() {
    assert_eq!(MAX_TITLE_LEN, 255);
    assert_eq!(MAX_ITEM_LEN, 255);
    assert_eq!(MAX_ITEMS, 100);
    assert_eq!(MAX_VOTER_LEN, 64);
}

#[test]
fn items_are_trimmed_and_blank_ones_dropped() {
    let items: Vec<String> =
        [" a ", "", "b", "   ", "\tc\n", "a"].iter().map(|item| item.to_string()).collect();
    assert_eq!(clean_items(&items), vec!["a", "b", "c", "a"]);
    assert_eq!(clean_items(&Vec::new()), Vec::<String>::new());
}

#[test]
fn valid_survey_is_cleaned_up() {
    let content =
        validate_new_survey(&new_survey("  Lunch? ", &[" pizza", " ", "pasta "], "", 12)).unwrap();
    assert_eq!(
        content,
        SurveyContent {
            title: "Lunch?".into(),
            survey_type: SurveyType::SingleChoice,
            items: vec!["pizza".into(), "pasta".into()]
        }
    );
}

#[test]
fn survey_rules_speak_in_order() {
    let check = |asked: NewSurvey| validate_new_survey(&asked).unwrap_err();
    assert_eq!(check(new_survey("", &[], "", 0)), invalid("Invalid expiry value"));
    assert_eq!(check(new_survey("t", &["a"], "", 10_000)), invalid("Invalid expiry value"));
    assert_eq!(check(new_survey("  ", &[], "", 1)), invalid("Title cannot be empty"));
    assert_eq!(
        check(new_survey(&"t".repeat(256), &[], "", 1)),
        invalid("Title too long (max 255 chars)")
    );
    assert_eq!(
        check(new_survey("t", &[" ", ""], "", 1)),
        invalid("At least one choice item is required")
    );
    let many: Vec<&str> = vec!["x"; 101];
    assert_eq!(check(new_survey("t", &many, "", 1)), invalid("Too many items (max 100)"));
    let long = "i".repeat(256);
    assert_eq!(
        check(new_survey("t", &["ok", &long], &"p".repeat(300), 1)),
        invalid("Choice item too long (max 255 chars)")
    );
    assert_eq!(
        check(new_survey("t", &["ok"], &"p".repeat(257), 1)),
        invalid("Password too long")
    );
}

#[test]
fn survey_at_the_limits_is_valid() {
    let many: Vec<&str> = vec!["x"; 100];
    assert!(validate_new_survey(&new_survey(&"t".repeat(255), &many, "", 9999)).is_ok());
    let longest = "i".repeat(255);
    assert!(validate_new_survey(&new_survey("t", &[&longest], &"p".repeat(256), 1)).is_ok());
    // blank items do not count towards the limit
    let mut padded: Vec<&str> = vec!["x"; 100];
    padded.extend(vec![" "; 50]);
    assert_eq!(validate_new_survey(&new_survey("t", &padded, "", 1)).unwrap().items.len(), 100);
}

#[test]
fn survey_is_made_without_votes() {
    let mut asked = new_survey(" Title ", &["a", "b"], "", 48);
    asked.survey_type = SurveyType::MatrixChoice;
    let made = create_survey(&asked, CREATED).unwrap();
    assert_eq!(made.content.title, "Title");
    assert_eq!(made.content.survey_type, SurveyType::MatrixChoice);
    assert_eq!(made.content.items, vec!["a", "b"]);
    assert_eq!(made.password_hash, None);
    assert_eq!(made.expiry, 48);
    assert_eq!(made.created_at, CREATED);
    assert!(made.votes.is_empty());
    assert_eq!(made.id.len(), 36);
    assert_eq!(
        create_survey(&new_survey("", &["a"], "", 1), CREATED),
        Err(invalid("Title cannot be empty"))
    );
}

#[test]
fn survey_with_password() {
    let made = create_survey(&new_survey("t", &["a"], "open sesame", 1), CREATED).unwrap();
    assert!(made.password_hash.is_some());
    assert_eq!(verify_password(&made, Some("open sesame")), Ok(()));
    assert_eq!(verify_password(&made, Some("Open Sesame")), Err(PasswordError::Incorrect));
    assert_eq!(verify_password(&made, None), Err(PasswordError::Missing));
    assert_eq!(survey_access(&made, Some("open sesame"), CREATED), Ok(SurveyAccess::Granted));
    assert_eq!(
        survey_access(&made, None, CREATED),
        Ok(SurveyAccess::Refused(protected_response("This survey is password protected.")))
    );
    assert_eq!(
        survey_access(&made, Some("x"), CREATED),
        Ok(SurveyAccess::Refused(protected_response("Incorrect password.")))
    );
    assert_eq!(survey_access(&made, Some("open sesame"), CREATED + HOUR + 1), Err(AskError::Expired));
}

#[test]
fn survey_expiry() {
    let kept = survey(SurveyType::SingleChoice, 2, Vec::new());
    assert!(!is_expired(&kept, CREATED + HOUR));
    assert!(is_expired(&kept, CREATED + HOUR + 1));
    assert!(is_expired(&kept, CREATED - 1));
}

#[test]
fn survey_responses() {
    let votes = vec![stored(&[(0, 1)], None), stored(&[(1, 2), (0, -1)], Some("Ann"))];
    let kept = survey(SurveyType::RankChoice, 2, votes.clone());
    let response = success_response(&kept);
    assert_eq!(response.status, SurveyStatus::Success);
    assert_eq!(response.message, "Survey retrieved successfully.");
    let data = response.data.unwrap();
    assert_eq!(data.id, "s-1");
    assert_eq!(data.content, Some(kept.content.clone()));
    assert_eq!(data.votes, votes);
    let refused = protected_response("closed");
    assert_eq!(refused.status, SurveyStatus::Protected);
    assert_eq!(refused.data, None);
    assert_eq!(refused.message, "closed");
    let created = created_response("id".into());
    assert_eq!(created.id, "id");
    assert_eq!(created.status, SurveyStatus::Success);
    assert_eq!(created.message, "Survey created successfully.");
}

#[test]
fn vote_indices_must_name_items() {
    let choices: HashMap<usize, i32> = [(0, 1), (2, 1)].into_iter().collect();
    assert_eq!(find_bad_index(&choices, 3), None);
    assert_eq!(find_bad_index(&choices, 2), Some(2));
    assert_eq!(find_bad_index(&HashMap::new(), 0), None);
    let kept = survey(SurveyType::MultipleChoice, 3, Vec::new());
    assert_eq!(validate_vote(&kept, &vote(&[(0, 1), (2, 1)], None)), Ok(()));
    assert_eq!(
        validate_vote(&kept, &vote(&[(0, 1), (3, 1)], None)),
        Err(invalid("Invalid vote index: 3"))
    );
    assert_eq!(
        validate_vote(&kept, &vote(&[(1234567, 1)], None)),
        Err(invalid("Invalid vote index: 1234567"))
    );
    assert_eq!(
        validate_vote(&kept, &vote(&[(usize::MAX, 1)], None)),
        Err(invalid(&format!("Invalid vote index: {}", usize::MAX)))
    );
    // with several bad indices, one of them is named
    let error = validate_vote(&kept, &vote(&[(7, 1), (9, 1)], None)).unwrap_err();
    assert!(error == invalid("Invalid vote index: 7") || error == invalid("Invalid vote index: 9"));
}

#[test]
fn vote_rules() {
    let plain = survey(SurveyType::SingleChoice, 2, Vec::new());
    assert_eq!(validate_vote(&plain, &vote(&[], None)), Err(invalid("Cannot submit empty vote.")));
    assert_eq!(
        validate_vote(&plain, &vote(&[(0, 1)], Some("Ann"))),
        Err(invalid("Voter name is only allowed for matrix surveys."))
    );
    let matrix = survey(SurveyType::MatrixChoice, 2, vec![stored(&[(0, 1)], Some(" Ann "))]);
    assert_eq!(validate_vote(&matrix, &vote(&[], Some("Bob"))), Err(invalid("Cannot submit empty vote.")));
    assert_eq!(
        validate_vote(&matrix, &vote(&[(0, 1)], None)),
        Err(invalid("Voter name is required for matrix surveys."))
    );
    assert_eq!(
        validate_vote(&matrix, &vote(&[(0, 1)], Some("  "))),
        Err(invalid("Voter name cannot be empty."))
    );
    assert_eq!(
        validate_vote(&matrix, &vote(&[(0, 1)], Some(&"n".repeat(65)))),
        Err(invalid("Voter name too long."))
    );
    assert_eq!(
        validate_vote(&matrix, &vote(&[(0, 1)], Some("ann"))),
        Err(invalid("Voter name has already been used."))
    );
    assert_eq!(
        validate_vote(&matrix, &vote(&[(0, 1)], Some("  ANN"))),
        Err(invalid("Voter name has already been used."))
    );
    assert_eq!(validate_vote(&matrix, &vote(&[(0, 1)], Some(&"n".repeat(64)))), Ok(()));
    assert_eq!(validate_vote(&matrix, &vote(&[(0, 1)], Some("Bob"))), Ok(()));
}

#[test]
fn voter_names_are_compared_without_case_and_margins() {
    let votes = vec![
        stored(&[(0, 1)], None),
        stored(&[(0, 1)], Some("  Émile ")),
        stored(&[(0, 1)], Some("BOB")),
    ];
    assert!(voter_used(&votes, "émile"));
    assert!(voter_used(&votes, " ÉMILE"));
    assert!(voter_used(&votes, "bob"));
    assert!(!voter_used(&votes, "bobby"));
    assert!(!voter_used(&votes, ""));
    assert!(!voter_used(&Vec::new(), "bob"));
}

#[test]
fn accepted_vote_is_stored_as_cast() {
    let matrix = survey(SurveyType::MatrixChoice, 3, Vec::new());
    let request = vote(&[(0, 1), (2, -1)], Some(" Ann "));
    let access = vote_access(&matrix, None, request.clone(), CREATED).unwrap();
    assert_eq!(
        access,
        VoteAccess::Accepted(StoredVote { vote: request.vote.clone(), voter: Some(" Ann ".into()) })
    );
    assert_eq!(
        vote_access(&matrix, None, vote(&[(5, 1)], Some("Ann")), CREATED),
        Err(invalid("Invalid vote index: 5"))
    );
    assert_eq!(
        vote_access(&matrix, None, request.clone(), CREATED + HOUR + 1),
        Err(AskError::Expired)
    );
}

#[test]
fn protected_survey_takes_no_vote_without_its_password() {
    let made = create_survey(&new_survey("t", &["a", "b"], "pw", 1), CREATED).unwrap();
    assert_eq!(
        vote_access(&made, None, vote(&[(0, 1)], None), CREATED),
        Ok(VoteAccess::Refused(protected_response("This survey is password protected.")))
    );
    // the password is asked for before the vote is looked at
    assert_eq!(
        vote_access(&made, Some("no"), vote(&[(9, 1)], None), CREATED),
        Ok(VoteAccess::Refused(protected_response("Incorrect password.")))
    );
    assert!(matches!(
        vote_access(&made, Some("pw"), vote(&[(0, 1)], None), CREATED),
        Ok(VoteAccess::Accepted(_))
    ));
}

#[test]
fn survey_errors_and_their_statuses() {
    let cases = [
        (AskError::Internal("boom".into()), 500, "boom"),
        (AskError::InvalidInput("bad".into()), 400, "bad"),
        (AskError::PasswordHashError("hash".into()), 500, "hash"),
        (AskError::NotFound, 404, "Survey not found"),
        (AskError::Expired, 410, "Survey expired"),
    ];
    for (error, status, message) in cases {
        assert_eq!(error.status(), status);
        assert_eq!(error.message(), message);
    }
}
