use feed_ingest::article::ArticleCandidate;
use feed_ingest::auth::{
    judge_login, login_reply, AuthReply, SignupAction, SignupEnd, SignupFlow, SignupStep,
    StoredUser, HASH_COST,
};
use feed_ingest::error::{AppError, Error};
use feed_ingest::feed::UtcInstant;
use feed_ingest::forms::{LoginForm, SignupForm};
use feed_ingest::home::{display_article, HOME_TAG_LIMIT};
use feed_ingest::state::StateError;
use feed_ingest::timeago::{decimal_text, format_time_ago};
use feed_ingest::toast::ToastKind;

fn signup() -> SignupFlow {
    SignupFlow::new(SignupForm {
        email: "ann@example.org".to_string(),
        password: "correct horse".to_string(),
        username: "ann".to_string(),
    })
}

fn user(hash: &str) -> StoredUser {
    StoredUser { id: 7, username: "ann".to_string(), password_hash: hash.to_string() }
}

#[test]
fn decimal_text_writes_numbers() {
    assert_eq!(decimal_text(0), "0");
    assert_eq!(decimal_text(7), "7");
    assert_eq!(decimal_text(10), "10");
    assert_eq!(decimal_text(1234567890), "1234567890");
    assert_eq!(decimal_text(u64::MAX), "18446744073709551615");
}

#[test]
fn under_a_minute_is_just_now() {
    assert_eq!(format_time_ago(1000, 1000), "just now");
    assert_eq!(format_time_ago(1059, 1000), "just now");
    assert_eq!(format_time_ago(1000, 5000), "just now");
}

#[test]
fn minutes_hours_and_days_are_counted() {
    assert_eq!(format_time_ago(1060, 1000), "1 minute ago");
    assert_eq!(format_time_ago(1000 + 119, 1000), "1 minute ago");
    assert_eq!(format_time_ago(1000 + 120, 1000), "2 minutes ago");
    assert_eq!(format_time_ago(1000 + 3599, 1000), "59 minutes ago");
    assert_eq!(format_time_ago(1000 + 3600, 1000), "1 hour ago");
    assert_eq!(format_time_ago(1000 + 7200, 1000), "2 hours ago");
    assert_eq!(format_time_ago(1000 + 86399, 1000), "23 hours ago");
    assert_eq!(format_time_ago(1000 + 86400, 1000), "1 day ago");
    assert_eq!(format_time_ago(1000 + 10 * 86400, 1000), "10 days ago");
}

#[test]
fn extreme_instants_do_not_overflow() {
    assert_eq!(format_time_ago(i64::MAX, i64::MIN), "213503982334601 days ago");
    assert_eq!(format_time_ago(i64::MIN, i64::MAX), "just now");
}

#[test]
fn request_errors_have_their_status() {
    assert_eq!(AppError::NotFound.status_code(), 404);
    assert_eq!(AppError::EmailExists.status_code(), 409);
    assert_eq!(AppError::InvalidCredentials.status_code(), 401);
    assert_eq!(AppError::Io.status_code(), 500);
    assert_eq!(AppError::State(StateError::MissingState).status_code(), 500);
    assert_eq!(AppError::DatabaseError.status_code(), 500);
    assert_eq!(AppError::HashError.status_code(), 500);
}

#[test]
fn request_errors_have_their_messages() {
    assert_eq!(AppError::NotFound.message(), "Resource not found");
    assert_eq!(AppError::Io.message(), "IO error");
    assert_eq!(AppError::State(StateError::InitState).message(), "App state");
    assert_eq!(AppError::DatabaseError.message(), "Database error");
    assert_eq!(AppError::EmailExists.message(), "Email already exists");
    assert_eq!(AppError::HashError.message(), "Password hashing error");
    assert_eq!(AppError::InvalidCredentials.message(), "Invalid credentials");
}

#[test]
fn program_errors_have_their_messages() {
    assert_eq!(Error::Bind.message(), "Error binding the port to the server");
    assert_eq!(Error::Run.message(), "Error running the server");
    assert_eq!(Error::State(StateError::MissingState).message(), "Error with app state");
    assert_eq!(Error::InitDb.message(), "Error initializing the database");
    assert_eq!(Error::GregError.message(), "RSS feed aggregation error");
}

#[test]
fn signup_looks_up_email_then_username_then_stores() {
    let mut flow = signup();
    assert_eq!(flow.step(), SignupStep::CheckEmail);
    assert!(matches!(flow.pending(), SignupAction::FindEmail { email } if email == "ann@example.org"));
    flow.looked_up(Some(false));
    assert!(matches!(flow.pending(), SignupAction::FindUsername { username } if username == "ann"));
    flow.looked_up_with(Some(false), Some("HASH".to_string()));
    match flow.pending() {
        SignupAction::InsertUser { email, password_hash, username } => {
            assert_eq!(email, "ann@example.org");
            assert_eq!(password_hash, "HASH");
            assert_eq!(username, "ann");
        },
        other => panic!("an insert was expected, not {other:?}"),
    }
    flow.stored(Some(42));
    assert_eq!(flow.end(), Some(SignupEnd::Stored { user_id: 42 }));
    match flow.pending() {
        SignupAction::Reply { reply: AuthReply::Welcomed { toast, user_id, username } } => {
            assert_eq!(toast.kind, ToastKind::Success);
            assert_eq!(toast.title, "");
            assert_eq!(toast.message, "Welcome to EpiFlipBoard!");
            assert_eq!(user_id, 42);
            assert_eq!(username, "ann");
        },
        other => panic!("a welcome was expected, not {other:?}"),
    }
}

#[test]
fn signup_hashes_the_password_of_the_form() {
    assert_eq!(HASH_COST, 12);
    let mut flow = signup();
    flow.looked_up(Some(false));
    flow.looked_up(Some(false));
    match flow.pending() {
        SignupAction::InsertUser { password_hash, .. } => {
            assert_ne!(password_hash, "correct horse");
            assert_eq!(bcrypt::verify("correct horse", &password_hash).unwrap(), true);
            assert_eq!(bcrypt::verify("wrong", &password_hash).unwrap(), false);
        },
        other => panic!("an insert was expected, not {other:?}"),
    }
}

#[test]
fn signup_turns_down_a_registered_email() {
    let mut flow = signup();
    flow.looked_up(Some(true));
    assert_eq!(flow.step(), SignupStep::Done);
    assert_eq!(flow.end(), Some(SignupEnd::EmailTaken));
    match flow.pending() {
        SignupAction::Reply { reply: AuthReply::Rejected { toast } } => {
            assert_eq!(toast.kind, ToastKind::Error);
            assert_eq!(toast.title, "Email exists");
            assert_eq!(toast.message, "This email is already registered");
        },
        other => panic!("a rejection was expected, not {other:?}"),
    }
}

#[test]
fn signup_turns_down_a_taken_username() {
    let mut flow = signup();
    flow.looked_up(Some(false));
    flow.looked_up(Some(true));
    assert_eq!(flow.end(), Some(SignupEnd::UsernameTaken));
    match flow.pending() {
        SignupAction::Reply { reply: AuthReply::Rejected { toast } } => {
            assert_eq!(toast.title, "Username exists");
            assert_eq!(toast.message, "This username is already taken");
        },
        other => panic!("a rejection was expected, not {other:?}"),
    }
}

#[test]
fn signup_fails_on_database_and_hash_errors() {
    let mut lookup = signup();
    lookup.looked_up(None);
    assert_eq!(lookup.end(), Some(SignupEnd::LookupFailed));
    assert!(matches!(lookup.pending(), SignupAction::Fail { error: AppError::DatabaseError }));

    let mut second = signup();
    second.looked_up(Some(false));
    second.looked_up(None);
    assert_eq!(second.end(), Some(SignupEnd::LookupFailed));

    let mut hash = signup();
    hash.looked_up(Some(false));
    hash.looked_up_with(Some(false), None);
    assert_eq!(hash.end(), Some(SignupEnd::HashFailed));
    assert!(matches!(hash.pending(), SignupAction::Fail { error: AppError::HashError }));

    let mut store = signup();
    store.looked_up(Some(false));
    store.looked_up_with(Some(false), Some("H".to_string()));
    store.stored(None);
    assert_eq!(store.end(), Some(SignupEnd::StoreFailed));
    assert!(matches!(store.pending(), SignupAction::Fail { error: AppError::DatabaseError }));
}

#[test]
fn signup_ignores_events_out_of_turn() {
    let mut flow = signup();
    flow.stored(Some(1));
    assert_eq!(flow.step(), SignupStep::CheckEmail);
    flow.looked_up(Some(true));
    flow.looked_up(Some(false));
    flow.stored(Some(1));
    assert_eq!(flow.end(), Some(SignupEnd::EmailTaken));
}

#[test]
fn login_with_the_right_password_lets_the_user_in() {
    let hash = bcrypt::hash("correct horse", 4).unwrap();
    let form = LoginForm { email: "ann@example.org".to_string(), password: "correct horse".to_string() };
    match login_reply(&form, Some(&user(&hash))).unwrap() {
        AuthReply::Welcomed { toast, user_id, username } => {
            assert_eq!(toast.kind, ToastKind::Success);
            assert_eq!(toast.title, "");
            assert_eq!(toast.message, "Welcome back, ann!");
            assert_eq!(user_id, 7);
            assert_eq!(username, "ann");
        },
        other => panic!("a welcome was expected, not {other:?}"),
    }
}

#[test]
fn login_with_a_wrong_password_or_unknown_email_is_turned_down_alike() {
    let hash = bcrypt::hash("correct horse", 4).unwrap();
    let form = LoginForm { email: "ann@example.org".to_string(), password: "wrong".to_string() };
    for found in [Some(user(&hash)), None] {
        match login_reply(&form, found.as_ref()).unwrap() {
            AuthReply::Rejected { toast } => {
                assert_eq!(toast.kind, ToastKind::Error);
                assert_eq!(toast.title, "Login failed");
                assert_eq!(toast.message, "Invalid email or password");
            },
            other => panic!("a rejection was expected, not {other:?}"),
        }
    }
}

#[test]
fn login_against_an_unreadable_hash_is_an_error() {
    let form = LoginForm { email: "ann@example.org".to_string(), password: "x".to_string() };
    assert!(matches!(login_reply(&form, Some(&user("not a hash"))), Err(AppError::HashError)));
}

#[test]
fn judge_login_follows_the_verdict() {
    assert!(matches!(judge_login(&user("h"), None), Err(AppError::HashError)));
    assert!(matches!(judge_login(&user("h"), Some(false)), Ok(AuthReply::Rejected { .. })));
    assert!(matches!(
        judge_login(&user("h"), Some(true)),
        Ok(AuthReply::Welcomed { user_id: 7, .. })
    ));
}

#[test]
fn home_shows_an_article_with_its_age() {
    assert_eq!(HOME_TAG_LIMIT, 9);
    let article = ArticleCandidate {
        title: "T".to_string(),
        authors: "A".to_string(),
        publisher: "Pub".to_string(),
        description: "D".to_string(),
        content: "C".to_string(),
        original_url: "https://example.org/a".to_string(),
        tag: "TECH".to_string(),
        image_url: "https://img.example.org/a.jpg".to_string(),
        published_at: UtcInstant { secs: 1_000, nanos: 0 },
        created_at: UtcInstant { secs: 2_000, nanos: 0 },
    };
    let shown = display_article(&article, 1_000 + 3 * 3600 + 5);
    assert_eq!(shown.time_ago, "3 hours ago");
    assert_eq!(shown.title, "T");
    assert_eq!(shown.authors, "A");
    assert_eq!(shown.publishers, "Pub");
    assert_eq!(shown.description, "D");
    assert_eq!(shown.content, "C");
    assert_eq!(shown.original_url, "https://example.org/a");
    assert_eq!(shown.tag, "TECH");
    assert_eq!(shown.image_url, "https://img.example.org/a.jpg");
}
