use rooster::delivery::{clipboard_report, plan_delivery, DeliveryMode, DeliveryPlan};
use rooster::resolver::{
    check_args, chosen_credential, classify, not_found_message, outcome_status, resolve, Outcome,
    Resolution,
};
use rooster::selection::{parse_selection, range_message, run_selection, Selection};
use rooster::set_master_password;
use rooster::table::{index_width, name_column_width, render_row, render_table};
use rooster::text::usize_to_decimal;
use rooster::uninstall::uninstall_instructions;
use rooster::{Credential, SecretString};

fn cred(name: &str, username: &str, secret: &str) -> Credential {
    Credential {
        name: name.to_string(),
        username: username.to_string(),
        secret: SecretString::new(secret.to_string()),
    }
}

fn lines(items: &[&str]) -> Vec<String> {
    items.iter().map(|s| s.to_string()).collect()
}

#[test]
fn zero_matches_is_success_without_delivery() {
    let matches: Vec<Credential> = Vec::new();
    assert_eq!(classify(&matches, "gmail"), Resolution::NotFound);
    let outcome = resolve(&matches, "gmail", &lines(&[]));
    assert_eq!(outcome, Outcome::NotFound);
    assert_eq!(outcome_status(&outcome), 0);
}

#[test]
fn not_found_message_names_the_query() {
    assert_eq!(
        not_found_message("gmail"),
        "I can't find any passwords for \"gmail\""
    );
}

#[test]
fn exact_name_match_wins_without_prompt() {
    let matches = vec![
        cred("google drive", "a@example.com", "s1"),
        cred("google", "me@example.com", "S3cr3t"),
        cred("googleplus", "b@example.com", "s3"),
    ];
    // Case-insensitive equality picks the exact name even though every
    // entry fuzzily matches; no input line is consulted.
    assert_eq!(classify(&matches, "GOOGLE"), Resolution::Immediate(1));
    let outcome = resolve(&matches, "GOOGLE", &lines(&[]));
    assert_eq!(outcome, Outcome::Resolved(1));
    assert_eq!(outcome_status(&outcome), 0);
}

#[test]
fn case_folding_is_real_not_identity() {
    let matches = vec![cred("GitHub", "me", "s")];
    // Both sides need folding: a wrapper that returned its input
    // unchanged would classify this as ambiguous.
    assert_eq!(classify(&matches, "gIThUB"), Resolution::Immediate(0));
}

#[test]
fn ambiguous_set_needs_disambiguation() {
    let matches = vec![cred("github", "a", "s1"), cred("gitlab", "b", "s2")];
    assert_eq!(classify(&matches, "git"), Resolution::Ambiguous);
}

#[test]
fn table_has_one_indexed_row_per_match() {
    let mut matches = Vec::new();
    for i in 0..12 {
        matches.push(cred(&format!("name{}", i), &format!("user{}", i), "s"));
    }
    let rows = render_table(&matches);
    assert_eq!(rows.len(), 12);
    // floor(log10(12)) + 1 == 2.
    assert_eq!(index_width(12), 2);
    for (i, row) in rows.iter().enumerate() {
        let expected = format!(
            "{:2} {:6} {:30}",
            i + 1,
            format!("name{}", i),
            format!("user{}", i)
        );
        assert_eq!(row, &expected);
    }
}

#[test]
fn index_width_is_digit_count() {
    assert_eq!(index_width(1), 1);
    assert_eq!(index_width(9), 1);
    assert_eq!(index_width(10), 2);
    assert_eq!(index_width(99), 2);
    assert_eq!(index_width(100), 3);
}

#[test]
fn name_column_matches_longest_name() {
    let matches = vec![cred("git", "a", "s"), cred("longername", "b", "s")];
    assert_eq!(name_column_width(&matches), 10);
}

#[test]
fn rendered_row_is_aligned() {
    let row = render_row(2, &"git".to_string(), &"me".to_string(), 3, 5);
    assert_eq!(row, format!("{:3} {:5} {:30}", 2, "git", "me"));
}

#[test]
fn decimal_rendering_is_exact() {
    assert_eq!(usize_to_decimal(0), "0");
    assert_eq!(usize_to_decimal(7), "7");
    assert_eq!(usize_to_decimal(42), "42");
    assert_eq!(usize_to_decimal(90210), "90210");
}

#[test]
fn selection_classifies_lines() {
    assert_eq!(parse_selection("abc", 5), Selection::Invalid);
    assert_eq!(parse_selection("", 5), Selection::Invalid);
    assert_eq!(parse_selection("  \t ", 5), Selection::Invalid);
    assert_eq!(parse_selection("+", 5), Selection::Invalid);
    assert_eq!(parse_selection("1x", 5), Selection::Invalid);
    assert_eq!(parse_selection("0", 5), Selection::OutOfRange);
    assert_eq!(parse_selection("6", 5), Selection::OutOfRange);
    assert_eq!(parse_selection("3", 5), Selection::Chosen(3));
    assert_eq!(parse_selection(" 2\n", 5), Selection::Chosen(2));
    assert_eq!(parse_selection("+4", 5), Selection::Chosen(4));
    // Far beyond the machine range: invalid, not out of range.
    assert_eq!(
        parse_selection("999999999999999999999999999999", 5),
        Selection::Invalid
    );
}

#[test]
fn invalid_lines_only_reprompt() {
    let matches = vec![cred("github", "a", "s1"), cred("gitlab", "b", "s2")];
    // Any number of invalid or out-of-range lines followed by a valid
    // one resolves to that position; the match set is untouched.
    let sel = run_selection(&lines(&["x", "", "0", "3", "1"]), matches.len());
    assert_eq!(sel, Some(1));
    assert_eq!(chosen_credential(&matches, 1).name, "github");
    assert_eq!(matches.len(), 2);
}

#[test]
fn scenario_git_selects_gitlab_after_two_reprompts() {
    let matches = vec![cred("github", "a", "s1"), cred("gitlab", "b", "s2")];
    assert_eq!(classify(&matches, "git"), Resolution::Ambiguous);
    // "abc" re-prompts (not a number), "9" re-prompts (out of range),
    // "2" selects the second entry.
    let input = lines(&["abc", "9", "2"]);
    assert_eq!(run_selection(&input, 2), Some(2));
    let outcome = resolve(&matches, "git", &input);
    assert_eq!(outcome, Outcome::Resolved(1));
    assert_eq!(chosen_credential(&matches, 2).name, "gitlab");
}

#[test]
fn exhausted_input_aborts_cleanly() {
    let matches = vec![cred("github", "a", "s1"), cred("gitlab", "b", "s2")];
    let outcome = resolve(&matches, "git", &lines(&["abc", "9"]));
    assert_eq!(outcome, Outcome::Aborted);
    assert_eq!(outcome_status(&outcome), 1);
}

#[test]
fn range_message_names_the_bound() {
    assert_eq!(
        range_message(17),
        "Sorry, I need a number between 1 and 17. Let's try this again:"
    );
}

#[test]
fn show_mode_prints_secret_once_and_never_copies() {
    let c = cred("google", "me@example.com", "S3cr3t");
    let plan = plan_delivery(&c, DeliveryMode::Show);
    match plan {
        DeliveryPlan::ShowSecret(message) => {
            assert_eq!(
                message,
                "Alright! Here is your password for google: S3cr3t"
            );
            assert!(message.contains("google"));
            assert_eq!(message.matches("S3cr3t").count(), 1);
        }
        DeliveryPlan::CopySecret(_) => panic!("show mode must not touch the clipboard"),
    }
}

#[test]
fn clipboard_mode_hands_secret_to_copy_only() {
    let c = cred("google", "me@example.com", "S3cr3t");
    let plan = plan_delivery(&c, DeliveryMode::Clipboard);
    match plan {
        DeliveryPlan::CopySecret(payload) => {
            assert_eq!(payload.expose().as_str(), "S3cr3t");
        }
        DeliveryPlan::ShowSecret(_) => panic!("clipboard mode must not print the secret"),
    }
    let report = clipboard_report(&"google".to_string(), true, "Ctrl-V");
    assert_eq!(
        report,
        "Alright! You can paste your google password anywhere with Ctrl-V."
    );
    assert!(report.contains("google"));
    assert!(!report.contains("S3cr3t"));
}

#[test]
fn clipboard_failure_suggests_show_and_hides_secret() {
    let report = clipboard_report(&"google".to_string(), false, "Ctrl-V");
    assert_eq!(
        report,
        "Hmm, I tried to copy your new password to your clipboard, but something went \
         wrong. You can see it with `rooster get 'google' --show`"
    );
    assert!(report.contains("--show"));
    assert!(report.contains("google"));
    assert!(!report.contains("S3cr3t"));
}

#[test]
fn missing_query_is_a_usage_error() {
    assert_eq!(check_args(&lines(&["get"])), Err(1));
    assert_eq!(check_args(&lines(&[])), Err(1));
    assert_eq!(check_args(&lines(&["get", "google"])), Ok(()));
}

#[test]
fn master_password_change_needs_matching_confirmation() {
    let ok = set_master_password::callback_exec(
        Some(SecretString::new("hunter2".to_string())),
        Some(SecretString::new("hunter2".to_string())),
    );
    match ok {
        Ok(p) => assert_eq!(p.expose().as_str(), "hunter2"),
        Err(_) => panic!("matching confirmation must succeed"),
    }
    let mismatch = set_master_password::callback_exec(
        Some(SecretString::new("hunter2".to_string())),
        Some(SecretString::new("hunter3".to_string())),
    );
    assert!(matches!(mismatch, Err(1)));
    let first_failed = set_master_password::callback_exec(None, None);
    assert!(matches!(first_failed, Err(1)));
    let second_failed = set_master_password::callback_exec(
        Some(SecretString::new("hunter2".to_string())),
        None,
    );
    assert!(matches!(second_failed, Err(1)));
}

#[test]
fn uninstall_lines_name_both_binaries_and_the_file() {
    let file = "/home/me/.passwords".to_string();
    let r = uninstall_instructions("/usr/bin/rooster", "/usr/bin/rooster-clipboard", Some(&file));
    assert_eq!(r.len(), 8);
    assert_eq!(
        r[0],
        "To uninstall Rooster from your system, run the following commands:"
    );
    assert_eq!(r[1], "");
    assert_eq!(r[2], "    sudo rm /usr/bin/rooster");
    assert_eq!(r[3], "    sudo rm /usr/bin/rooster-clipboard");
    assert_eq!(r[4], "");
    assert_eq!(
        r[5],
        "If you want to remove your password file as well, it is located at:"
    );
    assert_eq!(r[6], "");
    assert_eq!(r[7], "    /home/me/.passwords");

    let short = uninstall_instructions("/a/rooster", "/a/rooster-clipboard", None);
    assert_eq!(short.len(), 4);
}
