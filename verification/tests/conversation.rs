use rust_bot::conversation::{
    inbound, AfterSend, CardRequest, Dispatch, Step, CARD_CAPTION, INVALID_CHOICE,
    INVALID_GREETING,
};
use rust_bot::dispatch::SendReport;
use rust_bot::document::CardReport;
use rust_bot::exchange::Services;
use rust_bot::failure::Failure;
use rust_bot::user_state::{UserState, ASK_PRODUCT_NAME, ASK_PURCHASE_DATE, WELCOME};
use rust_bot::workflow::WorkflowStage;

const USER: &str = "whatsapp:+15550100";
const STORE: &str = "http://localhost:8080";

fn sent_well() -> SendReport {
    SendReport::Answered { success: true }
}

fn not_sent() -> SendReport {
    SendReport::Answered { success: false }
}

fn card_made(path: &str) -> CardReport {
    CardReport::Answered { success: true, download_url: Some(path.to_string()) }
}

fn expect_send(step: Step) -> Dispatch {
    match step {
        Step::Send(dispatch) => dispatch,
        other => panic!("expected a message to send, got {:?}", other),
    }
}

fn expect_generate(step: Step) -> CardRequest {
    match step {
        Step::Generate(request) => request,
        other => panic!("expected a card to request, got {:?}", other),
    }
}

fn expect_done(step: Step) -> Result<(), Failure> {
    match step {
        Step::Done(outcome) => outcome,
        other => panic!("expected the end of the exchange, got {:?}", other),
    }
}

/// Handles one message as a caller does, step by step, with services that
/// answer as told.
fn walk(state: &mut UserState, body: &str, services: &Services) -> Result<(), Failure> {
    let message = inbound(body, USER);
    let mut step = state.process_message(message.body, message.from);
    loop {
        step = match step {
            Step::Send(dispatch) => {
                let report = match dispatch.after {
                    AfterSend::Finish { .. } => &services.link,
                    _ => &services.text,
                };
                state.sent(dispatch, report)
            }
            Step::Generate(request) => {
                request.generated(&services.card, &services.download_service)
            }
            Step::Done(outcome) => return outcome,
        };
    }
}

fn services(text: SendReport, card: CardReport, link: SendReport) -> Services {
    Services { text, card, link, download_service: STORE.to_string() }
}

/// Handles one message with services that answer as told.
fn exchange(
    state: &mut UserState,
    body: &str,
    text: SendReport,
    card: CardReport,
    link: SendReport,
) -> Result<(), Failure> {
    let message = inbound(body, USER);
    state.handle(message.body, message.from, &services(text, card, link))
}

/// Handles one message with services that all do their part.
fn say(state: &mut UserState, body: &str) {
    let outcome = exchange(state, body, sent_well(), card_made("/download/card.pdf"), sent_well());
    assert!(outcome.is_ok());
}

/// A record that stands at `stage`, reached by the answers "a" to "e".
fn state_at(stage: WorkflowStage) -> UserState {
    let mut state = UserState::default();
    let path = ["Hi", "1", "a", "b", "c", "d", "e"];
    let mut taken = 0;
    while state.stage() != stage {
        say(&mut state, path[taken]);
        taken += 1;
    }
    state
}

fn text(value: &Option<String>) -> Option<&str> {
    value.as_deref()
}

#[test]
fn new_record_is_at_greeting_and_empty() {
    let state = UserState::default();
    assert_eq!(state.stage(), WorkflowStage::Greeting);
    assert_eq!(text(state.product_name()), None);
    assert_eq!(text(state.purchase_date()), None);
    assert_eq!(text(state.warranty_duration()), None);
    assert_eq!(text(state.customer_name()), None);
    assert_eq!(text(state.serial_number()), None);
    assert_eq!(text(state.additional_terms()), None);
    let previous = state.previous_state();
    assert_eq!(text(&previous.product_name), None);
    assert_eq!(text(&previous.purchase_date), None);
    assert_eq!(text(&previous.warranty_duration), None);
    assert_eq!(text(&previous.customer_name), None);
    assert_eq!(text(&previous.serial_number), None);
    assert_eq!(text(&previous.additional_terms), None);
}

#[test]
fn greeting_with_hi_sends_the_welcome() {
    let mut state = UserState::default();
    let dispatch = expect_send(state.process_message("Hi", USER));
    assert_eq!(dispatch.to, USER);
    assert_eq!(dispatch.body, WELCOME);
    assert_eq!(dispatch.media_url, None);
    assert_eq!(dispatch.after, AfterSend::Advance);
    assert_eq!(state.stage(), WorkflowStage::Greeting);
}

#[test]
fn greeting_with_hi_becomes_product_name() {
    let mut state = UserState::default();
    let dispatch = expect_send(state.process_message("Hi", USER));
    let outcome = expect_done(state.sent(dispatch, &sent_well()));
    assert!(outcome.is_ok());
    assert_eq!(state.stage(), WorkflowStage::ProductName);
}

#[test]
fn greeting_with_anything_else_stays_at_greeting() {
    for body in ["hi", "Hi!", "Hello", "", "1", "2", " Hi", "HI"] {
        let mut state = UserState::default();
        let dispatch = expect_send(state.process_message(body, USER));
        assert_eq!(dispatch.to, USER);
        assert_eq!(dispatch.body, INVALID_GREETING);
        assert_eq!(dispatch.body, "Invalid response. Valid responses ['Hi']");
        assert_eq!(dispatch.media_url, None);
        assert_eq!(dispatch.after, AfterSend::Stay);
        let outcome = expect_done(state.sent(dispatch, &sent_well()));
        assert!(outcome.is_ok());
        assert_eq!(state.stage(), WorkflowStage::Greeting);
    }
}

#[test]
fn choice_of_a_new_card_asks_for_the_product_name() {
    let mut state = state_at(WorkflowStage::ProductName);
    let dispatch = expect_send(state.process_message("1", USER));
    assert_eq!(dispatch.body, ASK_PRODUCT_NAME);
    assert_eq!(dispatch.after, AfterSend::Advance);
    assert!(expect_done(state.sent(dispatch, &sent_well())).is_ok());
    assert_eq!(state.stage(), WorkflowStage::PurchaseDate);
    assert_eq!(text(state.product_name()), None);
}

#[test]
fn any_other_choice_is_invalid() {
    for body in ["3", "Hi", "", "12", "one"] {
        let mut state = state_at(WorkflowStage::ProductName);
        let dispatch = expect_send(state.process_message(body, USER));
        assert_eq!(dispatch.body, INVALID_CHOICE);
        assert_eq!(dispatch.body, "Invalid response. Valid responses ['1', '2']");
        assert_eq!(dispatch.after, AfterSend::Stay);
        assert!(expect_done(state.sent(dispatch, &sent_well())).is_ok());
        assert_eq!(state.stage(), WorkflowStage::ProductName);
    }
}

#[test]
fn each_answer_is_stored_at_its_stage() {
    let mut state = state_at(WorkflowStage::PurchaseDate);

    let dispatch = expect_send(state.process_message("Laptop", USER));
    assert_eq!(text(state.product_name()), Some("Laptop"));
    assert_eq!(state.stage(), WorkflowStage::PurchaseDate);
    assert_eq!(dispatch.body, ASK_PURCHASE_DATE);
    assert!(expect_done(state.sent(dispatch, &sent_well())).is_ok());
    assert_eq!(state.stage(), WorkflowStage::WarrantyDuration);

    say(&mut state, "2024-01-15");
    assert_eq!(text(state.purchase_date()), Some("2024-01-15"));
    assert_eq!(state.stage(), WorkflowStage::CustomerName);

    say(&mut state, "2 years");
    assert_eq!(text(state.warranty_duration()), Some("2 years"));
    assert_eq!(state.stage(), WorkflowStage::SerialNumber);

    say(&mut state, "Ada Lovelace");
    assert_eq!(text(state.customer_name()), Some("Ada Lovelace"));
    assert_eq!(state.stage(), WorkflowStage::AdditionalWarrantyTerms);

    say(&mut state, "SN-42");
    assert_eq!(text(state.serial_number()), Some("SN-42"));
    assert_eq!(state.stage(), WorkflowStage::WarrantyCard);

    assert_eq!(text(state.product_name()), Some("Laptop"));
    assert_eq!(text(state.additional_terms()), None);
}

#[test]
fn an_empty_answer_is_stored_as_it_is() {
    let mut state = state_at(WorkflowStage::PurchaseDate);
    say(&mut state, "");
    assert_eq!(text(state.product_name()), Some(""));
    assert_eq!(state.stage(), WorkflowStage::WarrantyDuration);
}

#[test]
fn a_command_word_is_an_answer_like_any_other() {
    let mut state = state_at(WorkflowStage::PurchaseDate);
    say(&mut state, "Hi");
    say(&mut state, "2");
    assert_eq!(text(state.product_name()), Some("Hi"));
    assert_eq!(text(state.purchase_date()), Some("2"));
    assert_eq!(state.stage(), WorkflowStage::CustomerName);
}

#[test]
fn full_round_ends_at_greeting_with_the_answers_remembered() {
    let mut state = UserState::default();
    for body in ["Hi", "1", "Laptop", "2024-01-15", "2 years", "Ada Lovelace", "SN-42", "none"] {
        say(&mut state, body);
    }
    assert_eq!(state.stage(), WorkflowStage::Greeting);
    assert_eq!(text(state.product_name()), None);
    assert_eq!(text(state.purchase_date()), None);
    assert_eq!(text(state.warranty_duration()), None);
    assert_eq!(text(state.customer_name()), None);
    assert_eq!(text(state.serial_number()), None);
    assert_eq!(text(state.additional_terms()), None);
    let previous = state.previous_state();
    assert_eq!(text(&previous.product_name), Some("Laptop"));
    assert_eq!(text(&previous.purchase_date), Some("2024-01-15"));
    assert_eq!(text(&previous.warranty_duration), Some("2 years"));
    assert_eq!(text(&previous.customer_name), Some("Ada Lovelace"));
    assert_eq!(text(&previous.serial_number), Some("SN-42"));
    assert_eq!(text(&previous.additional_terms), Some("none"));
}

#[test]
fn last_answer_walks_through_notice_card_and_link() {
    let mut state = state_at(WorkflowStage::WarrantyCard);

    let notice = expect_send(state.process_message("no terms", USER));
    assert_eq!(text(state.additional_terms()), Some("no terms"));
    assert_eq!(notice.to, USER);
    assert_eq!(
        notice.body,
        "Generating your warranty card for a purchased on b with a c warranty..."
    );
    assert_eq!(notice.media_url, None);
    assert_eq!(notice.after, AfterSend::AdvanceAndGenerate);
    assert_eq!(state.stage(), WorkflowStage::WarrantyCard);

    let request = expect_generate(state.sent(notice, &sent_well()));
    assert_eq!(state.stage(), WorkflowStage::Greeting);
    assert!(request.cycle);
    assert_eq!(request.info.product_name, "a");
    assert_eq!(request.info.purchase_date, "b");
    assert_eq!(request.info.warranty_duration, "c");
    assert_eq!(request.info.customer_name, "d");
    assert_eq!(request.info.serial_number, "e");
    assert_eq!(request.info.additional_terms, "no terms");
    assert_eq!(request.info.from, USER);
    assert_eq!(text(state.product_name()), Some("a"));

    let link = expect_send(request.generated(&card_made("/download/a.pdf"), STORE));
    assert_eq!(link.to, USER);
    assert_eq!(link.body, CARD_CAPTION);
    assert_eq!(link.body, "Warranty Card");
    assert_eq!(text(&link.media_url), Some("http://localhost:8080/download/a.pdf"));
    assert_eq!(link.after, AfterSend::Finish { cycle: true });
    assert_eq!(text(state.product_name()), Some("a"));
    assert_eq!(text(&state.previous_state().product_name), None);

    assert!(expect_done(state.sent(link, &sent_well())).is_ok());
    assert_eq!(state.stage(), WorkflowStage::Greeting);
    assert_eq!(text(state.product_name()), None);
    assert_eq!(text(&state.previous_state().product_name), Some("a"));
    assert_eq!(text(&state.previous_state().additional_terms), Some("no terms"));
}

#[test]
fn replay_before_any_round_requests_a_card_of_placeholders() {
    let mut state = UserState::default();
    say(&mut state, "Hi");
    let request = expect_generate(state.process_message("2", USER));
    assert!(!request.cycle);
    assert_eq!(request.info.product_name, "Product Name");
    assert_eq!(request.info.purchase_date, "XX-XX-XXXX");
    assert_eq!(request.info.warranty_duration, "X Years");
    assert_eq!(request.info.customer_name, "Customer Name");
    assert_eq!(request.info.serial_number, "S No");
    assert_eq!(request.info.additional_terms, "None");
    assert_eq!(request.info.from, USER);
    assert_eq!(state.stage(), WorkflowStage::ProductName);
}

#[test]
fn replay_uses_the_remembered_answers_and_not_the_new_ones() {
    let mut state = UserState::default();
    for body in ["Hi", "1", "Laptop", "2024-01-15", "2 years", "Ada Lovelace", "SN-42", "none"] {
        say(&mut state, body);
    }
    for body in ["Hi", "1", "Phone", "/reset", "Hi"] {
        say(&mut state, body);
    }
    assert_eq!(state.stage(), WorkflowStage::ProductName);
    assert_eq!(text(state.product_name()), Some("Phone"));

    let request = expect_generate(state.process_message("2", USER));
    assert!(!request.cycle);
    assert_eq!(request.info.product_name, "Laptop");
    assert_eq!(request.info.purchase_date, "2024-01-15");
    assert_eq!(request.info.warranty_duration, "2 years");
    assert_eq!(request.info.customer_name, "Ada Lovelace");
    assert_eq!(request.info.serial_number, "SN-42");
    assert_eq!(request.info.additional_terms, "none");

    let link = expect_send(request.generated(&card_made("/download/old.pdf"), STORE));
    assert_eq!(link.after, AfterSend::Finish { cycle: false });
    assert_eq!(text(&link.media_url), Some("http://localhost:8080/download/old.pdf"));
    assert!(expect_done(state.sent(link, &sent_well())).is_ok());

    assert_eq!(state.stage(), WorkflowStage::ProductName);
    assert_eq!(text(state.product_name()), Some("Phone"));
    assert_eq!(text(&state.previous_state().product_name), Some("Laptop"));
}

#[test]
fn reset_at_any_stage_goes_to_greeting_and_keeps_every_answer() {
    let stages = [
        WorkflowStage::Greeting,
        WorkflowStage::ProductName,
        WorkflowStage::PurchaseDate,
        WorkflowStage::WarrantyDuration,
        WorkflowStage::CustomerName,
        WorkflowStage::SerialNumber,
        WorkflowStage::AdditionalWarrantyTerms,
        WorkflowStage::WarrantyCard,
    ];
    for stage in stages {
        let mut state = state_at(stage);
        let before = state_at(stage);
        let dispatch = expect_send(state.process_message("/reset", USER));
        assert_eq!(state.stage(), WorkflowStage::Greeting);
        assert_eq!(dispatch.body, INVALID_GREETING);
        assert_eq!(dispatch.after, AfterSend::Stay);
        assert!(expect_done(state.sent(dispatch, &sent_well())).is_ok());
        assert_eq!(state.stage(), WorkflowStage::Greeting);
        assert_eq!(state.product_name(), before.product_name());
        assert_eq!(state.purchase_date(), before.purchase_date());
        assert_eq!(state.warranty_duration(), before.warranty_duration());
        assert_eq!(state.customer_name(), before.customer_name());
        assert_eq!(state.serial_number(), before.serial_number());
        assert_eq!(state.additional_terms(), before.additional_terms());
    }
}

#[test]
fn reset_keeps_what_is_remembered() {
    let mut state = UserState::default();
    for body in ["Hi", "1", "Laptop", "2024-01-15", "2 years", "Ada Lovelace", "SN-42", "none"] {
        say(&mut state, body);
    }
    for body in ["Hi", "1", "Phone", "/reset"] {
        say(&mut state, body);
    }
    assert_eq!(state.stage(), WorkflowStage::Greeting);
    assert_eq!(text(state.product_name()), Some("Phone"));
    assert_eq!(text(&state.previous_state().product_name), Some("Laptop"));
    assert_eq!(text(&state.previous_state().additional_terms), Some("none"));
}

#[test]
fn failed_send_from_product_name_keeps_the_stage() {
    let mut state = state_at(WorkflowStage::ProductName);
    let dispatch = expect_send(state.process_message("1", USER));
    let outcome = expect_done(state.sent(dispatch, &not_sent()));
    assert!(outcome.is_ok());
    assert_eq!(state.stage(), WorkflowStage::ProductName);
}

#[test]
fn failed_send_without_an_answer_keeps_the_stage() {
    let mut state = UserState::default();
    let dispatch = expect_send(state.process_message("Hi", USER));
    let report = SendReport::Failed { reason: "connection refused".to_string() };
    assert!(expect_done(state.sent(dispatch, &report)).is_ok());
    assert_eq!(state.stage(), WorkflowStage::Greeting);
}

#[test]
fn failed_send_keeps_the_answer_that_was_given() {
    let mut state = state_at(WorkflowStage::PurchaseDate);
    let dispatch = expect_send(state.process_message("Laptop", USER));
    assert!(expect_done(state.sent(dispatch, &not_sent())).is_ok());
    assert_eq!(state.stage(), WorkflowStage::PurchaseDate);
    assert_eq!(text(state.product_name()), Some("Laptop"));

    say(&mut state, "Desktop");
    assert_eq!(state.stage(), WorkflowStage::WarrantyDuration);
    assert_eq!(text(state.product_name()), Some("Desktop"));
}

#[test]
fn card_that_is_not_generated_fails_the_exchange_and_completes_nothing() {
    let mut state = state_at(WorkflowStage::WarrantyCard);
    let refused = CardReport::Answered { success: false, download_url: None };
    let outcome = exchange(&mut state, "none", sent_well(), refused, sent_well());
    assert!(matches!(outcome, Err(Failure::ServiceRejected)));
    assert_eq!(state.stage(), WorkflowStage::Greeting);
    assert_eq!(text(state.product_name()), Some("a"));
    assert_eq!(text(state.additional_terms()), Some("none"));
    assert_eq!(text(&state.previous_state().product_name), None);
}

#[test]
fn card_without_a_path_fails_the_exchange() {
    let mut state = state_at(WorkflowStage::WarrantyCard);
    let notice = expect_send(state.process_message("none", USER));
    let request = expect_generate(state.sent(notice, &sent_well()));
    let nameless = CardReport::Answered { success: true, download_url: None };
    let outcome = expect_done(request.generated(&nameless, STORE));
    assert!(matches!(outcome, Err(Failure::NoDownloadPath)));
    assert_eq!(text(state.product_name()), Some("a"));
    assert_eq!(text(&state.previous_state().product_name), None);
}

#[test]
fn unreachable_document_service_fails_the_exchange_with_its_reason() {
    let mut state = state_at(WorkflowStage::WarrantyCard);
    let report = CardReport::Failed { reason: "timed out".to_string() };
    let outcome = exchange(&mut state, "none", sent_well(), report, sent_well());
    match outcome {
        Err(Failure::Request(reason)) => assert_eq!(reason, "timed out"),
        other => panic!("expected a failed request, got {:?}", other),
    }
    assert_eq!(text(&state.previous_state().product_name), None);
}

#[test]
fn link_that_is_not_sent_fails_the_exchange_and_completes_nothing() {
    let mut state = state_at(WorkflowStage::WarrantyCard);
    let outcome = exchange(&mut state, "none", sent_well(), card_made("/download/a.pdf"), not_sent());
    assert!(matches!(outcome, Err(Failure::MessageRejected)));
    assert_eq!(state.stage(), WorkflowStage::Greeting);
    assert_eq!(text(state.product_name()), Some("a"));
    assert_eq!(text(&state.previous_state().product_name), None);
}

#[test]
fn notice_that_is_not_sent_ends_the_exchange_and_completes_nothing() {
    let mut state = state_at(WorkflowStage::WarrantyCard);
    let notice = expect_send(state.process_message("none", USER));
    assert_eq!(notice.after, AfterSend::AdvanceAndGenerate);
    assert!(expect_done(state.sent(notice, &not_sent())).is_ok());
    assert_eq!(state.stage(), WorkflowStage::WarrantyCard);
    assert_eq!(text(state.product_name()), Some("a"));
    assert_eq!(text(state.serial_number()), Some("e"));
    assert_eq!(text(state.additional_terms()), Some("none"));
    let previous = state.previous_state();
    assert_eq!(text(&previous.product_name), None);
    assert_eq!(text(&previous.purchase_date), None);
    assert_eq!(text(&previous.warranty_duration), None);
    assert_eq!(text(&previous.customer_name), None);
    assert_eq!(text(&previous.serial_number), None);
    assert_eq!(text(&previous.additional_terms), None);
}

#[test]
fn unsent_notice_completes_nothing_whatever_the_other_services_do() {
    let cards: [fn() -> CardReport; 4] = [
        || CardReport::Answered { success: true, download_url: Some("/download/a.pdf".to_string()) },
        || CardReport::Answered { success: false, download_url: None },
        || CardReport::Answered { success: true, download_url: None },
        || CardReport::Failed { reason: "down".to_string() },
    ];
    for card in cards {
        for link_sent in [true, false] {
            let mut state = UserState::default();
            for body in ["Hi", "1", "old", "b", "c", "d", "e", "f"] {
                say(&mut state, body);
            }
            for body in ["Hi", "1", "a", "b", "c", "d", "e"] {
                say(&mut state, body);
            }
            assert_eq!(state.stage(), WorkflowStage::WarrantyCard);
            let unsent = SendReport::Failed { reason: "no route".to_string() };
            let link = SendReport::Answered { success: link_sent };
            let outcome = state.handle("none", USER, &services(unsent, card(), link));
            assert!(outcome.is_ok());
            assert_eq!(state.stage(), WorkflowStage::WarrantyCard);
            assert_eq!(text(state.product_name()), Some("a"));
            assert_eq!(text(state.additional_terms()), Some("none"));
            assert_eq!(text(&state.previous_state().product_name), Some("old"));
            assert_eq!(text(&state.previous_state().additional_terms), Some("f"));
        }
    }
}

#[test]
fn round_is_completed_when_the_last_answer_is_sent_again() {
    let mut state = state_at(WorkflowStage::WarrantyCard);
    let outcome =
        exchange(&mut state, "first try", not_sent(), card_made("/download/a.pdf"), sent_well());
    assert!(outcome.is_ok());
    assert_eq!(state.stage(), WorkflowStage::WarrantyCard);
    assert_eq!(text(state.additional_terms()), Some("first try"));

    say(&mut state, "second try");
    assert_eq!(state.stage(), WorkflowStage::Greeting);
    assert_eq!(text(state.additional_terms()), None);
    assert_eq!(text(&state.previous_state().product_name), Some("a"));
    assert_eq!(text(&state.previous_state().additional_terms), Some("second try"));
}

#[test]
fn failed_replay_changes_nothing() {
    let mut state = state_at(WorkflowStage::ProductName);
    let refused = CardReport::Answered { success: false, download_url: None };
    let outcome = exchange(&mut state, "2", sent_well(), refused, sent_well());
    assert!(matches!(outcome, Err(Failure::ServiceRejected)));
    assert_eq!(state.stage(), WorkflowStage::ProductName);
}

#[test]
fn inbound_trims_body_and_sender() {
    let message = inbound("  Hi \n", "\t whatsapp:+15550100  ");
    assert_eq!(message.body, "Hi");
    assert_eq!(message.from, "whatsapp:+15550100");
}

#[test]
fn inbound_keeps_the_white_space_inside() {
    let message = inbound(" 2 years ", USER);
    assert_eq!(message.body, "2 years");
    assert_eq!(message.from, USER);
}

#[test]
fn inbound_trims_every_white_space_character_and_no_other() {
    let white = [
        (0x09, 0x0D),
        (0x20, 0x20),
        (0x85, 0x85),
        (0xA0, 0xA0),
        (0x1680, 0x1680),
        (0x2000, 0x200A),
        (0x2028, 0x2029),
        (0x202F, 0x202F),
        (0x205F, 0x205F),
        (0x3000, 0x3000),
    ];
    let mut trimmed = 0;
    for code in 0..=0x10FFFF_u32 {
        let c = match char::from_u32(code) {
            Some(c) => c,
            None => continue,
        };
        let padded = format!("{c}{c}x y{c}");
        let message = inbound(&padded, &padded);
        if white.iter().any(|&(first, last)| first <= code && code <= last) {
            assert_eq!(message.body, "x y", "U+{:04X} is white space", code);
            assert_eq!(message.from, "x y", "U+{:04X} is white space", code);
            trimmed += 1;
        } else {
            assert_eq!(message.body, padded, "U+{:04X} is no white space", code);
            assert_eq!(message.from, padded, "U+{:04X} is no white space", code);
        }
    }
    assert_eq!(trimmed, 25);
}

#[test]
fn inbound_of_white_space_alone_is_empty() {
    let message = inbound(" \t\r\n\u{3000}", "");
    assert_eq!(message.body, "");
    assert_eq!(message.from, "");
}

#[test]
fn inbound_trims_only_as_far_as_the_first_other_character() {
    let message = inbound(" \u{200B} Hi \u{FEFF}\n", "\n a \n b \n");
    assert_eq!(message.body, "\u{200B} Hi \u{FEFF}");
    assert_eq!(message.from, "a \n b");
}

#[test]
fn trimmed_hello_is_accepted() {
    let mut state = UserState::default();
    let outcome =
        exchange(&mut state, "  Hi  ", sent_well(), card_made("/download/a.pdf"), sent_well());
    assert!(outcome.is_ok());
    assert_eq!(state.stage(), WorkflowStage::ProductName);
}

#[test]
fn two_users_do_not_touch_each_other() {
    let mut first = UserState::default();
    let mut second = UserState::default();
    say(&mut first, "Hi");
    say(&mut first, "1");
    say(&mut second, "Hi");
    say(&mut first, "Laptop");
    say(&mut second, "/reset");
    assert_eq!(first.stage(), WorkflowStage::WarrantyDuration);
    assert_eq!(text(first.product_name()), Some("Laptop"));
    assert_eq!(second.stage(), WorkflowStage::Greeting);
    assert_eq!(text(second.product_name()), None);
}

#[test]
fn messages_of_one_user_apply_in_the_order_they_arrive() {
    let mut state = UserState::default();
    for body in ["Hi", "1", "first", "second"] {
        say(&mut state, body);
    }
    assert_eq!(state.stage(), WorkflowStage::CustomerName);
    assert_eq!(text(state.product_name()), Some("first"));
    assert_eq!(text(state.purchase_date()), Some("second"));
}

#[test]
fn handle_ends_where_the_steps_end() {
    let reports = [
        services(sent_well(), card_made("/download/a.pdf"), sent_well()),
        services(not_sent(), card_made("/download/a.pdf"), sent_well()),
        services(sent_well(), CardReport::Answered { success: false, download_url: None }, sent_well()),
        services(sent_well(), card_made("/download/a.pdf"), not_sent()),
        services(not_sent(), CardReport::Failed { reason: "down".to_string() }, not_sent()),
    ];
    let stages = [
        WorkflowStage::Greeting,
        WorkflowStage::ProductName,
        WorkflowStage::PurchaseDate,
        WorkflowStage::AdditionalWarrantyTerms,
        WorkflowStage::WarrantyCard,
    ];
    for report in &reports {
        for stage in stages {
            for body in ["Hi", "1", "2", "/reset", "anything"] {
                let mut walked = state_at(stage);
                let mut handled = state_at(stage);
                let by_steps = walk(&mut walked, body, report);
                let at_once = handled.handle(body, USER, report);
                assert_eq!(by_steps.is_ok(), at_once.is_ok());
                assert_eq!(walked.stage(), handled.stage());
                assert_eq!(walked.product_name(), handled.product_name());
                assert_eq!(walked.additional_terms(), handled.additional_terms());
                assert_eq!(
                    walked.previous_state().product_name,
                    handled.previous_state().product_name
                );
                assert_eq!(
                    walked.previous_state().additional_terms,
                    handled.previous_state().additional_terms
                );
            }
        }
    }
}
