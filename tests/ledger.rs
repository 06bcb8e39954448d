use vara_quiz_contract::account::AccountId;
use vara_quiz_contract::ledger::VaraQuizContract;

fn alice() -> AccountId {
    AccountId::new([1u8; 32])
}

fn bob() -> AccountId {
    AccountId::new([2u8; 32])
}

#[test]
fn test_add_question() {
    let mut contract = VaraQuizContract::new();
    contract.add_question("What is 5 + 5?".to_string(), "10".to_string());
    assert_eq!(contract.next_question_id(), 1);
}

#[test]
fn test_submit_answer_correct() {
    let mut contract = VaraQuizContract::new();
    contract.add_question("What is 5 + 5?".to_string(), "10".to_string());
    let caller = alice();
    assert_eq!(contract.submit_answer(&caller, 0, "10".to_string()), true);
    assert_eq!(contract.get_balance(&caller), 10);
}

#[test]
fn test_submit_answer_incorrect() {
    let mut contract = VaraQuizContract::new();
    contract.add_question("What is 5 + 5?".to_string(), "10".to_string());
    let caller = alice();
    assert_eq!(contract.submit_answer(&caller, 0, "11".to_string()), false);
    assert_eq!(contract.get_balance(&caller), 0);
}

#[test]
fn added_question_text_is_returned() {
    let mut contract = VaraQuizContract::new();
    contract.add_question("2+2?".to_string(), "4".to_string());
    assert_eq!(contract.get_question(0), Some("2+2?".to_string()));
}

#[test]
fn correct_then_wrong_callers_scenario() {
    let mut contract = VaraQuizContract::new();
    contract.add_question("2+2?".to_string(), "4".to_string());
    let a = alice();
    let b = bob();
    assert!(contract.submit_answer(&a, 0, "4".to_string()));
    assert_eq!(contract.get_balance(&a), 10);
    assert!(!contract.submit_answer(&b, 0, "5".to_string()));
    assert_eq!(contract.get_balance(&b), 0);
    assert_eq!(contract.get_balance(&a), 10);
}

#[test]
fn answer_to_missing_question_is_false() {
    let mut contract = VaraQuizContract::new();
    let a = alice();
    assert!(!contract.submit_answer(&a, 99, "anything".to_string()));
    assert_eq!(contract.get_balance(&a), 0);
}

#[test]
fn delete_keeps_others_and_counter() {
    let mut contract = VaraQuizContract::new();
    contract.add_question("first".to_string(), "1".to_string());
    contract.add_question("second".to_string(), "2".to_string());
    assert!(contract.delete_question(0));
    assert_eq!(contract.get_question(0), None);
    assert_eq!(contract.get_question(1), Some("second".to_string()));
    assert_eq!(contract.next_question_id(), 2);
    contract.add_question("third".to_string(), "3".to_string());
    assert_eq!(contract.get_question(2), Some("third".to_string()));
    assert_eq!(contract.get_question(0), None);
    assert_eq!(contract.next_question_id(), 3);
}

#[test]
fn delete_succeeds_only_once() {
    let mut contract = VaraQuizContract::new();
    contract.add_question("q".to_string(), "a".to_string());
    assert!(contract.delete_question(0));
    assert!(!contract.delete_question(0));
    assert!(!contract.delete_question(5));
    assert_eq!(contract.next_question_id(), 1);
}

#[test]
fn answer_to_deleted_question_is_false() {
    let mut contract = VaraQuizContract::new();
    contract.add_question("q".to_string(), "a".to_string());
    assert!(contract.delete_question(0));
    let a = alice();
    assert!(!contract.submit_answer(&a, 0, "a".to_string()));
    assert_eq!(contract.get_balance(&a), 0);
}

#[test]
fn ids_follow_number_of_additions() {
    let mut contract = VaraQuizContract::new();
    assert_eq!(contract.next_question_id(), 0);
    for n in 0..5u32 {
        contract.add_question(format!("q{}", n), format!("a{}", n));
        if n % 2 == 0 {
            assert!(contract.delete_question(n));
        }
        assert_eq!(contract.next_question_id(), n + 1);
    }
    assert_eq!(contract.get_question(1), Some("q1".to_string()));
    assert_eq!(contract.get_question(3), Some("q3".to_string()));
    assert_eq!(contract.get_question(4), None);
    assert_eq!(contract.get_question(5), None);
}

#[test]
fn rewards_accumulate_per_caller() {
    let mut contract = VaraQuizContract::new();
    contract.add_question("x".to_string(), "y".to_string());
    contract.add_question("p".to_string(), "q".to_string());
    let a = alice();
    let b = bob();
    assert!(contract.submit_answer(&a, 0, "y".to_string()));
    assert!(contract.submit_answer(&a, 1, "q".to_string()));
    assert!(contract.submit_answer(&a, 0, "y".to_string()));
    assert!(!contract.submit_answer(&a, 1, "y".to_string()));
    assert_eq!(contract.get_balance(&a), 30);
    assert!(contract.submit_answer(&b, 1, "q".to_string()));
    assert_eq!(contract.get_balance(&b), 10);
}

#[test]
fn answers_compare_exactly() {
    let mut contract = VaraQuizContract::new();
    contract.add_question("Capital?".to_string(), "Paris".to_string());
    let a = alice();
    assert!(!contract.submit_answer(&a, 0, "paris".to_string()));
    assert!(!contract.submit_answer(&a, 0, "Paris ".to_string()));
    assert!(!contract.submit_answer(&a, 0, "".to_string()));
    assert_eq!(contract.get_balance(&a), 0);
    assert!(contract.submit_answer(&a, 0, "Paris".to_string()));
    assert_eq!(contract.get_balance(&a), 10);
}

#[test]
fn empty_strings_are_accepted() {
    let mut contract = VaraQuizContract::new();
    contract.add_question(String::new(), String::new());
    assert_eq!(contract.get_question(0), Some(String::new()));
    let a = alice();
    assert!(contract.submit_answer(&a, 0, String::new()));
    assert_eq!(contract.get_balance(&a), 10);
}

#[test]
fn fresh_ledger_is_empty() {
    let contract = VaraQuizContract::new();
    assert_eq!(contract.next_question_id(), 0);
    assert_eq!(contract.get_question(0), None);
    assert_eq!(contract.get_balance(&alice()), 0);
}

#[test]
fn account_ids_compare_by_bytes() {
    let mut other = [1u8; 32];
    assert!(alice().same_as(&AccountId::new(other)));
    other[31] = 9;
    assert!(!alice().same_as(&AccountId::new(other)));
    assert!(!alice().same_as(&bob()));
}
