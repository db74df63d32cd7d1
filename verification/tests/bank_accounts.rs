use admin_core::bank::{
    validate_bacs, validate_bank_account_data, validate_iban, MerchantAccountData,
};
use admin_core::errors::ApiErrorResponse;

fn iban(text: &str) -> MerchantAccountData {
    MerchantAccountData::Iban {
        iban: text.to_string(),
        name: "holder".to_string(),
        connector_recipient_id: None,
    }
}

fn bacs(account_number: &str, sort_code: &str) -> MerchantAccountData {
    MerchantAccountData::Bacs {
        account_number: account_number.to_string(),
        sort_code: sort_code.to_string(),
        name: "holder".to_string(),
        connector_recipient_id: None,
    }
}

fn invalid(message: &str) -> Result<(), ApiErrorResponse> {
    Err(ApiErrorResponse::InvalidRequestData { message: message.to_string() })
}

#[test]
fn valid_iban_passes() {
    assert_eq!(validate_bank_account_data(&iban("GB82WEST12345698765432")), Ok(()));
    assert_eq!(validate_bank_account_data(&iban("DE89370400440532013000")), Ok(()));
    assert_eq!(validate_bank_account_data(&iban("NL91ABNA0417164300")), Ok(()));
    assert_eq!(validate_bank_account_data(&iban("FR1420041010050500013M02606")), Ok(()));
}

#[test]
fn long_iban_is_checked_without_a_bound_on_its_number() {
    // Malta: 31 characters, whose digits make a number of more than 38 digits
    assert_eq!(validate_bank_account_data(&iban("MT84MALT011000012345MTLCAST001S")), Ok(()));
    assert_eq!(
        validate_bank_account_data(&iban("MT84MALT011000012345MTLCAST001T")),
        invalid("Invalid IBAN")
    );
}

#[test]
fn iban_with_wrong_control_digits_fails() {
    assert_eq!(
        validate_bank_account_data(&iban("GB82WEST1234569876543")),
        invalid("Invalid IBAN")
    );
    assert_eq!(
        validate_bank_account_data(&iban("GB83WEST12345698765432")),
        invalid("Invalid IBAN")
    );
    assert_eq!(
        validate_bank_account_data(&iban("GB82WEST12345698765423")),
        invalid("Invalid IBAN")
    );
}

#[test]
fn lowercase_iban_fails() {
    assert_eq!(
        validate_bank_account_data(&iban("gb82west12345698765432")),
        invalid("IBAN data must be alphanumeric")
    );
    assert_eq!(
        validate_bank_account_data(&iban("GB82 WEST 1234 5698 7654 32")),
        invalid("IBAN data must be alphanumeric")
    );
    assert_eq!(
        validate_bank_account_data(&iban("GB82WEST1234569876543\n")),
        invalid("IBAN data must be alphanumeric")
    );
}

#[test]
fn iban_of_35_characters_fails() {
    let long = "GB82WEST123456987654320000000000000";
    assert_eq!(long.len(), 35);
    assert_eq!(
        validate_bank_account_data(&iban(long)),
        invalid("IBAN length must be up to 34 characters")
    );
    // the length is looked at before the characters
    assert_eq!(
        validate_bank_account_data(&iban(&"a".repeat(35))),
        invalid("IBAN length must be up to 34 characters")
    );
    // 34 characters are not too long
    assert_eq!(
        validate_bank_account_data(&iban(&"A".repeat(34))),
        invalid("Invalid IBAN")
    );
}

#[test]
fn empty_iban_is_invalid() {
    assert_eq!(validate_bank_account_data(&iban("")), invalid("Invalid IBAN"));
    assert_eq!(validate_iban(""), invalid("Invalid IBAN"));
}

#[test]
fn iban_of_fewer_than_four_characters_is_invalid() {
    for short in ["", "1", "98", "J5", "001", "A"] {
        assert_eq!(validate_bank_account_data(&iban(short)), invalid("Invalid IBAN"));
    }
    // the characters are looked at before the length
    assert_eq!(
        validate_bank_account_data(&iban("a")),
        invalid("IBAN data must be alphanumeric")
    );
}

#[test]
fn four_characters_and_more_are_rearranged() {
    // "9800" moves "9800" behind nothing and stays 9800 = 101 * 97 + 3
    assert_eq!(validate_bank_account_data(&iban("9800")), invalid("Invalid IBAN"));
    // "0098" is 98 = 97 + 1
    assert_eq!(validate_bank_account_data(&iban("0098")), Ok(()));
    // "00015": "0001" moves behind "5" and gives 50001 = 515 * 97 + 46
    assert_eq!(validate_bank_account_data(&iban("00015")), invalid("Invalid IBAN"));
    // "98001": "9800" moves behind "1" and gives 19800 = 204 * 97 + 12
    assert_eq!(validate_bank_account_data(&iban("98001")), invalid("Invalid IBAN"));
    // "00980": "0098" moves behind "0" and gives 98 = 97 + 1
    assert_eq!(validate_bank_account_data(&iban("00980")), Ok(()));
}

#[test]
fn letters_count_as_two_digits() {
    // "00J5": J is 19, the number is 195 = 2 * 97 + 1
    assert_eq!(validate_bank_account_data(&iban("00J5")), Ok(()));
    // "000A": A is 10, and 10 is not 1
    assert_eq!(validate_bank_account_data(&iban("000A")), invalid("Invalid IBAN"));
    // "009Z": Z is 35, the number is 935 = 9 * 97 + 62
    assert_eq!(validate_bank_account_data(&iban("009Z")), invalid("Invalid IBAN"));
    // "5000J": "5000" moves behind "J" and gives 195000 = 2010 * 97 + 30
    assert_eq!(validate_bank_account_data(&iban("5000J")), invalid("Invalid IBAN"));
}

#[test]
fn iban_is_judged_rule_by_rule() {
    assert_eq!(validate_iban("GB82WEST12345698765432"), Ok(()));
    assert_eq!(validate_iban("gb82"), invalid("IBAN data must be alphanumeric"));
    assert_eq!(validate_iban("GB82WEST12345698765431"), invalid("Invalid IBAN"));
    assert_eq!(
        validate_iban(&"a".repeat(35)),
        invalid("IBAN length must be up to 34 characters")
    );
}

#[test]
fn valid_bacs_passes() {
    assert_eq!(validate_bank_account_data(&bacs("12345678", "123456")), Ok(()));
    assert_eq!(validate_bank_account_data(&bacs("1234", "123456")), Ok(()));
    assert_eq!(validate_bank_account_data(&bacs("", "123456")), Ok(()));
    assert_eq!(validate_bacs("abcdefgh", "abcdef"), Ok(()));
}

#[test]
fn bacs_account_number_of_9_digits_fails() {
    assert_eq!(
        validate_bank_account_data(&bacs("123456789", "123456")),
        invalid("Invalid BACS numbers")
    );
}

#[test]
fn bacs_sort_code_of_5_digits_fails() {
    assert_eq!(
        validate_bank_account_data(&bacs("12345678", "12345")),
        invalid("Invalid BACS numbers")
    );
    assert_eq!(
        validate_bank_account_data(&bacs("12345678", "1234567")),
        invalid("Invalid BACS numbers")
    );
    assert_eq!(validate_bank_account_data(&bacs("12345678", "")), invalid("Invalid BACS numbers"));
}

#[test]
fn bacs_lengths_count_characters() {
    assert_eq!(validate_bacs("12345678", "12345\u{e9}"), Ok(()));
    assert_eq!(validate_bacs("1234567\u{e9}", "123456"), Ok(()));
}
