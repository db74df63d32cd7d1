//! Bank account data of an open banking recipient, and the checks it must
//! pass before a recipient is registered for it.

use regex::Regex;
use vstd::prelude::*;
use vstd::string::StrSliceExecFns;

use crate::errors::{invalid_request, invalid_request_data, ApiError, ApiErrorResponse};

verus! {

/// Why a pattern could not be compiled. Nothing is read of it.
#[verifier::external_type_specification]
#[verifier::external_body]
pub struct ExRegexError(regex::Error);

/// Most characters an IBAN may have.
pub const IBAN_MAX_LENGTH: usize = 34;

/// Number of characters of a BACS sort code.
pub const BACS_SORT_CODE_LENGTH: usize = 6;

/// Most characters a BACS account number may have.
pub const BACS_MAX_ACCOUNT_NUMBER_LENGTH: usize = 8;

/// The pattern that an IBAN is held to: capital letters and digits only.
pub const IBAN_PATTERN: &'static str = "^[A-Z0-9]*$";

/// The identifier under which a recipient is known.
#[derive(Clone, Debug, PartialEq, Eq)]
pub enum RecipientIdType {
    /// The identifier that the connector gave the recipient.
    ConnectorId(String),
    /// The reference under which the vault keeps the account data.
    LockerId(String),
}

/// A bank account, with the recipient registered for it, if any.
#[derive(Clone, Debug, PartialEq, Eq)]
pub enum MerchantAccountData {
    Iban { iban: String, name: String, connector_recipient_id: Option<RecipientIdType> },
    Bacs {
        account_number: String,
        sort_code: String,
        name: String,
        connector_recipient_id: Option<RecipientIdType>,
    },
}

/// Whether a character is a digit from 0 to 9.
pub open spec fn is_digit(c: char) -> bool {
    '0' as u32 <= c as u32 <= '9' as u32
}

/// Whether a character is a capital letter from A to Z.
pub open spec fn is_capital(c: char) -> bool {
    'A' as u32 <= c as u32 <= 'Z' as u32
}

/// Whether a text holds capital letters and digits only.
pub open spec fn is_upper_alnum(text: Seq<char>) -> bool {
    forall|i: int| 0 <= i < text.len() ==> is_digit(#[trigger] text[i]) || is_capital(text[i])
}

/// An IBAN of four characters or more with its first four characters
/// moved to its end.
pub open spec fn rearranged(iban: Seq<char>) -> Seq<char>
    recommends
        iban.len() >= 4,
{
    iban.skip(4) + iban.take(4)
}

/// The number written by `digits` followed by the decimal form of `c`: a
/// digit stands for itself, a letter for the two digits of its place in the
/// alphabet plus nine (A is 10, Z is 35).
pub open spec fn append_char(digits: nat, c: char) -> nat {
    if is_digit(c) {
        (digits * 10 + (c as u32 - '0' as u32)) as nat
    } else {
        (digits * 100 + (c as u32 - 'A' as u32 + 10)) as nat
    }
}

/// The number that a text of capital letters and digits writes when every
/// letter is replaced by its two digits. There is no bound on its size.
pub open spec fn numeric_value(text: Seq<char>) -> nat
    decreases text.len(),
{
    if text.len() == 0 {
        0
    } else {
        append_char(numeric_value(text.drop_last()), text.last())
    }
}

/// The check on the control digits of an IBAN: the number written by the
/// rearranged IBAN leaves the remainder 1 when divided by 97.
pub open spec fn iban_checksum_holds(iban: Seq<char>) -> bool {
    numeric_value(rearranged(iban)) % 97 == 1
}

/// The fault of an IBAN, rule by rule: its length, its characters, then
/// its control digits. An IBAN of fewer than four characters has no four
/// characters to move and is invalid like one whose control digits fail.
/// `None` means that the IBAN is valid.
pub open spec fn iban_fault(iban: Seq<char>) -> Option<ApiError> {
    if iban.len() > IBAN_MAX_LENGTH {
        Some(invalid_request("IBAN length must be up to 34 characters"@))
    } else if !is_upper_alnum(iban) {
        Some(invalid_request("IBAN data must be alphanumeric"@))
    } else if iban.len() < 4 || !iban_checksum_holds(iban) {
        Some(invalid_request("Invalid IBAN"@))
    } else {
        None
    }
}

/// The fault of a BACS account: more than eight characters of account
/// number, or a sort code that has not six.
pub open spec fn bacs_fault(account_number: Seq<char>, sort_code: Seq<char>) -> Option<ApiError> {
    if account_number.len() > BACS_MAX_ACCOUNT_NUMBER_LENGTH || sort_code.len()
        != BACS_SORT_CODE_LENGTH {
        Some(invalid_request("Invalid BACS numbers"@))
    } else {
        None
    }
}

/// The fault of bank account data.
pub open spec fn bank_account_fault(data: MerchantAccountData) -> Option<ApiError> {
    match data {
        MerchantAccountData::Iban { iban, .. } => iban_fault(iban@),
        MerchantAccountData::Bacs { account_number, sort_code, .. } => bacs_fault(
            account_number@,
            sort_code@,
        ),
    }
}

/// The outcome of a check as an optional error.
pub open spec fn check_fault(result: Result<(), ApiErrorResponse>) -> Option<ApiError> {
    match result {
        Ok(_) => None,
        Err(e) => Some(e@),
    }
}

/// Compiles the pattern with `regex::Regex::new` and asks `is_match` for the
/// text. Only [`IBAN_PATTERN`] is handed in. It is a valid pattern, so it
/// compiles; anchored at both ends of the text, it matches exactly the
/// texts made of capital letters and digits.
#[verifier::external_body]
fn matches_pattern(pattern: &str, text: &str) -> (matched: Result<bool, regex::Error>)
    requires
        pattern@ == IBAN_PATTERN@,
    ensures
        match matched {
            Ok(m) => m == is_upper_alnum(text@),
            Err(_) => false,
        },
{
    match Regex::new(pattern) {
        Ok(compiled) => Ok(compiled.is_match(text)),
        Err(e) => Err(e),
    }
}

proof fn lemma_append_char_mod(digits: nat, c: char)
    requires
        is_digit(c) || is_capital(c),
    ensures
        append_char(digits, c) % 97 == append_char(digits % 97, c) % 97,
{
    let q = digits / 97;
    let r = digits % 97;
    assert(digits == 97 * q + r) by (nonlinear_arith)
        requires
            q == digits / 97,
            r == digits % 97,
    ;
    if is_digit(c) {
        let d = (c as u32 - '0' as u32) as nat;
        assert((97 * q + r) * 10 + d == 97 * (q * 10) + (r * 10 + d)) by (nonlinear_arith);
        assert((97 * (q * 10) + (r * 10 + d)) % 97 == (r * 10 + d) % 97) by (nonlinear_arith);
    } else {
        let d = (c as u32 - 'A' as u32 + 10) as nat;
        assert((97 * q + r) * 100 + d == 97 * (q * 100) + (r * 100 + d)) by (nonlinear_arith);
        assert((97 * (q * 100) + (r * 100 + d)) % 97 == (r * 100 + d) % 97) by (nonlinear_arith);
    }
}

/// The remainder that the number written by the rearranged IBAN leaves when
/// divided by 97.
fn rearranged_mod_97(iban: &str) -> (remainder: u32)
    requires
        is_upper_alnum(iban@),
        4 <= iban@.len() <= IBAN_MAX_LENGTH,
    ensures
        remainder == numeric_value(rearranged(iban@)) % 97,
{
    let n = iban.unicode_len();
    let ghost text = rearranged(iban@);
    let mut remainder: u32 = 0;
    let mut i: usize = 0;
    assert(text.take(0) =~= Seq::<char>::empty());
    while i < n
        invariant
            i <= n,
            n == iban@.len(),
            4 <= n <= IBAN_MAX_LENGTH,
            text == rearranged(iban@),
            text.len() == n,
            is_upper_alnum(iban@),
            remainder < 97,
            remainder == numeric_value(text.take(i as int)) % 97,
        decreases n - i,
    {
        let source = if i < n - 4 {
            i + 4
        } else {
            i - (n - 4)
        };
        let c = iban.get_char(source);
        assert(text[i as int] == c);
        let code = c as u32;
        let next = if 48 <= code && code <= 57 {
            (remainder * 10 + (code - 48)) % 97
        } else {
            (remainder * 100 + (code - 65 + 10)) % 97
        };
        proof {
            let before = text.take(i as int);
            let after = text.take(i + 1);
            assert(after.drop_last() =~= before);
            assert(after.last() == c);
            assert(numeric_value(after) == append_char(numeric_value(before), c));
            lemma_append_char_mod(numeric_value(before), c);
            assert(next == append_char(remainder as nat, c) % 97);
        }
        remainder = next;
        i += 1;
    }
    assert(text.take(n as int) =~= text);
    remainder
}

/// Validates an IBAN: [`iban_fault`].
pub fn validate_iban(iban: &str) -> (result: Result<(), ApiErrorResponse>)
    ensures
        check_fault(result) == iban_fault(iban@),
{
    let n = iban.unicode_len();
    if n > IBAN_MAX_LENGTH {
        return Err(invalid_request_data("IBAN length must be up to 34 characters"));
    }
    let alphanumeric = match matches_pattern(IBAN_PATTERN, iban) {
        Ok(m) => m,
        Err(_) => {
            return Err(ApiErrorResponse::InternalServerError);
        },
    };
    if !alphanumeric {
        return Err(invalid_request_data("IBAN data must be alphanumeric"));
    }
    if n < 4 || rearranged_mod_97(iban) != 1 {
        return Err(invalid_request_data("Invalid IBAN"));
    }
    Ok(())
}

/// Validates the numbers of a BACS account by their lengths.
pub fn validate_bacs(account_number: &str, sort_code: &str) -> (result: Result<
    (),
    ApiErrorResponse,
>)
    ensures
        check_fault(result) == bacs_fault(account_number@, sort_code@),
{
    if account_number.unicode_len() > BACS_MAX_ACCOUNT_NUMBER_LENGTH || sort_code.unicode_len()
        != BACS_SORT_CODE_LENGTH {
        Err(invalid_request_data("Invalid BACS numbers"))
    } else {
        Ok(())
    }
}

/// Validates bank account data: [`bank_account_fault`].
pub fn validate_bank_account_data(data: &MerchantAccountData) -> (result: Result<
    (),
    ApiErrorResponse,
>)
    ensures
        check_fault(result) == bank_account_fault(*data),
{
    match data {
        MerchantAccountData::Iban { iban, .. } => validate_iban(iban.as_str()),
        MerchantAccountData::Bacs { account_number, sort_code, .. } => validate_bacs(
            account_number.as_str(),
            sort_code.as_str(),
        ),
    }
}

impl RecipientIdType {
    /// A copy of the identifier.
    pub fn duplicate(&self) -> (copy: RecipientIdType)
        ensures
            copy == *self,
    {
        match self {
            RecipientIdType::ConnectorId(id) => RecipientIdType::ConnectorId(id.clone()),
            RecipientIdType::LockerId(id) => RecipientIdType::LockerId(id.clone()),
        }
    }
}

impl MerchantAccountData {
    /// A copy of the bank account data.
    pub fn duplicate(&self) -> (copy: MerchantAccountData)
        ensures
            copy == *self,
    {
        match self {
            MerchantAccountData::Iban { iban, name, connector_recipient_id } => {
                MerchantAccountData::Iban {
                    iban: iban.clone(),
                    name: name.clone(),
                    connector_recipient_id: match connector_recipient_id {
                        Some(id) => Some(id.duplicate()),
                        None => None,
                    },
                }
            },
            MerchantAccountData::Bacs {
                account_number,
                sort_code,
                name,
                connector_recipient_id,
            } => MerchantAccountData::Bacs {
                account_number: account_number.clone(),
                sort_code: sort_code.clone(),
                name: name.clone(),
                connector_recipient_id: match connector_recipient_id {
                    Some(id) => Some(id.duplicate()),
                    None => None,
                },
            },
        }
    }
}

} // verus!
