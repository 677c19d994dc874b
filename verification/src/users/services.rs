//! Customer authentication use-cases: who is a verified customer, and
//! verifying a shared contact against a registered phone number.

use vstd::prelude::*;
use crate::repo::RepoError;
use crate::users::error::AuthError;
use crate::users::types::{Role, User};

verus! {

/// What a use-case needs next after looking an account up.
#[derive(Debug)]
pub enum AuthStep {
    /// The outcome is known.
    Done(Result<User, AuthError>),
    /// Ask whether this account has the customer role, then decide with the answer.
    CheckCustomerRole { user_id: u128, user: User },
}

/// After looking up the account bound to a Telegram id: an unknown account
/// is not verified; a known one still needs the customer role.
pub fn verified_user_after_lookup(found: Result<Option<User>, RepoError>) -> (step: AuthStep)
    ensures
        match found {
            Err(_) => step matches AuthStep::Done(Err(e)) && e == AuthError::Internal,
            Ok(None) => step matches AuthStep::Done(Err(e)) && e == AuthError::NotVerified,
            Ok(Some(u)) => step == (AuthStep::CheckCustomerRole { user_id: u.id, user: u }),
        },
{
    match found {
        Err(_) => AuthStep::Done(Err(AuthError::Internal)),
        Ok(None) => AuthStep::Done(Err(AuthError::NotVerified)),
        Ok(Some(u)) => AuthStep::CheckCustomerRole { user_id: u.id, user: u },
    }
}

/// After asking whether the account is a customer: only a customer is verified.
pub fn verified_user_after_role_check(user: User, is_customer: Result<bool, RepoError>) -> (r: Result<User, AuthError>)
    ensures
        match is_customer {
            Err(_) => r matches Err(e) && e == AuthError::Internal,
            Ok(false) => r matches Err(e) && e == AuthError::NotVerified,
            Ok(true) => r == Ok::<User, AuthError>(user),
        },
{
    match is_customer {
        Err(_) => Err(AuthError::Internal),
        Ok(false) => Err(AuthError::NotVerified),
        Ok(true) => Ok(user),
    }
}

/// What the verified-customer check needs after the account lookup.
#[derive(Debug)]
pub enum CustomerCheckStep {
    /// The answer is known.
    Done(Result<bool, AuthError>),
    /// Ask whether this account has the customer role; that answer is the result
    /// (see [`auth_result`]).
    CheckCustomerRole { user_id: u128 },
}

/// After looking up the account bound to a Telegram id: no account means not a customer.
pub fn customer_check_after_lookup(found: Result<Option<User>, RepoError>) -> (step: CustomerCheckStep)
    ensures
        match found {
            Err(_) => step matches CustomerCheckStep::Done(Err(e)) && e == AuthError::Internal,
            Ok(None) => step matches CustomerCheckStep::Done(Ok(b)) && !b,
            Ok(Some(u)) => step == (CustomerCheckStep::CheckCustomerRole { user_id: u.id }),
        },
{
    match found {
        Err(_) => CustomerCheckStep::Done(Err(AuthError::Internal)),
        Ok(None) => CustomerCheckStep::Done(Ok(false)),
        Ok(Some(u)) => CustomerCheckStep::CheckCustomerRole { user_id: u.id },
    }
}

/// A store result as an authentication result: any failure is internal.
pub fn auth_result<T>(r: Result<T, RepoError>) -> (out: Result<T, AuthError>)
    ensures
        match r {
            Ok(v) => out == Ok::<T, AuthError>(v),
            Err(_) => out == Err::<T, AuthError>(AuthError::Internal),
        },
{
    match r {
        Ok(v) => Ok(v),
        Err(_) => Err(AuthError::Internal),
    }
}

/// A write to the account store made while verifying a contact.
#[derive(Debug, Clone)]
pub enum AccountWrite {
    BindTelegram { user_id: u128, telegram_id: i64, telegram_username: Option<String>, full_name: Option<String> },
    SetPhoneAndVerify { user_id: u128, phone: String },
    AssignRole { user_id: u128, role: Role },
}

/// Whether `w` are the writes that activate a registered account as a
/// verified customer: bind the Telegram account, record and verify the phone,
/// grant the customer role.
pub open spec fn is_activation(
    w: Seq<AccountWrite>,
    user_id: u128,
    telegram_id: i64,
    telegram_username: Option<Seq<char>>,
    full_name: Option<Seq<char>>,
    phone: Seq<char>,
) -> bool {
    &&& w.len() == 3
    &&& w[0] matches AccountWrite::BindTelegram { user_id: u, telegram_id: t, telegram_username: n, full_name: f }
        && u == user_id && t == telegram_id && option_view(n) == telegram_username && option_view(f) == full_name
    &&& w[1] matches AccountWrite::SetPhoneAndVerify { user_id: u, phone: p } && u == user_id && p@ == phone
    &&& w[2] matches AccountWrite::AssignRole { user_id: u, role: r } && u == user_id && r == Role::Customer
}

/// The text an optional string holds.
pub open spec fn option_view(o: Option<String>) -> Option<Seq<char>> {
    match o {
        Some(s) => Some(s@),
        None => None,
    }
}

/// A copy of an optional borrowed text.
fn owned_text(o: Option<&str>) -> (r: Option<String>)
    ensures
        option_view(r) == match o { Some(s) => Some(s@), None => None::<Seq<char>> },
{
    match o {
        Some(s) => Some(String::from_str(s)),
        None => None,
    }
}

/// After looking up the account registered under the shared phone number:
/// an unknown number is refused (no account is created); a registered one is
/// activated by the returned writes, performed in order, any failure being internal.
pub fn contact_after_phone_lookup(
    found: Result<Option<User>, RepoError>,
    telegram_id: i64,
    telegram_username: Option<&str>,
    full_name: Option<&str>,
    phone: &str,
) -> (r: Result<Vec<AccountWrite>, AuthError>)
    ensures
        match found {
            Err(_) => r matches Err(e) && e == AuthError::Internal,
            Ok(None) => r matches Err(e) && e == AuthError::PhoneNotRegistered,
            Ok(Some(u)) => r matches Ok(w) && is_activation(
                w@,
                u.id,
                telegram_id,
                match telegram_username { Some(s) => Some(s@), None => None },
                match full_name { Some(s) => Some(s@), None => None },
                phone@,
            ),
        },
{
    match found {
        Err(_) => Err(AuthError::Internal),
        Ok(None) => Err(AuthError::PhoneNotRegistered),
        Ok(Some(u)) => {
            let mut w: Vec<AccountWrite> = Vec::new();
            w.push(AccountWrite::BindTelegram {
                user_id: u.id,
                telegram_id,
                telegram_username: owned_text(telegram_username),
                full_name: owned_text(full_name),
            });
            w.push(AccountWrite::SetPhoneAndVerify { user_id: u.id, phone: String::from_str(phone) });
            w.push(AccountWrite::AssignRole { user_id: u.id, role: Role::Customer });
            Ok(w)
        },
    }
}

/// After the writes, the account read back by Telegram id is the verified
/// customer; not finding it is an internal error.
pub fn contact_after_refetch(found: Result<Option<User>, RepoError>) -> (r: Result<User, AuthError>)
    ensures
        match found {
            Ok(Some(u)) => r == Ok::<User, AuthError>(u),
            _ => r matches Err(e) && e == AuthError::Internal,
        },
{
    match found {
        Ok(Some(u)) => Ok(u),
        _ => Err(AuthError::Internal),
    }
}

} // verus!
